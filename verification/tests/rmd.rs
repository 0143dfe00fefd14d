// Required minimum distributions: the age table (periods in tenths of a
// year) and the distribution fraction.

use isim::ratio::Ratio;
use isim::rmd::distributon_period;
use isim::rmd::rmd_fraction;

#[test]
fn distributon_period_test() {
    assert_eq!(distributon_period(40), None);
    assert_eq!(distributon_period(70), Some(274));
    assert_eq!(distributon_period(80), Some(187));
    assert_eq!(distributon_period(115), Some(19));
    assert_eq!(distributon_period(120), Some(19));
}

#[test]
fn rmd_fraction_test() {
    assert_eq!(rmd_fraction(40), Ratio::new(0, 1));
    assert_eq!(rmd_fraction(80), Ratio::new(10, 187));
    assert_eq!(rmd_fraction(120), Ratio::new(10, 19));
}

#[test]
fn rmd_fraction_is_at_most_one() {
    let ages = [0, 69, 70, 90, 115, 116, 1000];
    for &age in ages.iter() {
        let f = rmd_fraction(age);
        assert!(f.num >= 0);
        assert!(f.num <= f.den);
    }
}
