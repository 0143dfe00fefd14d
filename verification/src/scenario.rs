//! The ensemble driver: one `Instance` per possible historical starting
//! year, advanced in lock step and re-ranked every simulated year.
//!
//! Cohorts whose historical window would run past the end of the dataset
//! "age out" and are dropped.  After each year the survivors are sorted by
//! inflation-adjusted total value, so the median and worst outcomes are a
//! single index away.

use vstd::prelude::*;

verus! {

use vstd::pervasive::VecAdditionalExecFns;
use crate::account::Account;
use crate::config::InitialState;
use crate::config::Phase;
use crate::histret::HistoricalYear;
use crate::instance::Instance;
use crate::instance::advanced_under;
use crate::config::PhaseType;
use crate::money::MONEY_CAP;
use crate::ratio::Ratio;

/// The rank of an instance in the ensemble: its inflation-adjusted total
/// value.
pub open spec fn spec_sort_key(inst: Instance) -> int {
    crate::instance::spec_real(inst.spec_value(), inst.inflation as int)
}

/// Whether some pair in `s` carries starting index `st`.
pub open spec fn seq_has_start(s: Seq<(usize, Instance)>, st: int) -> bool {
    exists|k: int| 0 <= k < s.len() && (#[trigger] s[k]).0 == st
}

/// Whether, among the first `upto` pairs of `s`, some pair carries
/// starting index `st` and that cohort's window still fits the dataset.
pub open spec fn has_surviving_start(
    s: Seq<(usize, Instance)>,
    upto: int,
    y: int,
    l: int,
    st: int,
) -> bool {
    exists|k: int| 0 <= k < upto && (#[trigger] s[k]).0 == st && st + y < l
}

/// Pair `p` of the new ensemble came from the old ensemble `before` by
/// one simulated year: some old pair has its starting index, its window
/// still fits the dataset, and its instance advanced to `p`'s under the
/// phase `c` with its own historical record.
pub open spec fn advanced_from(
    before: Seq<(usize, Instance)>,
    p: (usize, Instance),
    y: int,
    c: PhaseType,
    hist: Seq<HistoricalYear>,
) -> bool {
    exists|k: int|
        0 <= k < before.len() && (#[trigger] before[k]).0 == p.0 && before[k].0 + y < hist.len()
            && advanced_under(before[k].1, p.1, y, c, hist[before[k].0 + y])
}

/// Ascending by inflation-adjusted value.
pub open spec fn sorted_by_key(s: Seq<(usize, Instance)>) -> bool {
    forall|k1: int, k2: int|
        0 <= k1 <= k2 < s.len() ==> spec_sort_key(#[trigger] s[k1].1) <= spec_sort_key(
            #[trigger] s[k2].1,
        )
}

/// The number of cohorts in `s`, from index `i` on, that still hold any
/// value.
pub open spec fn count_successes(s: Seq<(usize, Instance)>, i: int) -> int
    decreases s.len() - i,
{
    if i < 0 || i >= s.len() {
        0
    } else {
        (if s[i].1.spec_value() > 0 {
            1int
        } else {
            0int
        }) + count_successes(s, i + 1)
    }
}

proof fn lemma_count_successes_bounds(s: Seq<(usize, Instance)>, i: int)
    requires
        0 <= i <= s.len(),
    ensures
        0 <= count_successes(s, i) <= s.len() - i,
    decreases s.len() - i,
{
    if i < s.len() {
        lemma_count_successes_bounds(s, i + 1);
    }
}

/// The total number of years in a phase schedule, from phase `i` on.
pub open spec fn years_from(s: Seq<Phase>, i: int) -> int
    decreases s.len() - i,
{
    if i < 0 || i >= s.len() {
        0
    } else {
        s[i].years + years_from(s, i + 1)
    }
}

proof fn lemma_years_from_nonneg(s: Seq<Phase>, i: int)
    ensures
        0 <= years_from(s, i),
    decreases s.len() - i,
{
    if 0 <= i < s.len() {
        lemma_years_from_nonneg(s, i + 1);
    }
}

proof fn lemma_years_from_monotone(s: Seq<Phase>, j: int, i: int)
    requires
        0 <= j <= i,
    ensures
        years_from(s, i) <= years_from(s, j),
    decreases i - j,
{
    if j < i {
        lemma_years_from_monotone(s, j + 1, i);
    }
}

/// The phase governing the `t`-th simulated year, counting years from
/// phase `i` on through the schedule.
pub open spec fn phase_at(s: Seq<Phase>, i: int, t: int) -> int
    decreases s.len() - i,
{
    if i < 0 || i >= s.len() {
        i
    } else if t < s[i].years {
        i
    } else {
        phase_at(s, i + 1, t - s[i].years)
    }
}

/// The `k`-th year of phase `i` is year number
/// `(years of the phases before i) + k` of the whole schedule.
proof fn lemma_phase_at_locates(s: Seq<Phase>, j: int, i: int, k: int)
    requires
        0 <= j <= i < s.len(),
        0 <= k < s[i].years,
    ensures
        phase_at(s, j, years_from(s, j) - years_from(s, i) + k) == i,
    decreases i - j,
{
    if j < i {
        lemma_years_from_monotone(s, j + 1, i);
        lemma_phase_at_locates(s, j + 1, i, k);
    }
}

/// The relation one call of `next` under phase `i` establishes between
/// the ensembles before and after one simulated year: the year advances,
/// the schedule and the dataset are unchanged, exactly the cohorts whose
/// historical window still fits survive (each starting year at most once,
/// by well-formedness), every survivor is the one-year advance of its own
/// old cohort with its own historical record, and the survivors are
/// ranked by inflation-adjusted value.
pub open spec fn advances_one_year(pre: Scenario, post: Scenario, i: int) -> bool {
    &&& post.wf()
    &&& post.year == pre.year + 1
    &&& post.phases == pre.phases
    &&& post.history == pre.history
    &&& sorted_by_key(post.instances@)
    &&& forall|s: int|
        post.has_start(s) <==> (pre.has_start(s) && s + pre.year < pre.history@.len())
    &&& forall|m: int|
        #![trigger post.instances@[m]]
        0 <= m < post.instances@.len() ==> advanced_from(
            pre.instances@,
            post.instances@[m],
            pre.year as int,
            pre.phases@[i].config,
            pre.history@,
        )
}

/// The ensemble `post` is reached from `pre` by running the whole phase
/// schedule: a chain of states, one `next` per simulated year, each year
/// governed by the phase the schedule places it in.
pub open spec fn runs_schedule(pre: Scenario, post: Scenario) -> bool {
    exists|chain: Seq<Scenario>|
        {
            &&& chain.len() == years_from(pre.phases@, 0) + 1
            &&& #[trigger] chain[0] == pre
            &&& chain[chain.len() - 1] == post
            &&& forall|t: int|
                0 <= t < chain.len() - 1 ==> advances_one_year(
                    #[trigger] chain[t],
                    chain[t + 1],
                    phase_at(pre.phases@, 0, t),
                )
        }
}

/// A concrete chain of states witnesses `runs_schedule`.
proof fn lemma_runs_schedule_intro(pre: Scenario, post: Scenario, chain: Seq<Scenario>)
    requires
        chain.len() == years_from(pre.phases@, 0) + 1,
        chain[0] == pre,
        chain[chain.len() - 1] == post,
        forall|t: int|
            0 <= t < chain.len() - 1 ==> advances_one_year(
                #[trigger] chain[t],
                chain[t + 1],
                phase_at(pre.phases@, 0, t),
            ),
    ensures
        runs_schedule(pre, post),
{
}

/// The ensemble: the simulated-year offset, one instance per surviving
/// starting year (tagged with its starting index), the phase schedule, and
/// the historical dataset.
#[derive(Clone, Debug)]
pub struct Scenario {
    pub year: usize,
    pub instances: Vec<(usize, Instance)>,
    pub phases: Vec<Phase>,
    pub history: Vec<HistoricalYear>,
}

impl Scenario {
    pub open spec fn wf(self) -> bool {
        &&& forall|k: int|
            0 <= k < self.instances@.len() ==> (#[trigger] self.instances@[k]).1.wf()
        &&& forall|k: int|
            0 <= k < self.instances@.len() ==> (#[trigger] self.instances@[k]).0
                == self.instances@[k].1.start
        &&& forall|k: int|
            0 <= k < self.instances@.len() ==> (#[trigger] self.instances@[k]).0
                < self.history@.len()
        &&& forall|k1: int, k2: int|
            0 <= k1 < k2 < self.instances@.len() ==> (#[trigger] self.instances@[k1]).0 != (
            #[trigger] self.instances@[k2]).0
        &&& forall|k: int| 0 <= k < self.history@.len() ==> (#[trigger] self.history@[k]).wf()
        &&& forall|k: int| 0 <= k < self.phases@.len() ==> (#[trigger] self.phases@[k]).wf()
        &&& self.history@.len() <= 1_000_000_000
    }

    /// Whether a cohort that started at index `s` is still in the
    /// ensemble.
    pub open spec fn has_start(self, s: int) -> bool {
        exists|k: int| 0 <= k < self.instances@.len() && (#[trigger] self.instances@[k]).0 == s
    }

    /// Build the ensemble: one instance per starting year of the dataset,
    /// each seeded with the configured starting balances.
    pub fn new(is: &InitialState, history: &Vec<HistoricalYear>) -> (s: Scenario)
        requires
            is.wf(),
            forall|k: int| 0 <= k < history@.len() ==> (#[trigger] history@[k]).wf(),
            history@.len() <= 1_000_000_000,
        ensures
            s.wf(),
            s.year == 0,
            s.phases@ == is.phases@,
            s.history@ == history@,
            s.instances@.len() == history@.len(),
            forall|k: int|
                0 <= k < history@.len() ==> (#[trigger] s.instances@[k]).0 == k
                    && s.instances@[k].1 == Scenario::initial_instance(*is, k),
    {
        let pre_tax = Account::from_allocation(&is.initial_balance.pre_tax);
        let roth = Account::from_allocation(&is.initial_balance.roth);
        let basis = match is.initial_balance.after_tax_cost_basis {
            Option::Some(b) => b,
            Option::None => 0,
        };
        let after_tax = Account::from_allocation_and_basis(&is.initial_balance.after_tax, basis);
        let mut instances: Vec<(usize, Instance)> = Vec::new();
        let n = history.len();
        let mut i: usize = 0;
        while i < n
            invariant
                n == history@.len(),
                i <= n,
                instances@.len() == i,
                pre_tax == Account::spec_from_allocation(is.initial_balance.pre_tax, 0),
                roth == Account::spec_from_allocation(is.initial_balance.roth, 0),
                after_tax == Account::spec_from_allocation(
                    is.initial_balance.after_tax,
                    match is.initial_balance.after_tax_cost_basis {
                        Option::Some(b) => b as int,
                        Option::None => 0,
                    },
                ),
                pre_tax.wf(),
                roth.wf(),
                after_tax.wf(),
                is.wf(),
                forall|k: int|
                    0 <= k < i ==> (#[trigger] instances@[k]).0 == k && instances@[k].1
                        == Scenario::initial_instance(*is, k),
            decreases n - i,
        {
            instances.push((i, Instance::new(i, pre_tax, roth, after_tax, is.expense_ratio)));
            i = i + 1;
        }
        Scenario { year: 0, instances, phases: is.phases.clone(), history: history.clone() }
    }

    /// The instance every cohort starts from: the configured balances, no
    /// inflation yet, an empty income record.
    pub open spec fn initial_instance(is: InitialState, k: int) -> Instance {
        Instance {
            start: k as usize,
            cash: 0,
            pre_tax: Account::spec_from_allocation(is.initial_balance.pre_tax, 0),
            roth: Account::spec_from_allocation(is.initial_balance.roth, 0),
            after_tax: Account::spec_from_allocation(
                is.initial_balance.after_tax,
                match is.initial_balance.after_tax_cost_basis {
                    Option::Some(b) => b as int,
                    Option::None => 0,
                },
            ),
            expense_ratio: is.expense_ratio,
            inflation: crate::money::RATE_SCALE,
            income: crate::instance::zero_income(),
        }
    }

    /// Run the whole phase schedule, one simulated year at a time: each
    /// phase in order, each of its years one `next` call, so the final
    /// ensemble is reachable from the starting one by the year-by-year
    /// transition chain (`runs_schedule`).
    pub fn run(&mut self)
        requires
            old(self).wf(),
            old(self).year + years_from(old(self).phases@, 0) <= 1_000_000_000,
        ensures
            final(self).wf(),
            final(self).year == old(self).year + years_from(old(self).phases@, 0),
            final(self).phases == old(self).phases,
            final(self).history == old(self).history,
            final(self).instances == old(self).instances || sorted_by_key(final(self).instances@),
            runs_schedule(*old(self), *final(self)),
    {
        proof {
            lemma_years_from_nonneg(old(self).phases@, 0);
        }
        let ghost mut chain: Seq<Scenario> = seq![*old(self)];
        let n = self.phases.len();
        let mut i: usize = 0;
        while i < n
            invariant
                self.wf(),
                n == self.phases@.len(),
                i <= n,
                self.phases == old(self).phases,
                self.history == old(self).history,
                self.year == old(self).year + years_from(old(self).phases@, 0) - years_from(
                    old(self).phases@,
                    i as int,
                ),
                old(self).year + years_from(old(self).phases@, 0) <= 1_000_000_000,
                self.instances == old(self).instances || sorted_by_key(self.instances@),
                chain.len() == 1 + years_from(old(self).phases@, 0) - years_from(
                    old(self).phases@,
                    i as int,
                ),
                chain[0] == *old(self),
                chain[chain.len() - 1] == *self,
                forall|t: int|
                    0 <= t < chain.len() - 1 ==> advances_one_year(
                        #[trigger] chain[t],
                        chain[t + 1],
                        phase_at(old(self).phases@, 0, t),
                    ),
            decreases n - i,
        {
            proof {
                lemma_years_from_nonneg(old(self).phases@, i as int);
                lemma_years_from_nonneg(old(self).phases@, i + 1);
            }
            let years = self.phases[i].years;
            let mut k: usize = 0;
            while k < years
                invariant
                    self.wf(),
                    n == self.phases@.len(),
                    i < n,
                    k <= years,
                    years == self.phases@[i as int].years,
                    self.phases == old(self).phases,
                    self.history == old(self).history,
                    self.year == old(self).year + years_from(old(self).phases@, 0) - years_from(
                        old(self).phases@,
                        i as int,
                    ) + k,
                    old(self).year + years_from(old(self).phases@, 0) <= 1_000_000_000,
                    self.instances == old(self).instances || sorted_by_key(self.instances@),
                    chain.len() == 1 + years_from(old(self).phases@, 0) - years_from(
                        old(self).phases@,
                        i as int,
                    ) + k,
                    chain[0] == *old(self),
                    chain[chain.len() - 1] == *self,
                    forall|t: int|
                        0 <= t < chain.len() - 1 ==> advances_one_year(
                            #[trigger] chain[t],
                            chain[t + 1],
                            phase_at(old(self).phases@, 0, t),
                        ),
                decreases years - k,
            {
                proof {
                    lemma_years_from_nonneg(old(self).phases@, i as int);
                    lemma_years_from_nonneg(old(self).phases@, i + 1);
                }
                let ghost prev = *self;
                self.next(i);
                proof {
                    let ghost t = chain.len() - 1;
                    lemma_phase_at_locates(old(self).phases@, 0, i as int, k as int);
                    lemma_years_from_monotone(old(self).phases@, 0, i as int);
                    chain = chain.push(*self);
                    assert(chain[t] == prev && chain[t + 1] == *self);
                    assert(phase_at(old(self).phases@, 0, t) == i as int);
                    assert forall|t2: int| 0 <= t2 < chain.len() - 1 implies advances_one_year(
                        #[trigger] chain[t2],
                        chain[t2 + 1],
                        phase_at(old(self).phases@, 0, t2),
                    ) by {
                        if t2 == t {
                            assert(advances_one_year(prev, *self, i as int));
                        }
                    }
                }
                k = k + 1;
            }
            i = i + 1;
        }
        proof {
            lemma_runs_schedule_intro(*old(self), *self, chain);
        }
    }

    /// Advance the ensemble one simulated year under phase `i`: drop the
    /// cohorts whose historical window would run past the end of the
    /// dataset, advance every survivor with its own historical record,
    /// bump the year, and re-rank by inflation-adjusted value.
    #[verifier::rlimit(100)]
    #[verifier::spinoff_prover]
    pub fn next(&mut self, i: usize) -> (n: usize)
        requires
            old(self).wf(),
            i < old(self).phases@.len(),
            old(self).year < 1_000_000_000,
        ensures
            advances_one_year(*old(self), *final(self), i as int),
            n == final(self).instances@.len(),
    {
        let y = self.year;
        let l = self.history.len();
        let ghost orig = self.instances@;
        // Drop the cohorts that have aged out.
        let mut kept: Vec<(usize, Instance)> = Vec::new();
        let mut j: usize = 0;
        while j < self.instances.len()
            invariant
                self.wf(),
                j <= self.instances@.len(),
                orig == self.instances@,
                l == self.history@.len(),
                y == self.year,
                forall|m: int| 0 <= m < kept@.len() ==> (#[trigger] kept@[m]).0 + y < l,
                forall|m: int| 0 <= m < kept@.len() ==> (#[trigger] kept@[m]).1.wf(),
                forall|m: int|
                    0 <= m < kept@.len() ==> (#[trigger] kept@[m]).0 == kept@[m].1.start,
                forall|m: int| 0 <= m < kept@.len() ==> orig.contains(#[trigger] kept@[m]),
                forall|m1: int, m2: int|
                    0 <= m1 < m2 < kept@.len() ==> (#[trigger] kept@[m1]).0 != (
                    #[trigger] kept@[m2]).0,
                forall|st: int|
                    #![trigger seq_has_start(kept@, st)]
                    seq_has_start(kept@, st) <==> has_surviving_start(
                        orig,
                        j as int,
                        y as int,
                        l as int,
                        st,
                    ),
            decreases self.instances@.len() - j,
        {
            let ghost kprev = kept@;
            let pair = self.instances[j];
            let fits = pair.0 < l && l - pair.0 > y;
            if fits {
                kept.push(pair);
            }
            j = j + 1;
            proof {
                assert(orig.contains(pair)) by {
                    assert(orig[j - 1] == pair);
                }
                assert forall|m1: int, m2: int| 0 <= m1 < m2 < kept@.len() implies (
                #[trigger] kept@[m1]).0 != (#[trigger] kept@[m2]).0 by {
                    if m2 >= kprev.len() {
                        // The new pair is the original's `j - 1`-th cohort;
                        // an equal start already kept would trace to an
                        // earlier original index, against distinctness.
                        assert(kept@[m2] == pair);
                        if kprev[m1].0 == pair.0 {
                            assert(seq_has_start(kprev, pair.0 as int));
                            assert(has_surviving_start(
                                orig,
                                j - 1,
                                y as int,
                                l as int,
                                pair.0 as int,
                            ));
                            let m3 = choose|m3: int|
                                0 <= m3 < j - 1 && (#[trigger] orig[m3]).0 == pair.0 as int && pair.0
                                    + y < l;
                            assert(orig[m3].0 == orig[j - 1].0);
                            assert(false);
                        }
                    }
                }
                assert forall|st: int|
                    #![trigger seq_has_start(kept@, st)]
                    seq_has_start(kept@, st) <==> has_surviving_start(
                        orig,
                        j as int,
                        y as int,
                        l as int,
                        st,
                    ) by {
                    assert(seq_has_start(kprev, st) <==> has_surviving_start(
                        orig,
                        j - 1,
                        y as int,
                        l as int,
                        st,
                    ));
                    if seq_has_start(kept@, st) {
                        let m1 = choose|m1: int|
                            0 <= m1 < kept@.len() && (#[trigger] kept@[m1]).0 == st;
                        if m1 < kprev.len() {
                            assert(kprev[m1].0 == st);
                            assert(seq_has_start(kprev, st));
                            let m2 = choose|m2: int|
                                0 <= m2 < j - 1 && (#[trigger] orig[m2]).0 == st && st + y < l;
                            assert(has_surviving_start(orig, j as int, y as int, l as int, st));
                        } else {
                            assert(kept@[m1] == pair);
                            assert(orig[j - 1].0 == st && st + y < l);
                            assert(has_surviving_start(orig, j as int, y as int, l as int, st));
                        }
                    }
                    if has_surviving_start(orig, j as int, y as int, l as int, st) {
                        let m2 = choose|m2: int|
                            0 <= m2 < j && (#[trigger] orig[m2]).0 == st && st + y < l;
                        if m2 < j - 1 {
                            assert(has_surviving_start(orig, j - 1, y as int, l as int, st));
                            assert(seq_has_start(kprev, st));
                            let m3 = choose|m3: int|
                                0 <= m3 < kprev.len() && (#[trigger] kprev[m3]).0 == st;
                            assert(kept@[m3].0 == st);
                            assert(seq_has_start(kept@, st));
                        } else {
                            assert(orig[j - 1] == pair);
                            assert(pair.0 == st && st + y < l);
                            assert(fits);
                            assert(kept@[kept@.len() - 1] == pair);
                            assert(seq_has_start(kept@, st));
                        }
                    }
                }
            }
        }
        // Advance every survivor by its own year of history.
        let ghost kept0 = kept@;
        let mut k: usize = 0;
        while k < kept.len()
            invariant
                self.wf(),
                l == self.history@.len(),
                y == self.year,
                y < 1_000_000_000,
                k <= kept@.len(),
                kept@.len() == kept0.len(),
                i < self.phases@.len(),
                orig == self.instances@,
                forall|m: int| 0 <= m < kept0.len() ==> (#[trigger] kept0[m]).0 + y < l,
                forall|m: int| 0 <= m < kept0.len() ==> (#[trigger] kept0[m]).1.wf(),
                forall|m: int|
                    0 <= m < kept0.len() ==> (#[trigger] kept0[m]).0 == kept0[m].1.start,
                forall|m: int| 0 <= m < kept0.len() ==> orig.contains(#[trigger] kept0[m]),
                forall|m: int| k <= m < kept@.len() ==> #[trigger] kept@[m] == kept0[m],
                forall|m: int|
                    0 <= m < k ==> (#[trigger] kept@[m]).0 == kept0[m].0 && advanced_under(
                        kept0[m].1,
                        kept@[m].1,
                        y as int,
                        self.phases@[i as int].config,
                        self.history@[kept0[m].0 + y],
                    ),
                forall|m: int| 0 <= m < kept@.len() ==> (#[trigger] kept@[m]).0 + y < l,
                forall|m: int| 0 <= m < kept@.len() ==> (#[trigger] kept@[m]).1.wf(),
                forall|m: int|
                    0 <= m < kept@.len() ==> (#[trigger] kept@[m]).0 == kept@[m].1.start,
                forall|m1: int, m2: int|
                    0 <= m1 < m2 < kept@.len() ==> (#[trigger] kept@[m1]).0 != (
                    #[trigger] kept@[m2]).0,
                forall|st: int|
                    #![trigger seq_has_start(kept@, st)]
                    seq_has_start(kept@, st) <==> has_surviving_start(
                        orig,
                        orig.len() as int,
                        y as int,
                        l as int,
                        st,
                    ),
            decreases kept@.len() - k,
        {
            let ghost kprev = kept@;
            let mut pair = kept[k];
            let idx = pair.0 + y;
            pair.1.next(y, &self.phases[i].config, &self.history[idx]);
            kept.set(k, pair);
            k = k + 1;
            proof {
                assert forall|m1: int, m2: int| 0 <= m1 < m2 < kept@.len() implies (
                #[trigger] kept@[m1]).0 != (#[trigger] kept@[m2]).0 by {
                    assert(kept@[m1].0 == kprev[m1].0);
                    assert(kept@[m2].0 == kprev[m2].0);
                }
                assert forall|st: int|
                    #![trigger seq_has_start(kept@, st)]
                    seq_has_start(kept@, st) <==> seq_has_start(kprev, st) by {
                    if seq_has_start(kept@, st) {
                        let m1 = choose|m1: int|
                            0 <= m1 < kept@.len() && (#[trigger] kept@[m1]).0 == st;
                        assert(kprev[m1].0 == st);
                        assert(seq_has_start(kprev, st));
                    }
                    if seq_has_start(kprev, st) {
                        let m1 = choose|m1: int|
                            0 <= m1 < kprev.len() && (#[trigger] kprev[m1]).0 == st;
                        assert(kept@[m1].0 == st);
                        assert(seq_has_start(kept@, st));
                    }
                }
            }
        }
        // Re-rank by inflation-adjusted value.
        let sorted = sorted_copy(&kept);
        self.instances = sorted;
        self.year = y + 1;
        proof {
            broadcast use vstd::seq_lib::group_to_multiset_ensures;

            assert forall|s: int| self.has_start(s) <==> seq_has_start(kept@, s) by {
                if self.has_start(s) {
                    let k1 = choose|k1: int|
                        0 <= k1 < self.instances@.len() && (#[trigger] self.instances@[k1]).0 == s;
                    assert(kept@.contains(self.instances@[k1]));
                    let k2 = choose|k2: int|
                        0 <= k2 < kept@.len() && (#[trigger] kept@[k2]) == self.instances@[k1];
                    assert(seq_has_start(kept@, s));
                }
                if seq_has_start(kept@, s) {
                    let k2 = choose|k2: int| 0 <= k2 < kept@.len() && (#[trigger] kept@[k2]).0 == s;
                    assert(kept@.to_multiset().contains(kept@[k2]));
                    assert(self.instances@.contains(kept@[k2]));
                    let k1 = choose|k1: int|
                        0 <= k1 < self.instances@.len() && (#[trigger] self.instances@[k1])
                            == kept@[k2];
                    assert(self.has_start(s));
                }
            }
            assert forall|s: int| #![trigger self.has_start(s)]
                self.has_start(s) <==> (old(self).has_start(s) && s + y < l) by {
                if has_surviving_start(orig, orig.len() as int, y as int, l as int, s) {
                    let m2 = choose|m2: int|
                        0 <= m2 < orig.len() && (#[trigger] orig[m2]).0 == s && s + y < l;
                    assert(old(self).has_start(s));
                }
                if old(self).has_start(s) && s + y < l {
                    let k0 = choose|k0: int|
                        0 <= k0 < old(self).instances@.len() && (#[trigger] old(
                            self,
                        ).instances@[k0]).0 == s;
                    assert(orig[k0].0 == s && s + y < l);
                    assert(has_surviving_start(orig, orig.len() as int, y as int, l as int, s));
                }
            }
            assert forall|m: int| 0 <= m < self.instances@.len() implies {
                &&& (#[trigger] self.instances@[m]).1.wf()
                &&& self.instances@[m].0 == self.instances@[m].1.start
                &&& self.instances@[m].0 < self.history@.len()
                &&& advanced_from(
                    old(self).instances@,
                    self.instances@[m],
                    old(self).year as int,
                    old(self).phases@[i as int].config,
                    old(self).history@,
                )
            } by {
                assert(kept@.contains(self.instances@[m]));
                let km = choose|km: int|
                    0 <= km < kept@.len() && (#[trigger] kept@[km]) == self.instances@[m];
                assert(kept@[km].0 == kept0[km].0);
                assert(orig.contains(kept0[km]));
                let jj = choose|jj: int|
                    0 <= jj < orig.len() && (#[trigger] orig[jj]) == kept0[km];
                assert(old(self).instances@[jj] == orig[jj]);
                assert(old(self).instances@[jj].0 == self.instances@[m].0 && old(
                    self,
                ).instances@[jj].0 + old(self).year < old(self).history@.len() && advanced_under(
                    old(self).instances@[jj].1,
                    self.instances@[m].1,
                    old(self).year as int,
                    old(self).phases@[i as int].config,
                    old(self).history@[old(self).instances@[jj].0 + old(self).year],
                ));
            }
            assert(advances_one_year(*old(self), *self, i as int));
        }
        self.instances.len()
    }

    pub fn worst_starting_years(&self) -> (r: [i32; 3])
        requires
            self.wf(),
            3 <= self.instances@.len(),
        ensures
            r[0] == self.history@[self.instances@[0].0 as int].year,
            r[1] == self.history@[self.instances@[1].0 as int].year,
            r[2] == self.history@[self.instances@[2].0 as int].year,
    {
        [
            self.history[self.instances[0].0].year,
            self.history[self.instances[1].0].year,
            self.history[self.instances[2].0].year,
        ]
    }

    pub fn years_elapsed(&self) -> (y: usize)
        ensures
            y == self.year,
    {
        self.year
    }

    /// The cohort with the median inflation-adjusted outcome (the
    /// ensemble is kept sorted by it).
    pub fn median_instance(&self) -> (r: &Instance)
        requires
            self.wf(),
            1 <= self.instances@.len(),
        ensures
            *r == self.instances@[self.instances@.len() as int / 2].1,
    {
        proof {
            vstd::arithmetic::div_mod::lemma_div_decreases(self.instances@.len() as int, 2);
        }
        &self.instances[self.instances.len() / 2].1
    }

    /// The cohort with the worst inflation-adjusted outcome.
    pub fn worst_instance(&self) -> (r: &Instance)
        requires
            self.wf(),
            1 <= self.instances@.len(),
        ensures
            *r == self.instances@[0].1,
    {
        &self.instances[0].1
    }

    /// The total number of simulated years in the phase schedule.
    pub fn length_years(&self) -> (n: usize)
        requires
            self.wf(),
            years_from(self.phases@, 0) <= 1_000_000_000,
        ensures
            n == years_from(self.phases@, 0),
    {
        let mut sum: usize = 0;
        let mut i: usize = 0;
        let n = self.phases.len();
        while i < n
            invariant
                n == self.phases@.len(),
                i <= n,
                sum + years_from(self.phases@, i as int) == years_from(self.phases@, 0),
                years_from(self.phases@, 0) <= 1_000_000_000,
            decreases n - i,
        {
            proof {
                lemma_years_from_nonneg(self.phases@, i as int);
                lemma_years_from_nonneg(self.phases@, i + 1);
            }
            sum = sum + self.phases[i].years;
            i = i + 1;
        }
        sum
    }

    /// The fraction of surviving cohorts that still hold any value.
    pub fn success_ratio(&self) -> (r: Ratio)
        requires
            self.wf(),
            1 <= self.instances@.len() <= MONEY_CAP,
        ensures
            r == (Ratio {
                num: count_successes(self.instances@, 0) as i64,
                den: self.instances@.len() as i64,
            }),
            r.is_fraction(),
    {
        proof {
            lemma_count_successes_bounds(self.instances@, 0);
        }
        let n = self.instances.len();
        let mut cnt: i64 = 0;
        let mut i: usize = 0;
        while i < n
            invariant
                self.wf(),
                n == self.instances@.len(),
                n <= MONEY_CAP,
                i <= n,
                cnt + count_successes(self.instances@, i as int) == count_successes(
                    self.instances@,
                    0,
                ),
                0 <= cnt <= i,
            decreases n - i,
        {
            proof {
                lemma_count_successes_bounds(self.instances@, i as int);
                lemma_count_successes_bounds(self.instances@, i + 1);
            }
            let pair = self.instances[i];
            if pair.1.value() > 0 {
                cnt = cnt + 1;
            }
            i = i + 1;
        }
        Ratio { num: cnt, den: n as i64 }
    }
}

fn key_at(v: &Vec<(usize, Instance)>, j: usize) -> (k: i64)
    requires
        j < v@.len(),
        v@[j as int].1.wf(),
    ensures
        k == spec_sort_key(v@[j as int].1),
{
    let pair = v[j];
    pair.1.inflation_adjusted(pair.1.value())
}

/// A copy of `v` sorted ascending by inflation-adjusted value (stable:
/// ties keep their order).
#[verifier::rlimit(60)]
#[verifier::spinoff_prover]
fn sorted_copy(v: &Vec<(usize, Instance)>) -> (out: Vec<(usize, Instance)>)
    requires
        forall|k: int| 0 <= k < v@.len() ==> (#[trigger] v@[k]).1.wf(),
        forall|m1: int, m2: int|
            0 <= m1 < m2 < v@.len() ==> (#[trigger] v@[m1]).0 != (#[trigger] v@[m2]).0,
    ensures
        out@.to_multiset() == v@.to_multiset(),
        out@.len() == v@.len(),
        sorted_by_key(out@),
        forall|k: int| 0 <= k < out@.len() ==> (#[trigger] out@[k]).1.wf(),
        forall|k: int| 0 <= k < out@.len() ==> v@.contains(#[trigger] out@[k]),
        forall|k1: int, k2: int|
            0 <= k1 < k2 < out@.len() ==> (#[trigger] out@[k1]).0 != (#[trigger] out@[k2]).0,
{
    proof {
        broadcast use vstd::seq_lib::group_to_multiset_ensures;

    }
    let mut out: Vec<(usize, Instance)> = Vec::new();
    let n = v.len();
    let mut i: usize = 0;
    while i < n
        invariant
            n == v@.len(),
            i <= n,
            forall|k: int| 0 <= k < v@.len() ==> (#[trigger] v@[k]).1.wf(),
            out@.to_multiset() == v@.subrange(0, i as int).to_multiset(),
            out@.len() == i,
            sorted_by_key(out@),
            forall|k: int| 0 <= k < out@.len() ==> (#[trigger] out@[k]).1.wf(),
            forall|k: int| 0 <= k < out@.len() ==> v@.contains(#[trigger] out@[k]),
            forall|k: int| 0 <= k < v@.len() ==> (#[trigger] v@[k]).1.wf(),
            forall|m1: int, m2: int|
                0 <= m1 < m2 < v@.len() ==> (#[trigger] v@[m1]).0 != (#[trigger] v@[m2]).0,
            forall|k1: int, k2: int|
                0 <= k1 < k2 < out@.len() ==> (#[trigger] out@[k1]).0 != (#[trigger] out@[k2]).0,
        decreases n - i,
    {
        let ghost oprev = out@;
        let pair = v[i];
        let key = pair.1.inflation_adjusted(pair.1.value());
        let mut j: usize = 0;
        while j < out.len() && key_at(&out, j) <= key
            invariant
                j <= out@.len(),
                forall|k: int| 0 <= k < out@.len() ==> (#[trigger] out@[k]).1.wf(),
                pair.1.wf(),
                key == spec_sort_key(pair.1),
                forall|m: int| 0 <= m < j ==> spec_sort_key(#[trigger] out@[m].1) <= key,
            decreases out@.len() - j,
        {
            j = j + 1;
        }
        out.insert(j, pair);
        i = i + 1;
        proof {
            broadcast use vstd::seq_lib::group_to_multiset_ensures;

            oprev.insert_ensures(j as int, pair);
            assert(v@.subrange(0, i as int) =~= v@.subrange(0, i - 1).push(pair));
            assert(out@.to_multiset() =~= oprev.to_multiset().insert(pair)) by {
                vstd::seq_lib::to_multiset_insert(oprev, j as int, pair);
            }
            assert(v@.contains(pair)) by {
                assert(v@[i - 1] == pair);
            }
            assert forall|k: int| 0 <= k < out@.len() implies (#[trigger] out@[k]).1.wf()
                && v@.contains(out@[k]) by {
                if k < j {
                    assert(out@[k] == oprev[k]);
                } else if k == j {
                    assert(out@[k] == pair);
                } else {
                    assert(out@[k] == oprev[k - 1]);
                }
            }
            // The new pair's start is fresh: any equal start already placed
            // would trace through the prefix multiset to an earlier index
            // of `v`, against the input's distinct starts.
            assert forall|k: int| 0 <= k < oprev.len() implies (#[trigger] oprev[k]).0 != pair.0 by {
                if oprev[k].0 == pair.0 {
                    assert(oprev.to_multiset().contains(oprev[k]));
                    assert(v@.subrange(0, i - 1).contains(oprev[k]));
                    let m = choose|m: int|
                        0 <= m < i - 1 && #[trigger] v@.subrange(0, i - 1)[m] == oprev[k];
                    assert(v@[m] == oprev[k]);
                    assert(v@[m].0 == v@[i - 1].0);
                    assert(false);
                }
            }
            assert forall|k1: int, k2: int| 0 <= k1 < k2 < out@.len() implies (
            #[trigger] out@[k1]).0 != (#[trigger] out@[k2]).0 by {
                if k1 < j {
                    assert(out@[k1] == oprev[k1]);
                } else if k1 == j {
                    assert(out@[k1] == pair);
                } else {
                    assert(out@[k1] == oprev[k1 - 1]);
                }
                if k2 < j {
                    assert(out@[k2] == oprev[k2]);
                } else if k2 == j {
                    assert(out@[k2] == pair);
                } else {
                    assert(out@[k2] == oprev[k2 - 1]);
                }
            }
            assert forall|k1: int, k2: int| 0 <= k1 <= k2 < out@.len() implies spec_sort_key(
                #[trigger] out@[k1].1,
            ) <= spec_sort_key(#[trigger] out@[k2].1) by {
                if k1 < j {
                    assert(out@[k1] == oprev[k1]);
                } else if k1 == j {
                    assert(out@[k1] == pair);
                } else {
                    assert(out@[k1] == oprev[k1 - 1]);
                }
                if k2 < j {
                    assert(out@[k2] == oprev[k2]);
                } else if k2 == j {
                    assert(out@[k2] == pair);
                } else {
                    assert(out@[k2] == oprev[k2 - 1]);
                }
            }
        }
    }
    proof {
        assert(v@.subrange(0, n as int) =~= v@);
    }
    out
}

/// A cohort ages out exactly when its historical window ends: if `next`
/// advances `s0` to `s1` and then `s1` to `s2` (under any phases), a
/// cohort starting in the dataset's final year (index `len - 1`) and
/// present at year zero is still present after the first simulated year
/// and gone after the second: it simulates exactly one year.
pub proof fn lemma_final_cohort_ages_out(
    s0: Scenario,
    s1: Scenario,
    s2: Scenario,
    i0: int,
    i1: int,
)
    requires
        s0.year == 0,
        1 <= s0.history@.len(),
        s0.has_start(s0.history@.len() - 1),
        advances_one_year(s0, s1, i0),
        advances_one_year(s1, s2, i1),
    ensures
        s1.has_start(s0.history@.len() - 1),
        !s2.has_start(s0.history@.len() - 1),
{
}

} // verus!
