//! How one optional filter shows in a search: setting it adds its clause, in
//! its place, and leaves every other clause as it was.

use vstd::prelude::*;
use crate::api::sequence_search::{OptionalFilter, SequenceSearch, opt_clause};
use crate::util::document::BsonModel;

verus! {

/// The place of a filter in the order of clauses.
pub open spec fn filter_index(f: OptionalFilter) -> int {
    match f {
        OptionalFilter::BaseIndicator => 0,
        OptionalFilter::Id => 1,
        OptionalFilter::StartDate => 2,
        OptionalFilter::EndDate => 3,
        OptionalFilter::DurationDay => 4,
        OptionalFilter::NumLegs => 5,
        OptionalFilter::Odan => 6,
        OptionalFilter::RedEye => 7,
        OptionalFilter::Training => 8,
        OptionalFilter::Satellite => 9,
        OptionalFilter::ObservationTrip => 10,
    }
}

/// The filter at a place in the order of clauses.
pub open spec fn filter_at(i: int) -> OptionalFilter {
    if i == 0 {
        OptionalFilter::BaseIndicator
    } else if i == 1 {
        OptionalFilter::Id
    } else if i == 2 {
        OptionalFilter::StartDate
    } else if i == 3 {
        OptionalFilter::EndDate
    } else if i == 4 {
        OptionalFilter::DurationDay
    } else if i == 5 {
        OptionalFilter::NumLegs
    } else if i == 6 {
        OptionalFilter::Odan
    } else if i == 7 {
        OptionalFilter::RedEye
    } else if i == 8 {
        OptionalFilter::Training
    } else if i == 9 {
        OptionalFilter::Satellite
    } else {
        OptionalFilter::ObservationTrip
    }
}

/// Whether a search gives the filter: its value, or for a date or count at
/// least one bound.
pub open spec fn filter_given(s: SequenceSearch, f: OptionalFilter) -> bool {
    match f {
        OptionalFilter::BaseIndicator => s.base_indicator is Some,
        OptionalFilter::Id => s._id is Some,
        OptionalFilter::StartDate => s.start_date_start is Some || s.start_date_end is Some,
        OptionalFilter::EndDate => s.end_date_start is Some || s.end_date_end is Some,
        OptionalFilter::DurationDay => s.duration_day_min is Some || s.duration_day_max is Some,
        OptionalFilter::NumLegs => s.num_legs_min is Some || s.num_legs_max is Some,
        OptionalFilter::Odan => s.odan is Some,
        OptionalFilter::RedEye => s.red_eye is Some,
        OptionalFilter::Training => s.training is Some,
        OptionalFilter::Satellite => s.satellite is Some,
        OptionalFilter::ObservationTrip => s.observation_trip is Some,
    }
}

/// Two searches give the same parameters for a filter.
pub open spec fn same_filter(s1: SequenceSearch, s2: SequenceSearch, f: OptionalFilter) -> bool {
    match f {
        OptionalFilter::BaseIndicator => s1.base_indicator == s2.base_indicator,
        OptionalFilter::Id => s1._id == s2._id,
        OptionalFilter::StartDate => s1.start_date_start == s2.start_date_start
            && s1.start_date_end == s2.start_date_end,
        OptionalFilter::EndDate => s1.end_date_start == s2.end_date_start && s1.end_date_end
            == s2.end_date_end,
        OptionalFilter::DurationDay => s1.duration_day_min == s2.duration_day_min
            && s1.duration_day_max == s2.duration_day_max,
        OptionalFilter::NumLegs => s1.num_legs_min == s2.num_legs_min && s1.num_legs_max
            == s2.num_legs_max,
        OptionalFilter::Odan => s1.odan == s2.odan,
        OptionalFilter::RedEye => s1.red_eye == s2.red_eye,
        OptionalFilter::Training => s1.training == s2.training,
        OptionalFilter::Satellite => s1.satellite == s2.satellite,
        OptionalFilter::ObservationTrip => s1.observation_trip == s2.observation_trip,
    }
}

/// Two searches agree on every parameter but those of `f`.
pub open spec fn same_except(s1: SequenceSearch, s2: SequenceSearch, f: OptionalFilter) -> bool {
    &&& s1.airline_code == s2.airline_code
    &&& s1.contract_month == s2.contract_month
    &&& s1.seq_type == s2.seq_type
    &&& s1.base == s2.base
    &&& forall|g: OptionalFilter| g != f ==> #[trigger] same_filter(s1, s2, g)
}

/// The clauses of the optional filters, one group per filter (empty when the
/// filter is not given), in order.
pub open spec fn filter_groups(s: SequenceSearch) -> Seq<Seq<Seq<(Seq<char>, BsonModel)>>> {
    Seq::new(11, |i: int| opt_clause(s.clause_of(filter_at(i))))
}

/// `acc` followed by the first `n` groups.
pub open spec fn join_upto<T>(acc: Seq<T>, groups: Seq<Seq<T>>, n: nat) -> Seq<T>
    decreases n,
{
    if n == 0 {
        acc
    } else {
        join_upto(acc, groups, (n - 1) as nat) + groups[n - 1]
    }
}

/// The clauses that come before the place of `f`.
pub open spec fn clauses_before(s: SequenceSearch, f: OptionalFilter) -> Seq<
    Seq<(Seq<char>, BsonModel)>,
> {
    join_upto(s.required_clauses(), filter_groups(s), filter_index(f) as nat)
}

pub(crate) proof fn lemma_filter_at_index(f: OptionalFilter)
    ensures
        0 <= filter_index(f) < 11,
        filter_at(filter_index(f)) == f,
{
}

proof fn lemma_index_at(i: int)
    requires
        0 <= i < 11,
    ensures
        filter_index(filter_at(i)) == i,
{
}

pub(crate) proof fn lemma_clause_given(s: SequenceSearch, f: OptionalFilter)
    ensures
        s.clause_of(f) is Some <==> filter_given(s, f),
{
}

proof fn lemma_same_filter_same_clause(s1: SequenceSearch, s2: SequenceSearch, f: OptionalFilter)
    requires
        same_filter(s1, s2, f),
    ensures
        s1.clause_of(f) == s2.clause_of(f),
{
}

pub(crate) proof fn lemma_musts_are_joined(s: SequenceSearch)
    ensures
        s.spec_musts() == join_upto(s.required_clauses(), filter_groups(s), 11),
{
    reveal_with_fuel(join_upto, 12);
    let g = filter_groups(s);
    assert(g[0] == opt_clause(s.clause_of(OptionalFilter::BaseIndicator)));
    assert(g[1] == opt_clause(s.clause_of(OptionalFilter::Id)));
    assert(g[2] == opt_clause(s.clause_of(OptionalFilter::StartDate)));
    assert(g[3] == opt_clause(s.clause_of(OptionalFilter::EndDate)));
    assert(g[4] == opt_clause(s.clause_of(OptionalFilter::DurationDay)));
    assert(g[5] == opt_clause(s.clause_of(OptionalFilter::NumLegs)));
    assert(g[6] == opt_clause(s.clause_of(OptionalFilter::Odan)));
    assert(g[7] == opt_clause(s.clause_of(OptionalFilter::RedEye)));
    assert(g[8] == opt_clause(s.clause_of(OptionalFilter::Training)));
    assert(g[9] == opt_clause(s.clause_of(OptionalFilter::Satellite)));
    assert(g[10] == opt_clause(s.clause_of(OptionalFilter::ObservationTrip)));
}

pub(crate) proof fn lemma_join_len_grows<T>(acc: Seq<T>, groups: Seq<Seq<T>>, m: nat, n: nat)
    requires
        m <= n,
    ensures
        join_upto(acc, groups, m).len() <= join_upto(acc, groups, n).len(),
    decreases n,
{
    if m < n {
        lemma_join_len_grows(acc, groups, m, (n - 1) as nat);
    }
}

proof fn lemma_join_same<T>(acc: Seq<T>, g1: Seq<Seq<T>>, g2: Seq<Seq<T>>, n: nat)
    requires
        n <= g1.len(),
        g1.len() == g2.len(),
        forall|j: int| 0 <= j < n ==> g1[j] == g2[j],
    ensures
        join_upto(acc, g1, n) == join_upto(acc, g2, n),
    decreases n,
{
    if n > 0 {
        lemma_join_same(acc, g1, g2, (n - 1) as nat);
    }
}

/// Groups that differ only in one place, empty in the first and holding one
/// item in the second, join to sequences that differ by that item inserted.
proof fn lemma_join_insert<T>(acc: Seq<T>, g1: Seq<Seq<T>>, g2: Seq<Seq<T>>, k: int, c: T, n: nat)
    requires
        g1.len() == g2.len(),
        0 <= k < n <= g1.len(),
        g1[k] == Seq::<T>::empty(),
        g2[k] == seq![c],
        forall|j: int| 0 <= j < g1.len() && j != k ==> g1[j] == g2[j],
    ensures
        join_upto(acc, g2, n) == join_upto(acc, g1, n).insert(
            join_upto(acc, g1, k as nat).len() as int,
            c,
        ),
    decreases n,
{
    let i = join_upto(acc, g1, k as nat).len() as int;
    if n == k + 1 {
        lemma_join_same(acc, g1, g2, k as nat);
        assert(join_upto(acc, g1, n) =~= join_upto(acc, g1, k as nat));
        assert(join_upto(acc, g2, n) =~= join_upto(acc, g1, n).insert(i, c));
    } else {
        let m = (n - 1) as nat;
        lemma_join_insert(acc, g1, g2, k, c, m);
        lemma_join_len_grows(acc, g1, k as nat, m);
        let a = join_upto(acc, g1, m);
        assert(g2[n - 1] == g1[n - 1]);
        assert(a.insert(i, c) + g1[n - 1] =~= (a + g1[n - 1]).insert(i, c));
    }
}

/// Setting one optional filter that a search leaves out, and changing nothing
/// else, adds exactly that filter's clause to the search's clauses, in its
/// place after the clauses before it; every other clause stays, in order.
#[verifier::spinoff_prover]
#[verifier::rlimit(60)]
pub proof fn lemma_setting_one_filter_adds_its_clause(
    s1: SequenceSearch,
    s2: SequenceSearch,
    f: OptionalFilter,
)
    requires
        same_except(s1, s2, f),
        !filter_given(s1, f),
        filter_given(s2, f),
    ensures
        s2.clause_of(f) is Some,
        s2.spec_musts().len() == s1.spec_musts().len() + 1,
        s2.spec_musts() == s1.spec_musts().insert(
            clauses_before(s1, f).len() as int,
            s2.clause_of(f)->0,
        ),
{
    lemma_clause_given(s1, f);
    lemma_clause_given(s2, f);
    lemma_filter_at_index(f);
    let k = filter_index(f);
    let c = s2.clause_of(f)->0;
    let g1 = filter_groups(s1);
    let g2 = filter_groups(s2);
    assert forall|j: int| 0 <= j < g1.len() && j != k implies g1[j] == g2[j] by {
        lemma_index_at(j);
        assert(same_filter(s1, s2, filter_at(j)));
        lemma_same_filter_same_clause(s1, s2, filter_at(j));
    }
    assert(s1.required_clauses() == s2.required_clauses());
    lemma_join_insert(s1.required_clauses(), g1, g2, k, c, 11);
    lemma_musts_are_joined(s1);
    lemma_musts_are_joined(s2);
    lemma_join_len_grows(s1.required_clauses(), g1, k as nat, 11);
    s1.spec_musts().insert_ensures(clauses_before(s1, f).len() as int, c);
}

} // verus!
