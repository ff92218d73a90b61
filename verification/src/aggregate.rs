//! Fanning a commit out into one comparison per tracked branch, and folding the
//! outcomes of the comparisons into one status vector.

use vstd::prelude::*;
use crate::error::UpstreamError;
use crate::outcome::{ComparisonOutcome, Report};
use crate::registry::Registry;
use crate::upstream::{
    compare_address,
    compare_request,
    request_to,
    request_view,
    uri_accepts,
    UpstreamRequest,
};

verus! {

/// Report `i` is the outcome for the branch at `position`.
pub open spec fn reports_on(reports: Seq<Report>, i: int, position: int) -> bool {
    0 <= i < reports.len() && reports[i] is Ok && reports[i]->Ok_0.position == position
}

/// Some report is the outcome for the branch at `position`.
pub open spec fn covered(reports: Seq<Report>, position: int) -> bool {
    exists|i: int| reports_on(reports, i, position)
}

/// The reports are complete for a registry of `slots` branches: none is a
/// failure, none is for a position outside the registry, and every position of
/// the registry has exactly one.
pub open spec fn complete(slots: nat, reports: Seq<Report>) -> bool {
    &&& forall|i: int|
        0 <= i < reports.len() ==> (#[trigger] reports[i]) is Ok && reports[i]->Ok_0.position
            < slots
    &&& forall|p: int| 0 <= p < slots ==> #[trigger] covered(reports, p)
    &&& forall|i: int, j: int|
        0 <= i < j < reports.len() ==> (#[trigger] reports[i])->Ok_0.position
            != (#[trigger] reports[j])->Ok_0.position
}

/// The index of a report on the branch at `position`.
pub open spec fn report_on(reports: Seq<Report>, position: int) -> int {
    choose|i: int| reports_on(reports, i, position)
}

/// The status vector of complete reports: the byte at each position is the
/// status bit of the outcome reported for that position.
pub open spec fn status_vector(slots: nat, reports: Seq<Report>) -> Seq<u8> {
    Seq::new(slots, |p: int| reports[report_on(reports, p)]->Ok_0.outcome.bit())
}

/// What the reports aggregate to: their status vector when they are complete,
/// and otherwise no vector at all.
pub open spec fn aggregated(slots: nat, reports: Seq<Report>) -> Result<Seq<u8>, UpstreamError> {
    if complete(slots, reports) {
        Ok(status_vector(slots, reports))
    } else {
        Err(UpstreamError::Unavailable)
    }
}

/// The view of the result of an aggregation.
pub open spec fn vector_view(r: Result<Vec<u8>, UpstreamError>) -> Result<Seq<u8>, UpstreamError> {
    match r {
        Ok(v) => Ok(v@),
        Err(e) => Err(e),
    }
}

/// Makes the requests of one aggregation: for each branch of the registry, in
/// the order of the positions, the request that compares `commit` against that
/// branch, or `Unavailable` where the address of that request is no URI.
pub fn fan_out(registry: &Registry, commit: &str, api_key: &str) -> (requests: Vec<
    Result<UpstreamRequest, UpstreamError>,
>)
    ensures
        requests@.len() == registry@.len(),
        forall|p: int|
            0 <= p < requests@.len() ==> request_view(#[trigger] requests@[p]) == request_to(
                compare_address(registry@[p], commit@),
                uri_accepts(compare_address(registry@[p], commit@)),
                api_key@,
            ),
{
    let slots = registry.all_slots();
    let mut requests: Vec<Result<UpstreamRequest, UpstreamError>> = Vec::new();
    let mut p: usize = 0;
    while p < slots.len()
        invariant
            p <= slots@.len(),
            slots@.len() == registry@.len(),
            forall|q: int| 0 <= q < slots@.len() ==> (#[trigger] slots@[q]).name@ == registry@[q],
            requests@.len() == p,
            forall|q: int|
                0 <= q < p ==> request_view(#[trigger] requests@[q]) == request_to(
                    compare_address(registry@[q], commit@),
                    uri_accepts(compare_address(registry@[q], commit@)),
                    api_key@,
                ),
        decreases slots@.len() - p,
    {
        requests.push(compare_request(&slots[p], commit, api_key));
        p = p + 1;
    }
    requests
}

/// Folds the reports of the comparisons, in whatever order they arrived, into
/// the status vector of the registry.
///
/// The result is all or nothing: a vector with one byte per tracked branch when
/// the reports are complete, and `Unavailable` when any comparison failed, or
/// a branch has no report, or more than one, or a report is for no branch of
/// the registry.
pub fn aggregate(registry: &Registry, reports: &Vec<Report>) -> (r: Result<Vec<u8>, UpstreamError>)
    ensures
        vector_view(r) == aggregated(registry@.len(), reports@),
{
    let n = registry.len();
    let mut bits: Vec<u8> = Vec::new();
    let mut seen: Vec<bool> = Vec::new();
    let mut p: usize = 0;
    while p < n
        invariant
            p <= n,
            bits@.len() == p,
            seen@.len() == p,
            forall|q: int| 0 <= q < p ==> !(#[trigger] seen@[q]),
        decreases n - p,
    {
        bits.push(0);
        seen.push(false);
        p = p + 1;
    }
    let mut i: usize = 0;
    while i < reports.len()
        invariant
            i <= reports@.len(),
            n == registry@.len(),
            bits@.len() == n,
            seen@.len() == n,
            forall|k: int|
                0 <= k < i ==> (#[trigger] reports@[k]) is Ok && reports@[k]->Ok_0.position < n,
            forall|k: int, l: int|
                0 <= k < l < i ==> (#[trigger] reports@[k])->Ok_0.position != (
                #[trigger] reports@[l])->Ok_0.position,
            forall|q: int|
                0 <= q < n ==> (#[trigger] seen@[q]) == covered(reports@.take(i as int), q),
            forall|k: int|
                0 <= k < i ==> bits@[(#[trigger] reports@[k])->Ok_0.position as int]
                    == reports@[k]->Ok_0.outcome.bit(),
        decreases reports@.len() - i,
    {
        let ghost earlier = reports@.take(i as int);
        let ghost longer = reports@.take(i + 1);
        match reports[i] {
            Ok(comparison) => {
                if comparison.position >= n {
                    return Err(UpstreamError::Unavailable);
                }
                if seen[comparison.position] {
                    proof {
                        let k = choose|k: int| reports_on(earlier, k, comparison.position as int);
                        assert(reports@[k]->Ok_0.position == reports@[i as int]->Ok_0.position);
                    }
                    return Err(UpstreamError::Unavailable);
                }
                assert forall|k: int| 0 <= k < i implies (#[trigger] reports@[k])->Ok_0.position
                    != comparison.position by {
                    assert(reports_on(earlier, k, reports@[k]->Ok_0.position as int));
                }
                seen.set(comparison.position, true);
                bits.set(comparison.position, comparison.outcome.to_bit());
                proof {
                    assert forall|q: int| 0 <= q < n implies (#[trigger] seen@[q]) == covered(
                        longer,
                        q,
                    ) by {
                        if q == comparison.position {
                            assert(reports_on(longer, i as int, q));
                        } else {
                            if covered(earlier, q) {
                                let k = choose|k: int| reports_on(earlier, k, q);
                                assert(reports_on(longer, k, q));
                            }
                            if covered(longer, q) {
                                let k = choose|k: int| reports_on(longer, k, q);
                                assert(reports_on(earlier, k, q));
                            }
                        }
                    }
                }
            },
            Err(_) => {
                return Err(UpstreamError::Unavailable);
            },
        }
        i = i + 1;
    }
    assert(reports@.take(i as int) =~= reports@);
    let mut q: usize = 0;
    while q < n
        invariant
            q <= n,
            n == registry@.len(),
            seen@.len() == n,
            forall|t: int| 0 <= t < n ==> (#[trigger] seen@[t]) == covered(reports@, t),
            forall|t: int| 0 <= t < q ==> #[trigger] seen@[t],
        decreases n - q,
    {
        if !seen[q] {
            return Err(UpstreamError::Unavailable);
        }
        q = q + 1;
    }
    proof {
        assert forall|t: int| 0 <= t < n implies #[trigger] covered(reports@, t) by {
            assert(seen@[t]);
        }
        assert(complete(n as nat, reports@));
        assert forall|t: int| 0 <= t < n implies bits@[t] == status_vector(
            n as nat,
            reports@,
        )[t] by {
            assert(covered(reports@, t));
            assert(reports_on(reports@, report_on(reports@, t), t));
        }
        assert(bits@ =~= status_vector(n as nat, reports@));
    }
    Ok(bits)
}

/// What a status vector says: it has one byte for each branch of the registry,
/// and the byte at the position of a report is 1 if the reported outcome is
/// `Behind` or `Identical`, and 0 if it is `Diverged` or `Ahead`.
pub proof fn lemma_status_vector(slots: nat, reports: Seq<Report>)
    requires
        complete(slots, reports),
    ensures
        status_vector(slots, reports).len() == slots,
        forall|i: int|
            0 <= i < reports.len() ==> status_vector(slots, reports)[(
            #[trigger] reports[i])->Ok_0.position as int] == (if reports[i]->Ok_0.outcome
                == ComparisonOutcome::Behind || reports[i]->Ok_0.outcome
                == ComparisonOutcome::Identical {
                1u8
            } else {
                0u8
            }),
{
    assert forall|i: int| 0 <= i < reports.len() implies status_vector(slots, reports)[(
    #[trigger] reports[i])->Ok_0.position as int] == reports[i]->Ok_0.outcome.bit() by {
        let p = reports[i]->Ok_0.position as int;
        assert(reports_on(reports, i, p));
        lemma_one_report_each(slots, reports, i, report_on(reports, p));
    }
}

/// Among complete reports, two reports on the same position are one report.
proof fn lemma_one_report_each(slots: nat, reports: Seq<Report>, i: int, j: int)
    requires
        complete(slots, reports),
        0 <= i < reports.len(),
        0 <= j < reports.len(),
        reports[i]->Ok_0.position == reports[j]->Ok_0.position,
    ensures
        i == j,
{
    if i != j {
        let (low, high) = if i < j {
            (i, j)
        } else {
            (j, i)
        };
        assert(reports[low]->Ok_0.position != reports[high]->Ok_0.position);
    }
}

/// Complete reports stay complete, with the same status vector, in any other order.
proof fn lemma_complete_in_any_order(slots: nat, first: Seq<Report>, second: Seq<Report>)
    requires
        first.to_multiset() == second.to_multiset(),
        complete(slots, first),
    ensures
        complete(slots, second),
        status_vector(slots, first) == status_vector(slots, second),
{
    assert forall|x: Report| first.contains(x) <==> second.contains(x) by {
        vstd::seq_lib::to_multiset_contains(first, x);
        vstd::seq_lib::to_multiset_contains(second, x);
    }
    assert forall|j: int| 0 <= j < second.len() implies (#[trigger] second[j]) is Ok
        && second[j]->Ok_0.position < slots by {
        assert(first.contains(second[j]));
    }
    assert forall|p: int| 0 <= p < slots implies #[trigger] covered(second, p) by {
        assert(covered(first, p));
        let i = choose|i: int| reports_on(first, i, p);
        assert(second.contains(first[i]));
        let j = choose|j: int| 0 <= j < second.len() && second[j] == first[i];
        assert(reports_on(second, j, p));
    }
    assert(first.no_duplicates()) by {
        assert forall|i: int, j: int|
            0 <= i < first.len() && 0 <= j < first.len() && i != j implies first[i]
            != first[j] by {
            if first[i] == first[j] {
                lemma_one_report_each(slots, first, i, j);
            }
        }
    }
    first.lemma_multiset_has_no_duplicates();
    second.lemma_multiset_has_no_duplicates_conv();
    assert forall|i: int, j: int| 0 <= i < j < second.len() implies (#[trigger] second[i])->Ok_0.position
        != (#[trigger] second[j])->Ok_0.position by {
        assert(second.contains(second[i]));
        assert(second.contains(second[j]));
        let a = choose|a: int| 0 <= a < first.len() && first[a] == second[i];
        let b = choose|b: int| 0 <= b < first.len() && first[b] == second[j];
        if second[i]->Ok_0.position == second[j]->Ok_0.position {
            lemma_one_report_each(slots, first, a, b);
        }
    }
    assert forall|p: int| 0 <= p < slots implies status_vector(slots, first)[p] == status_vector(
        slots,
        second,
    )[p] by {
        assert(covered(first, p));
        assert(covered(second, p));
        let a = report_on(first, p);
        let b = report_on(second, p);
        assert(second.contains(second[b]));
        let c = choose|c: int| 0 <= c < first.len() && first[c] == second[b];
        lemma_one_report_each(slots, first, a, c);
    }
    assert(status_vector(slots, first) =~= status_vector(slots, second));
}

/// The order in which the comparisons finish does not show in the result:
/// reports that hold the same items, each as often, aggregate to the same
/// status vector, or fail alike, whatever their order.
pub proof fn lemma_order_independent(slots: nat, first: Seq<Report>, second: Seq<Report>)
    requires
        first.to_multiset() == second.to_multiset(),
    ensures
        aggregated(slots, first) == aggregated(slots, second),
{
    if complete(slots, first) {
        lemma_complete_in_any_order(slots, first, second);
    } else if complete(slots, second) {
        lemma_complete_in_any_order(slots, second, first);
    }
}

} // verus!
