use crate::error::{CycleError, UpdateFailure};
use vstd::prelude::*;

verus! {

/// The identifier chosen from a provider listing for `name`: the first
/// entry; no entry means the name does not exist; a failed listing is a
/// provider failure.
pub open spec fn pick_spec(name: String, listed: Result<Vec<String>, String>) -> Result<
    String,
    CycleError,
> {
    match listed {
        Err(m) => Err(CycleError::Transient(m)),
        Ok(ids) => if ids@.len() == 0 {
            Err(CycleError::NotFound(name))
        } else {
            Ok(ids@[0])
        },
    }
}

/// Chooses the identifier for `name` from the identifiers that the provider
/// listed under that name.
pub fn pick_identifier(name: &String, listed: &Result<Vec<String>, String>) -> (r: Result<
    String,
    CycleError,
>)
    ensures
        r == pick_spec(*name, *listed),
{
    match listed {
        Err(m) => Err(CycleError::Transient(m.clone())),
        Ok(ids) => {
            if ids.len() == 0 {
                Err(CycleError::NotFound(name.clone()))
            } else {
                Ok(ids[0].clone())
            }
        },
    }
}

/// How many of the first `i` cache answers were misses.
pub open spec fn misses_before(cached: Seq<Option<String>>, i: int) -> nat
    decreases i,
{
    if i <= 0 {
        0
    } else {
        misses_before(cached, i - 1) + if cached[i - 1] is None {
            1nat
        } else {
            0nat
        }
    }
}

/// Fewer misses lie before an earlier position.
pub proof fn lemma_misses_monotone(cached: Seq<Option<String>>, i: int, j: int)
    requires
        0 <= i <= j,
    ensures
        misses_before(cached, i) <= misses_before(cached, j),
    decreases j - i,
{
    if i < j {
        lemma_misses_monotone(cached, i, j - 1);
    }
}

/// The names whose cache answer was a miss, in their order: the names to
/// look up at the provider.
pub fn missed_names(names: &Vec<String>, cached: &Vec<Option<String>>) -> (r: Vec<String>)
    requires
        names@.len() == cached@.len(),
    ensures
        r@.len() == misses_before(cached@, cached@.len() as int),
        forall|i: int|
            0 <= i < names@.len() && (#[trigger] cached@[i]) is None ==> r@[misses_before(
                cached@,
                i,
            ) as int] == names@[i],
{
    let mut r: Vec<String> = Vec::new();
    let mut i: usize = 0;
    while i < names.len()
        invariant
            names@.len() == cached@.len(),
            i <= names@.len(),
            r@.len() == misses_before(cached@, i as int),
            forall|k: int|
                0 <= k < i && (#[trigger] cached@[k]) is None ==> r@[misses_before(
                    cached@,
                    k,
                ) as int] == names@[k],
        decreases names@.len() - i,
    {
        if cached[i].is_none() {
            r.push(names[i].clone());
        }
        proof {
            assert forall|k: int|
                0 <= k < i + 1 && (#[trigger] cached@[k]) is None implies r@[misses_before(
                    cached@,
                    k,
                ) as int] == names@[k] by {
                lemma_misses_monotone(cached@, k, i as int);
                if k < i {
                    lemma_misses_monotone(cached@, k + 1, i as int);
                }
            }
        }
        i = i + 1;
    }
    r
}

/// The outcome of resolving the `i`-th record name: the cached identifier
/// on a hit, else the choice from the provider's listing for that name
/// (listings come in the order of the missed names).
pub open spec fn outcome_spec(
    names: Seq<String>,
    cached: Seq<Option<String>>,
    listed: Seq<Result<Vec<String>, String>>,
    i: int,
) -> Result<String, CycleError> {
    match cached[i] {
        Some(id) => Ok(id),
        None => pick_spec(names[i], listed[misses_before(cached, i) as int]),
    }
}

/// Resolves every record name, from the cache answers and the provider
/// listings of the missed names.
pub fn record_outcomes(
    names: &Vec<String>,
    cached: &Vec<Option<String>>,
    listed: Vec<Result<Vec<String>, String>>,
) -> (r: Vec<Result<String, CycleError>>)
    requires
        names@.len() == cached@.len(),
        listed@.len() == misses_before(cached@, cached@.len() as int),
    ensures
        r@.len() == names@.len(),
        forall|i: int|
            0 <= i < names@.len() ==> #[trigger] r@[i] == outcome_spec(
                names@,
                cached@,
                listed@,
                i,
            ),
{
    let mut r: Vec<Result<String, CycleError>> = Vec::new();
    let mut i: usize = 0;
    let mut j: usize = 0;
    let n_listed = listed.len();
    while i < names.len()
        invariant
            n_listed == listed@.len(),
            names@.len() == cached@.len(),
            listed@.len() == misses_before(cached@, cached@.len() as int),
            i <= names@.len(),
            j == misses_before(cached@, i as int),
            r@.len() == i,
            forall|k: int|
                0 <= k < i ==> #[trigger] r@[k] == outcome_spec(names@, cached@, listed@, k),
        decreases names@.len() - i,
    {
        proof {
            lemma_misses_monotone(cached@, i as int + 1, cached@.len() as int);
        }
        match &cached[i] {
            Some(id) => {
                r.push(Ok(id.clone()));
            },
            None => {
                assert(misses_before(cached@, i as int + 1) == j + 1);
                let one = pick_identifier(&names[i], &listed[j]);
                r.push(one);
                j = j + 1;
            },
        }
        i = i + 1;
    }
    r
}

} // verus!

verus! {

/// The first failure among the outcomes from position `i` on, if any.
pub open spec fn first_error_from(rs: Seq<Result<String, CycleError>>, i: int) -> Option<
    CycleError,
>
    decreases rs.len() - i,
{
    if i < 0 || i >= rs.len() {
        None
    } else {
        match rs[i] {
            Err(e) => Some(e),
            Ok(_) => first_error_from(rs, i + 1),
        }
    }
}

/// Joins the per-name outcomes: every identifier paired with its name, in
/// the order of the names, when all of them resolved; otherwise the first
/// failure in that order. All outcomes are in hand before this is called,
/// so no resolution is left running when a failure is reported.
pub fn gather_records(names: &Vec<String>, outcomes: Vec<Result<String, CycleError>>) -> (r:
    Result<Vec<(String, String)>, CycleError>)
    requires
        names@.len() == outcomes@.len(),
    ensures
        r is Err ==> first_error_from(outcomes@, 0) == Some(r->Err_0),
        r is Ok ==> first_error_from(outcomes@, 0) is None,
        r matches Ok(v) ==> v@.len() == names@.len() && forall|i: int|
            0 <= i < v@.len() ==> #[trigger] v@[i] == (outcomes@[i]->Ok_0, names@[i]),
{
    let mut v: Vec<(String, String)> = Vec::new();
    let mut i: usize = 0;
    while i < outcomes.len()
        invariant
            names@.len() == outcomes@.len(),
            i <= outcomes@.len(),
            first_error_from(outcomes@, 0) == first_error_from(outcomes@, i as int),
            v@.len() == i,
            forall|k: int| 0 <= k < i ==> #[trigger] v@[k] == (outcomes@[k]->Ok_0, names@[k]),
        decreases outcomes@.len() - i,
    {
        if outcomes[i].is_err() {
            return Err(take_error(outcomes, i));
        }
        if let Ok(id) = &outcomes[i] {
            v.push((id.clone(), names[i].clone()));
        }
        i = i + 1;
    }
    Ok(v)
}

/// The failure at position `i`, taken out of the outcomes.
fn take_error(outcomes: Vec<Result<String, CycleError>>, i: usize) -> (e: CycleError)
    requires
        i < outcomes@.len(),
        outcomes@[i as int] is Err,
    ensures
        e == outcomes@[i as int]->Err_0,
{
    let mut rest = outcomes;
    match rest.swap_remove(i) {
        Err(e) => e,
        Ok(_) => {
            proof {
                assert(false);
            }
            CycleError::NoPublicIp
        },
    }
}

/// The failed updates among the first `i` records, in record order.
pub open spec fn failures_upto(
    records: Seq<(String, String)>,
    results: Seq<Result<(), String>>,
    i: int,
) -> Seq<UpdateFailure>
    decreases i,
{
    if i <= 0 {
        Seq::empty()
    } else {
        let before = failures_upto(records, results, i - 1);
        match results[i - 1] {
            Err(m) => before.push(UpdateFailure { record: records[i - 1].1, message: m }),
            Ok(_) => before,
        }
    }
}

/// A failure is listed exactly when one of the updates failed.
pub proof fn lemma_failures_empty(
    records: Seq<(String, String)>,
    results: Seq<Result<(), String>>,
    i: int,
)
    requires
        0 <= i <= results.len(),
    ensures
        failures_upto(records, results, i).len() == 0 <==> forall|k: int|
            0 <= k < i ==> (#[trigger] results[k]) is Ok,
    decreases i,
{
    if i > 0 {
        lemma_failures_empty(records, results, i - 1);
    }
}

/// Judges a batch of record updates, one result per record in the same
/// order. Every update has been attempted whatever its siblings did: the
/// batch succeeds with the number of records only when each one succeeded,
/// and otherwise fails with every failure, in record order.
pub fn judge_updates(records: &Vec<(String, String)>, results: Vec<Result<(), String>>) -> (r:
    Result<usize, CycleError>)
    requires
        records@.len() == results@.len(),
    ensures
        failures_upto(records@, results@, results@.len() as int).len() == 0 ==> r == Ok::<
            usize,
            CycleError,
        >(records@.len() as usize),
        failures_upto(records@, results@, results@.len() as int).len() > 0 ==> (r matches Err(
            CycleError::Aggregate(f),
        ) && f@ == failures_upto(records@, results@, results@.len() as int)),
{
    let mut failures: Vec<UpdateFailure> = Vec::new();
    let mut i: usize = 0;
    while i < results.len()
        invariant
            records@.len() == results@.len(),
            i <= results@.len(),
            failures@ == failures_upto(records@, results@, i as int),
        decreases results@.len() - i,
    {
        if let Err(m) = &results[i] {
            failures.push(UpdateFailure { record: records[i].1.clone(), message: m.clone() });
        }
        i = i + 1;
    }
    if failures.len() == 0 {
        Ok(records.len())
    } else {
        Err(CycleError::Aggregate(failures))
    }
}

} // verus!

verus! {

/// Every failed update among the first `i` is listed, with its record's
/// name and its message.
pub proof fn lemma_failures_listed(
    records: Seq<(String, String)>,
    results: Seq<Result<(), String>>,
    i: int,
)
    requires
        0 <= i <= results.len(),
        records.len() == results.len(),
    ensures
        forall|k: int|
            0 <= k < i && (#[trigger] results[k]) is Err ==> exists|p: int|
                0 <= p < failures_upto(records, results, i).len() && failures_upto(
                    records,
                    results,
                    i,
                )[p] == (UpdateFailure { record: records[k].1, message: results[k]->Err_0 }),
    decreases i,
{
    if i > 0 {
        lemma_failures_listed(records, results, i - 1);
        let before = failures_upto(records, results, i - 1);
        let now = failures_upto(records, results, i);
        assert forall|k: int|
            0 <= k < i && (#[trigger] results[k]) is Err implies exists|p: int|
                0 <= p < now.len() && now[p] == (UpdateFailure {
                    record: records[k].1,
                    message: results[k]->Err_0,
                }) by {
            if k < i - 1 {
                let p = choose|p: int|
                    0 <= p < before.len() && before[p] == (UpdateFailure {
                        record: records[k].1,
                        message: results[k]->Err_0,
                    });
                assert(now[p] == before[p]);
            } else {
                assert(now[before.len() as int] == (UpdateFailure {
                    record: records[k].1,
                    message: results[k]->Err_0,
                }));
            }
        }
    }
}

} // verus!
