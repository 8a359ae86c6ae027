//! Single-check evaluation and aggregation: the composition point that
//! turns independent property checks into one all-or-nothing outcome
//! carrying every diagnostic.

use vstd::prelude::*;

verus! {

use crate::Error;
use crate::FailureView;
use crate::PropertyValidator;
use crate::ValidationFailure;
use crate::views_of;

/// Runs one property check against one value. On success nothing is
/// produced; on failure, a single [`ValidationFailure`] carrying the
/// validator's own message, labeled with the given property path.
pub fn validate<T, V: PropertyValidator<T>>(
    value: &T,
    validator: &V,
    property_path: &str,
) -> (r: Result<(), ValidationFailure>)
    requires
        validator.wf(),
    ensures
        r is Ok <==> validator.valid_spec(value),
        r matches Err(f) ==> f@ == (FailureView {
            message: validator.message_spec(),
            property_path: property_path@,
        }),
{
    if validator.is_valid(value) {
        Ok(())
    } else {
        Err(ValidationFailure::new(validator.message(), property_path.to_owned()))
    }
}

/// Runs one property check against one value, as [`validate`] does, but a
/// failure carries the caller's override message verbatim in place of the
/// validator's own.
pub fn validate_with_message<T, V: PropertyValidator<T>>(
    value: &T,
    validator: &V,
    property_path: &str,
    message: &str,
) -> (r: Result<(), ValidationFailure>)
    requires
        validator.wf(),
    ensures
        r is Ok <==> validator.valid_spec(value),
        r matches Err(f) ==> f@ == (FailureView {
            message: message@,
            property_path: property_path@,
        }),
{
    if validator.is_valid(value) {
        Ok(())
    } else {
        Err(ValidationFailure::new(message.to_owned(), property_path.to_owned()))
    }
}

/// The failures among a sequence of single-check outcomes, in order.
pub open spec fn collected_failures(
    results: Seq<Result<(), ValidationFailure>>,
) -> Seq<FailureView>
    decreases results.len(),
{
    if results.len() == 0 {
        Seq::empty()
    } else {
        collected_failures(results.drop_last()) + (match results.last() {
            Ok(_) => Seq::empty(),
            Err(f) => seq![f@],
        })
    }
}

/// Only `Ok` outcomes contribute nothing: the collected failures are empty
/// precisely when every outcome passed.
pub proof fn lemma_collected_failures_empty(results: Seq<Result<(), ValidationFailure>>)
    ensures
        collected_failures(results).len() == 0 <==> (forall|i: int|
            0 <= i < results.len() ==> results[i] is Ok),
    decreases results.len(),
{
    if results.len() > 0 {
        lemma_collected_failures_empty(results.drop_last());
        assert(forall|i: int|
            0 <= i < results.len() - 1 ==> results.drop_last()[i] == results[i]);
        assert(results.last() == results[results.len() - 1]);
    }
}

/// Aggregation never short-circuits: when the first and third of three
/// outcomes fail and the second passes, the collected failures are exactly
/// the first and third failures, in evaluation order.
pub proof fn lemma_collected_failures_no_short_circuit(
    results: Seq<Result<(), ValidationFailure>>,
    f0: ValidationFailure,
    f2: ValidationFailure,
)
    requires
        results.len() == 3,
        results[0] == Result::<(), ValidationFailure>::Err(f0),
        results[1] is Ok,
        results[2] == Result::<(), ValidationFailure>::Err(f2),
    ensures
        collected_failures(results) =~= seq![f0@, f2@],
{
    let r2 = results.drop_last();
    let r1 = r2.drop_last();
    assert(r1.drop_last() =~= Seq::empty());
    assert(r1.last() == results[0]);
    assert(r2.last() == results[1]);
    assert(results.last() == results[2]);
    assert(collected_failures(r1.drop_last()) =~= Seq::empty());
    assert(collected_failures(r1) =~= seq![f0@]);
    assert(collected_failures(r2) =~= seq![f0@]);
}

/// Aggregates a sequence of single-check outcomes. Every encountered
/// failure is appended, in order, into one list: a later failure is kept
/// even when an earlier check already failed. The result is success
/// exactly when every check passed; otherwise the error wraps every
/// collected failure and is never empty.
pub fn collect_results(results: Vec<Result<(), ValidationFailure>>) -> (r: Result<(), Error>)
    ensures
        r is Ok <==> (forall|i: int| 0 <= i < results@.len() ==> results@[i] is Ok),
        r matches Err(e) ==> e@ == collected_failures(results@) && e@.len() > 0,
        r is Ok ==> collected_failures(results@).len() == 0,
{
    let mut rest = results;
    let ghost all = rest@;
    let mut failures: Vec<ValidationFailure> = Vec::new();
    let ghost mut done: int = 0;
    while rest.len() > 0
        invariant
            0 <= done <= all.len(),
            rest@ == all.skip(done),
            views_of(failures@) == collected_failures(all.take(done)),
        decreases rest@.len(),
    {
        let head = rest.remove(0);
        proof {
            assert(head == all[done]);
            assert(all.take(done + 1).drop_last() =~= all.take(done));
            assert(all.take(done + 1).last() == all[done]);
        }
        match head {
            Ok(_) => {},
            Err(f) => {
                failures.push(f);
            },
        }
        proof {
            done = done + 1;
            assert(rest@ =~= all.skip(done));
            assert(views_of(failures@) =~= collected_failures(all.take(done)));
        }
    }
    proof {
        assert(all.take(done) =~= all);
        lemma_collected_failures_empty(all);
    }
    if failures.len() == 0 {
        Ok(())
    } else {
        Err(Error::new(failures))
    }
}

} // verus!
