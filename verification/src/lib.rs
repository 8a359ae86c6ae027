//! A small, generic validation framework: reusable property checks are
//! attached to values, several checks are composed into one pass over a
//! whole model, and every failing check is collected into one aggregated
//! error instead of stopping at the first problem.

use vstd::prelude::*;

mod evaluate;
pub mod validators;

pub use evaluate::collect_results;
pub use evaluate::collected_failures;
pub use evaluate::lemma_collected_failures_empty;
pub use evaluate::lemma_collected_failures_no_short_circuit;
pub use evaluate::validate;
pub use evaluate::validate_with_message;

verus! {

/// A model-level check. Implementers run one or more property checks
/// against different fields or derived values of a model and aggregate the
/// outcomes, reporting every failure at once.
pub trait Validator<T> {
    fn validate(&self, value: T) -> Result<(), Error>;
}

/// A reusable property check over one value type: a pure predicate
/// together with the explanation to attach when the predicate rejects a
/// value. The message may be computed from the validator's own
/// configuration, but never from the value being validated.
pub trait PropertyValidator<T> {
    /// When this holds, `is_valid` behaves as `valid_spec` says. It covers
    /// what is outside the framework's control: that a comparison-based
    /// validator's element type compares honestly, or that a bare
    /// predicate is total and deterministic.
    spec fn wf(&self) -> bool;

    /// The verdict `is_valid` returns.
    spec fn valid_spec(&self, value: &T) -> bool;

    /// The characters `message` returns.
    spec fn message_spec(&self) -> Seq<char>;

    /// Pure predicate: whether the value is acceptable.
    fn is_valid(&self, value: &T) -> (r: bool)
        requires
            self.wf(),
        ensures
            r == self.valid_spec(value),
    ;

    /// The failure explanation to use when `is_valid` returns false.
    fn message(&self) -> (r: String)
        ensures
            r@ == self.message_spec(),
    ;
}

/// A bare predicate qualifies as a property check when it accepts every
/// value and is deterministic: any two calls on one value return the same
/// verdict.
pub open spec fn predicate_wf<T, F: Fn(&T) -> bool>(pred: F) -> bool {
    &&& forall|v: &T| #[trigger] call_requires(pred, (v,))
    &&& forall|v: &T, b1: bool, b2: bool|
        (#[trigger] call_ensures(pred, (v,), b1)) && (#[trigger] call_ensures(
            pred,
            (v,),
            b2,
        )) ==> b1 == b2
}

/// A property check built from a bare predicate plus the message to report,
/// so ad-hoc predicates can participate without a named validator type.
/// The message is mandated at construction.
pub struct Predicate<T, F> {
    pub pred: F,
    pub message: String,
    pub marker: core::marker::PhantomData<T>,
}

impl<T, F: Fn(&T) -> bool> Predicate<T, F> {
    pub fn new(pred: F, message: String) -> (r: Predicate<T, F>)
        ensures
            r.pred == pred,
            r.message == message,
    {
        Predicate { pred, message, marker: core::marker::PhantomData }
    }
}

impl<T, F: Fn(&T) -> bool> PropertyValidator<T> for Predicate<T, F> {
    open spec fn wf(&self) -> bool {
        predicate_wf(self.pred)
    }

    /// The verdict is exactly the predicate's own: the value is accepted
    /// when the predicate returns true on it.
    open spec fn valid_spec(&self, value: &T) -> bool {
        call_ensures(self.pred, (value,), true)
    }

    open spec fn message_spec(&self) -> Seq<char> {
        self.message@
    }

    fn is_valid(&self, value: &T) -> (r: bool) {
        (self.pred)(value)
    }

    fn message(&self) -> (r: String) {
        self.message.clone()
    }
}

/// A well-formed bare predicate makes a well-formed property check: its
/// adapter meets the obligations that [`validate`] and
/// [`validate_with_message`] place on a validator.
pub proof fn lemma_predicate_wf<T, F: Fn(&T) -> bool>(p: &Predicate<T, F>)
    requires
        predicate_wf(p.pred),
    ensures
        p.wf(),
{
}

/// Consistency between closure-based and struct-based validators: the
/// adapter's verdict on a value is exactly the bare predicate's own verdict
/// on that value, and its message is the one given at construction.
pub proof fn lemma_predicate_valid_spec<T, F: Fn(&T) -> bool>(p: &Predicate<T, F>, v: &T)
    ensures
        p.valid_spec(v) == call_ensures(p.pred, (v,), true),
        p.message_spec() == p.message@,
{
}

/// The mathematical value of a [`ValidationFailure`]: the two strings it
/// holds.
#[verifier::ext_equal]
pub struct FailureView {
    pub message: Seq<char>,
    pub property_path: Seq<char>,
}

/// One validation problem: a human-readable message together with the path
/// of the offending property.
#[derive(Debug)]
pub struct ValidationFailure {
    message: String,
    property_path: String,
}

impl View for ValidationFailure {
    type V = FailureView;

    closed spec fn view(&self) -> FailureView {
        FailureView { message: self.message@, property_path: self.property_path@ }
    }
}

/// The display form of one failure: its property path, `" => "`, then its
/// message.
pub open spec fn failure_display(f: FailureView) -> Seq<char> {
    f.property_path + seq![' ', '=', '>', ' '] + f.message
}

impl ValidationFailure {
    /// Plain constructor: stores both strings verbatim, with no validation
    /// of its own arguments.
    pub fn new(message: String, property_path: String) -> (r: ValidationFailure)
        ensures
            r@ == (FailureView { message: message@, property_path: property_path@ }),
    {
        ValidationFailure { message, property_path }
    }

    pub fn message(&self) -> (r: &str)
        ensures
            r@ == self@.message,
    {
        self.message.as_str()
    }

    pub fn property_path(&self) -> (r: &str)
        ensures
            r@ == self@.property_path,
    {
        self.property_path.as_str()
    }

    /// The combined display string, `"{property_path} => {message}"`.
    pub fn display_string(&self) -> (r: String)
        ensures
            r@ == failure_display(self@),
    {
        let mut r = self.property_path.clone();
        r.append(" => ");
        r.append(self.message.as_str());
        proof {
            reveal_strlit(" => ");
            assert(" => "@ =~= seq![' ', '=', '>', ' ']);
            assert(r@ =~= failure_display(self@));
        }
        r
    }
}

/// The view of each failure in a sequence, in order.
pub open spec fn views_of(failures: Seq<ValidationFailure>) -> Seq<FailureView> {
    failures.map_values(|f: ValidationFailure| f@)
}

/// The ordered aggregate of every failure found during one validation
/// pass. Order is evaluation order; nothing is deduplicated or sorted.
#[derive(Debug)]
pub struct Error {
    failures: Vec<ValidationFailure>,
}

impl View for Error {
    type V = Seq<FailureView>;

    closed spec fn view(&self) -> Seq<FailureView> {
        views_of(self.failures@)
    }
}

/// The display form of an aggregated error: the display form of each
/// failure, in sequence order, joined by a newline.
pub open spec fn error_display(failures: Seq<FailureView>) -> Seq<char>
    decreases failures.len(),
{
    if failures.len() == 0 {
        Seq::empty()
    } else if failures.len() == 1 {
        failure_display(failures[0])
    } else {
        error_display(failures.drop_last()) + seq!['\n'] + failure_display(failures.last())
    }
}

impl Error {
    /// Wraps the given failures verbatim, preserving their order.
    pub fn new(failures: Vec<ValidationFailure>) -> (r: Error)
        ensures
            r@ == views_of(failures@),
    {
        Error { failures }
    }

    /// The single-to-aggregate conversion: wraps one failure in a
    /// one-element `Error`, so call sites that produce at most one problem
    /// can still return the uniform error type.
    pub fn from(value: ValidationFailure) -> (r: Error)
        ensures
            r@ == seq![value@],
            r@.len() == 1,
    {
        let mut failures: Vec<ValidationFailure> = Vec::new();
        failures.push(value);
        let r = Error { failures };
        proof {
            assert(r@ =~= seq![value@]);
        }
        r
    }

    /// Read-only borrow of the underlying failure list.
    pub fn failures(&self) -> (r: &Vec<ValidationFailure>)
        ensures
            views_of(r@) == self@,
    {
        &self.failures
    }

    /// The combined display string: each failure's display string, one per
    /// line, in sequence order.
    pub fn display_string(&self) -> (r: String)
        ensures
            r@ == error_display(self@),
    {
        let mut r = String::new();
        let mut i: usize = 0;
        while i < self.failures.len()
            invariant
                0 <= i <= self.failures.len(),
                r@ == error_display(self@.take(i as int)),
            decreases self.failures.len() - i,
        {
            if i > 0 {
                r.append("\n");
            }
            let line = self.failures[i].display_string();
            r.append(line.as_str());
            proof {
                reveal_strlit("\n");
                assert("\n"@ =~= seq!['\n']);
                let ghost j = i as int;
                assert(self@.take(j + 1).drop_last() =~= self@.take(j));
                assert(self@.take(j + 1).last() == self@[j]);
                assert(r@ =~= error_display(self@.take(j + 1)));
            }
            i = i + 1;
        }
        proof {
            assert(self@.take(self.failures@.len() as int) =~= self@);
        }
        r
    }
}

impl From<ValidationFailure> for Error {
    /// The single-to-aggregate conversion again, for call sites that go
    /// through the std trait: the one failure wrapped in a one-element
    /// `Error`.
    fn from(value: ValidationFailure) -> (r: Error)
        ensures
            r@ == seq![value@],
    {
        let mut failures: Vec<ValidationFailure> = Vec::new();
        failures.push(value);
        let r = Error { failures };
        proof {
            assert(r@ =~= seq![value@]);
        }
        r
    }
}

/// The result of `From::from` cannot be named as a spec-level `Error`
/// value through `from_spec` (a `Vec` has no spec constructor and no view
/// extensionality), so the trait-level spec is left unobeyed; the promise
/// stands instead as the `ensures` on the impl method itself, matching the
/// inherent [`Error::from`].
impl vstd::std_specs::convert::FromSpecImpl<ValidationFailure> for Error {
    open spec fn obeys_from_spec() -> bool {
        false
    }

    open spec fn from_spec(v: ValidationFailure) -> Error {
        choose|e: Error| e@ == seq![v@]
    }
}

/// Display round trip: an error over exactly two failures displays as the
/// first failure's display string, a newline, then the second failure's
/// display string.
pub proof fn lemma_error_display_pair(f1: FailureView, f2: FailureView)
    ensures
        error_display(seq![f1, f2]) == failure_display(f1) + seq!['\n'] + failure_display(f2),
{
    assert(seq![f1, f2].drop_last() =~= seq![f1]);
    assert(seq![f1, f2].last() == f2);
    assert(error_display(seq![f1]) == failure_display(f1));
    assert(error_display(seq![f1, f2]) =~= failure_display(f1) + seq!['\n'] + failure_display(f2));
}

} // verus!
