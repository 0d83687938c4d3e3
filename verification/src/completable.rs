use vstd::prelude::*;

verus! {

broadcast use vstd::string::to_string_from_display_ensures_for_str;

/// Declares `cancel_this::Cancelled`, the opaque cancellation-reason value
/// produced by the crate's triggers, so that [`Incomplete`] can carry it
/// through unchanged.
#[verifier::external_type_specification]
#[verifier::external_body]
pub struct ExCancelled(cancel_this::Cancelled);

/// Relies on `cancel_this::Cancelled`'s derived `Clone`, which copies the
/// only field, a static reference to the cause's name: the clone equals the
/// original.
pub assume_specification[ <cancel_this::Cancelled as Clone>::clone ](
    c: &cancel_this::Cancelled,
) -> (r: cancel_this::Cancelled)
    ensures
        r == *c,
;

/// The signal returned by a poll when the result is not (yet) available.
///
/// The signal channel is reserved for suspend/cancel/exhaust semantics;
/// algorithmic errors belong in the output type of the computation itself.
#[derive(Debug, Clone, PartialEq, Eq, Hash)]
#[non_exhaustive]
pub enum Incomplete {
    /// The computation has reached a voluntary suspend point and must be
    /// polled again.
    Suspended,
    /// Cooperative cancellation was observed; the reason is carried through
    /// unchanged from the cancellation capability.
    Cancelled(cancel_this::Cancelled),
    /// The computation already produced its final value on a previous poll;
    /// this poll is invalid.
    Exhausted,
}

/// The return type of every poll: either a final value, or an [`Incomplete`]
/// signal.
pub type Completable<T> = Result<T, Incomplete>;

/// The result of driving a computation to finality: either its value, or the
/// reason for which it was cancelled.
pub type Cancellable<T> = Result<T, cancel_this::Cancelled>;

impl From<cancel_this::Cancelled> for Incomplete {
    fn from(value: cancel_this::Cancelled) -> (r: Self)
        ensures
            r == Incomplete::Cancelled(value),
    {
        Incomplete::Cancelled(value)
    }
}

impl vstd::std_specs::convert::FromSpecImpl<cancel_this::Cancelled> for Incomplete {
    open spec fn obeys_from_spec() -> bool {
        true
    }

    open spec fn from_spec(v: cancel_this::Cancelled) -> Self {
        Incomplete::Cancelled(v)
    }
}

impl Incomplete {
    /// A human-readable description of the signal.
    pub fn message(&self) -> (r: String)
        ensures
            self is Suspended ==> r@ == "Operation suspended"@,
            self is Exhausted ==> r@ == "Computation exhausted"@,
    {
        match self {
            Incomplete::Suspended => "Operation suspended".to_string(),
            Incomplete::Exhausted => "Computation exhausted".to_string(),
            Incomplete::Cancelled(c) => cancelled_message(c),
        }
    }
}

/// Relies on `cancel_this`'s `Display` impl for `Cancelled`: renders the
/// cancellation cause.
#[verifier::external_body]
fn cancelled_message(c: &cancel_this::Cancelled) -> String {
    format!("{}", c)
}

} // verus!
