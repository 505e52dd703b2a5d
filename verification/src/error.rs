//! What goes wrong, in words, and whether trying again may help.

use vstd::prelude::*;

verus! {

/// Why something failed.
#[derive(Clone, Copy, Debug, PartialEq, Eq, Structural)]
pub enum Cause {
    /// The far end did not speak as the protocol has it.
    Protocol,
    /// It will fail again, however often it is tried.
    Permanent,
    /// It may succeed another time.
    Retryable,
}

/// A failure: why, and what to tell a person.
#[derive(Clone, Debug, PartialEq, Eq)]
pub struct TransportError {
    pub cause: Cause,
    pub message: String,
}

/// What a [`TransportError`] says.
pub struct Failure {
    pub cause: Cause,
    pub message: Seq<char>,
}

impl View for TransportError {
    type V = Failure;

    open spec fn view(&self) -> Failure {
        Failure { cause: self.cause, message: self.message@ }
    }
}

impl Failure {
    /// A failure of the protocol.
    pub open spec fn protocol(message: Seq<char>) -> Failure {
        Failure { cause: Cause::Protocol, message }
    }

    /// A failure for good.
    pub open spec fn permanent(message: Seq<char>) -> Failure {
        Failure { cause: Cause::Permanent, message }
    }

    /// A failure that may pass.
    pub open spec fn retryable(message: Seq<char>) -> Failure {
        Failure { cause: Cause::Retryable, message }
    }
}

/// What a `Result` without a value says.
pub open spec fn outcome(result: Result<(), TransportError>) -> Result<(), Failure> {
    match result {
        Ok(()) => Ok(()),
        Err(failure) => Err(failure@),
    }
}

/// What a `Result` of text says.
pub open spec fn text_outcome(result: Result<String, TransportError>) -> Result<
    Seq<char>,
    Failure,
> {
    match result {
        Ok(text) => Ok(text@),
        Err(failure) => Err(failure@),
    }
}

impl TransportError {
    /// It will fail again, however often it is tried.
    pub fn permanent(message: String) -> (failure: TransportError)
        ensures
            failure@ == Failure::permanent(message@),
    {
        TransportError { cause: Cause::Permanent, message }
    }

    /// It may succeed another time.
    pub fn retryable(message: String) -> (failure: TransportError)
        ensures
            failure@ == Failure::retryable(message@),
    {
        TransportError { cause: Cause::Retryable, message }
    }

    /// Whether trying again may help.
    pub fn is_retryable(&self) -> (may_pass: bool)
        ensures
            may_pass == (self@.cause is Retryable),
    {
        match self.cause {
            Cause::Retryable => true,
            Cause::Protocol | Cause::Permanent => false,
        }
    }
}

/// The far end did not speak as the protocol has it.
pub fn protocol_error(message: String) -> (failure: TransportError)
    ensures
        failure@ == Failure::protocol(message@),
{
    TransportError { cause: Cause::Protocol, message }
}

/// A failure says its words, and why it failed: against the protocol, for
/// good, or for now. Only the last may pass.
pub proof fn law_a_failure_says_its_cause(message: Seq<char>, failure: TransportError)
    ensures
        Failure::protocol(message).cause == Cause::Protocol,
        Failure::permanent(message).cause == Cause::Permanent,
        Failure::retryable(message).cause == Cause::Retryable,
        Failure::protocol(message).message == message,
        Failure::permanent(message).message == message,
        Failure::retryable(message).message == message,
        failure@.cause == failure.cause,
        failure@.message == failure.message@,
{
}

/// A result keeps what it holds when it is spoken of: the text, or the
/// failure.
pub proof fn law_an_outcome_keeps_what_it_holds(text: String, failure: TransportError)
    ensures
        outcome(Ok(())) is Ok,
        outcome(Err(failure)) == Err::<(), Failure>(failure@),
        text_outcome(Ok(text)) == Ok::<Seq<char>, Failure>(text@),
        text_outcome(Err(failure)) == Err::<Seq<char>, Failure>(failure@),
{
}

} // verus!
