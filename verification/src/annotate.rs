//! The context annotator: labels a parsing step and records the label when
//! the step fails.

use crate::trace::ContextError;
use crate::trace::VerboseError;
use crate::trace::VerboseErrorKind;
use nom::Needed;
use std::borrow::Cow;
use vstd::prelude::*;

verus! {

/// How a parsing step failed, as the surrounding combinators classify it.
#[derive(Debug, PartialEq)]
pub enum ParseFailure<E> {
    /// The input ended before the step could decide.
    Incomplete(Needed),
    /// The step failed; an enclosing alternation may still try another branch.
    Recoverable(E),
    /// The step failed for good; no other branch is to be tried.
    Fatal(E),
}

/// Whether `outcome` is what the annotator makes of `result`, the outcome of a
/// step that was attempted at `input`.
///
/// A success and an incomplete parse pass through as they are. A failure keeps
/// its class, and its error becomes what the error type's `add_context` makes
/// of it when given `input` and the text that `label` evaluates to.
pub open spec fn annotates<I, E: ContextError<I>, O, F: FnOnce() -> Cow<'static, str>>(
    label: F,
    input: I,
    result: Result<(I, O), ParseFailure<E>>,
    outcome: Result<(I, O), ParseFailure<E>>,
) -> bool {
    match result {
        Ok(_) => outcome == result,
        Err(ParseFailure::Incomplete(_)) => outcome == result,
        Err(ParseFailure::Recoverable(e)) => exists|ctx: Cow<'static, str>, annotated: E|
            call_ensures(label, (), ctx) && call_ensures(E::add_context, (input, ctx, e), annotated)
                && outcome == Err::<(I, O), ParseFailure<E>>(ParseFailure::Recoverable(annotated)),
        Err(ParseFailure::Fatal(e)) => exists|ctx: Cow<'static, str>, annotated: E|
            call_ensures(label, (), ctx) && call_ensures(E::add_context, (input, ctx, e), annotated)
                && outcome == Err::<(I, O), ParseFailure<E>>(ParseFailure::Fatal(annotated)),
    }
}

/// Whether `result` is a failure that the annotator labels.
pub open spec fn needs_label<I, O, E>(result: Result<(I, O), ParseFailure<E>>) -> bool {
    result matches Err(failure) && !(failure is Incomplete)
}

/// Annotates the outcome `result` of a parsing step that was attempted at
/// `input`: where the step failed, the label is added to its error for the
/// position `input`, the position at which the step began.
///
/// The label is evaluated only for a failure: `label` has to be callable only
/// then, so a label that cannot be evaluated after a success is accepted.
pub fn annotate<I, E: ContextError<I>, O, F: FnOnce() -> Cow<'static, str>>(
    label: F,
    input: I,
    result: Result<(I, O), ParseFailure<E>>,
) -> (outcome: Result<(I, O), ParseFailure<E>>)
    requires
        needs_label(result) ==> call_requires(label, ()),
    ensures
        annotates(label, input, result, outcome),
        result is Ok ==> outcome == result,
        outcome is Ok <==> result is Ok,
{
    match result {
        Ok(done) => Ok(done),
        Err(ParseFailure::Incomplete(needed)) => Err(ParseFailure::Incomplete(needed)),
        Err(ParseFailure::Recoverable(e)) => {
            let ctx = label();
            Err(ParseFailure::Recoverable(E::add_context(input, ctx, e)))
        },
        Err(ParseFailure::Fatal(e)) => {
            let ctx = label();
            Err(ParseFailure::Fatal(E::add_context(input, ctx, e)))
        },
    }
}

/// Runs the parsing step `step` at `input` under the label `label`: the step
/// is attempted on a copy of `input`, and where it fails, the label is added
/// to its error for `input` itself, the position at which the attempt began,
/// whatever position the step failed at.
///
/// The label is evaluated only for a failure of the step.
pub fn context<I: Clone, E: ContextError<I>, O, F, P>(label: F, step: P, input: I) -> (outcome:
    Result<(I, O), ParseFailure<E>>) where
    F: FnOnce() -> Cow<'static, str>,
    P: FnOnce(I) -> Result<(I, O), ParseFailure<E>>,

    requires
        forall|attempt: I| cloned(input, attempt) ==> call_requires(step, (attempt,)),
        forall|attempt: I, result: Result<(I, O), ParseFailure<E>>|
            cloned(input, attempt) && call_ensures(step, (attempt,), result) && needs_label(result)
                ==> call_requires(label, ()),
    ensures
        exists|attempt: I, result: Result<(I, O), ParseFailure<E>>|
            cloned(input, attempt) && call_ensures(step, (attempt,), result) && annotates(
                label,
                input,
                result,
                outcome,
            ),
{
    let attempt = input.clone();
    assert(cloned(input, attempt));
    let result = step(attempt);
    annotate(label, input, result)
}

/// For a trace, an annotated failure holds what the step's trace held and
/// one more entry at its end: the label, at the position where the annotated
/// step began. The class of the failure is the one that came in.
pub proof fn lemma_context_grows_trace<I, O, F: FnOnce() -> Cow<'static, str>>(
    label: F,
    input: I,
    result: Result<(I, O), ParseFailure<VerboseError<I>>>,
    outcome: Result<(I, O), ParseFailure<VerboseError<I>>>,
)
    requires
        annotates(label, input, result, outcome),
    ensures
        result matches Err(ParseFailure::Recoverable(trace)) ==> outcome matches Err(
            ParseFailure::Recoverable(grown),
        ) && exists|ctx: Cow<'static, str>|
            call_ensures(label, (), ctx) && grown@ == trace@.push(
                (input, VerboseErrorKind::Context(ctx)),
            ),
        result matches Err(ParseFailure::Fatal(trace)) ==> outcome matches Err(
            ParseFailure::Fatal(grown),
        ) && exists|ctx: Cow<'static, str>|
            call_ensures(label, (), ctx) && grown@ == trace@.push(
                (input, VerboseErrorKind::Context(ctx)),
            ),
        !needs_label(result) ==> outcome == result,
{
}

} // verus!
