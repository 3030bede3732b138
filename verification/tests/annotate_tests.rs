use hextrace::annotate;
use hextrace::context;
use hextrace::ParseFailure;
use hextrace::VerboseError;
use hextrace::VerboseErrorKind;
use nom::error::ErrorKind;
use nom::Needed;
use std::borrow::Cow;
use std::cell::Cell;

type Step = Result<(usize, u8), ParseFailure<VerboseError<usize>>>;

#[test]
fn success_passes_through_and_label_is_not_evaluated() {
    let evaluations = Cell::new(0u32);
    let result: Step = Ok((12, 0xab));
    let outcome = annotate(
        || {
            evaluations.set(evaluations.get() + 1);
            Cow::Borrowed("never built")
        },
        4usize,
        result,
    );
    assert_eq!(outcome, Ok((12, 0xab)));
    assert_eq!(evaluations.get(), 0);
}

#[test]
fn recoverable_failure_gains_the_label_at_the_start_position() {
    let evaluations = Cell::new(0u32);
    let inner = VerboseError::from_error_kind(9usize, ErrorKind::Tag);
    let result: Step = Err(ParseFailure::Recoverable(inner));
    let outcome = annotate(
        || {
            evaluations.set(evaluations.get() + 1);
            Cow::Owned(format!("field `{}`", "count"))
        },
        4usize,
        result,
    );
    let expected = VerboseError {
        errors: vec![
            (9usize, VerboseErrorKind::Nom(ErrorKind::Tag)),
            (4usize, VerboseErrorKind::Context(Cow::Borrowed("field `count`"))),
        ],
    };
    assert_eq!(outcome, Err(ParseFailure::Recoverable(expected)));
    assert_eq!(evaluations.get(), 1);
}

#[test]
fn fatal_failure_stays_fatal() {
    let inner = VerboseError::from_error_kind(9usize, ErrorKind::Verify);
    let result: Step = Err(ParseFailure::Fatal(inner));
    let outcome = annotate(|| Cow::Borrowed("section header"), 0usize, result);
    let expected = VerboseError {
        errors: vec![
            (9usize, VerboseErrorKind::Nom(ErrorKind::Verify)),
            (0usize, VerboseErrorKind::Context(Cow::Borrowed("section header"))),
        ],
    };
    assert_eq!(outcome, Err(ParseFailure::Fatal(expected)));
}

#[test]
fn incomplete_passes_through_and_label_is_not_evaluated() {
    let evaluations = Cell::new(0u32);
    let result: Step = Err(ParseFailure::Incomplete(Needed::new(3)));
    let outcome = annotate(
        || {
            evaluations.set(evaluations.get() + 1);
            Cow::Borrowed("never built")
        },
        4usize,
        result,
    );
    assert_eq!(outcome, Err(ParseFailure::Incomplete(Needed::new(3))));
    assert_eq!(evaluations.get(), 0);
}

#[test]
fn nested_annotators_record_outermost_last() {
    let inner = VerboseError::from_error_kind(20usize, ErrorKind::Eof);
    let result: Step = Err(ParseFailure::Recoverable(inner));
    let result = annotate(|| Cow::Borrowed("field"), 16usize, result);
    let result = annotate(|| Cow::Borrowed("record"), 8usize, result);
    let result = annotate(|| Cow::Borrowed("file"), 0usize, result);
    let expected = VerboseError {
        errors: vec![
            (20usize, VerboseErrorKind::Nom(ErrorKind::Eof)),
            (16usize, VerboseErrorKind::Context(Cow::Borrowed("field"))),
            (8usize, VerboseErrorKind::Context(Cow::Borrowed("record"))),
            (0usize, VerboseErrorKind::Context(Cow::Borrowed("file"))),
        ],
    };
    assert_eq!(result, Err(ParseFailure::Recoverable(expected)));
}

#[test]
fn step_runs_at_the_input_and_success_is_returned_as_it_is() {
    let evaluations = Cell::new(0u32);
    let seen = Cell::new(None);
    let outcome: Step = context(
        || {
            evaluations.set(evaluations.get() + 1);
            Cow::Borrowed("never built")
        },
        |at: usize| {
            seen.set(Some(at));
            Ok((at + 2, 0x5a))
        },
        40usize,
    );
    assert_eq!(outcome, Ok((42, 0x5a)));
    assert_eq!(seen.get(), Some(40));
    assert_eq!(evaluations.get(), 0);
}

#[test]
fn label_is_recorded_where_the_step_began_not_where_it_failed() {
    let evaluations = Cell::new(0u32);
    let outcome: Step = context(
        || {
            evaluations.set(evaluations.get() + 1);
            Cow::Borrowed("parsing section header")
        },
        |at: usize| {
            Err(ParseFailure::Recoverable(VerboseError::from_error_kind(
                at + 6,
                ErrorKind::Eof,
            )))
        },
        16usize,
    );
    let expected = VerboseError {
        errors: vec![
            (22usize, VerboseErrorKind::Nom(ErrorKind::Eof)),
            (16usize, VerboseErrorKind::Context(Cow::Borrowed("parsing section header"))),
        ],
    };
    assert_eq!(outcome, Err(ParseFailure::Recoverable(expected)));
    assert_eq!(evaluations.get(), 1);
}

#[test]
fn fatal_step_stays_fatal_under_nested_labels() {
    let outcome: Step = context(
        || Cow::Borrowed("file"),
        |outer: usize| {
            context(
                || Cow::Owned(format!("record {}", 3)),
                |inner: usize| {
                    Err(ParseFailure::Fatal(VerboseError::from_error_kind(
                        inner + 1,
                        ErrorKind::Verify,
                    )))
                },
                outer + 8,
            )
        },
        0usize,
    );
    let expected = VerboseError {
        errors: vec![
            (9usize, VerboseErrorKind::Nom(ErrorKind::Verify)),
            (8usize, VerboseErrorKind::Context(Cow::Borrowed("record 3"))),
            (0usize, VerboseErrorKind::Context(Cow::Borrowed("file"))),
        ],
    };
    assert_eq!(outcome, Err(ParseFailure::Fatal(expected)));
}

#[test]
fn incomplete_step_is_not_labelled() {
    let evaluations = Cell::new(0u32);
    let outcome: Step = context(
        || {
            evaluations.set(evaluations.get() + 1);
            Cow::Borrowed("never built")
        },
        |_at: usize| Err(ParseFailure::Incomplete(Needed::Unknown)),
        5usize,
    );
    assert_eq!(outcome, Err(ParseFailure::Incomplete(Needed::Unknown)));
    assert_eq!(evaluations.get(), 0);
}
