//! The trace: an ordered record of failure points.

use crate::outside::same_kind;
use crate::text::same_text;
use nom::error::ErrorKind;
use std::borrow::Cow;
use vstd::prelude::*;
use vstd::std_specs::cmp::PartialEqSpec;
use vstd::std_specs::cmp::PartialEqSpecImpl;

verus! {

/// What a trace entry says about its position.
#[derive(Debug)]
pub enum VerboseErrorKind {
    /// A label added by a context annotator.
    Context(Cow<'static, str>),
    /// The classifier of the parsing primitive that failed.
    Nom(ErrorKind),
}

impl Clone for VerboseErrorKind {
    fn clone(&self) -> (copy: Self)
        ensures
            copy == *self,
    {
        match self {
            VerboseErrorKind::Context(Cow::Borrowed(label)) => VerboseErrorKind::Context(
                Cow::Borrowed(*label),
            ),
            VerboseErrorKind::Context(Cow::Owned(label)) => VerboseErrorKind::Context(
                Cow::Owned(label.clone()),
            ),
            VerboseErrorKind::Nom(kind) => VerboseErrorKind::Nom(*kind),
        }
    }
}

/// The text of a label.
pub fn label_text<'a>(label: &'a Cow<'static, str>) -> (text: &'a str)
    ensures
        text@ == label@,
{
    match label {
        Cow::Borrowed(text) => text,
        Cow::Owned(text) => text.as_str(),
    }
}

/// Whether two annotations say the same: two labels of the same text, or the
/// same classifier twice.
pub open spec fn same_annotation(a: VerboseErrorKind, b: VerboseErrorKind) -> bool {
    match (a, b) {
        (VerboseErrorKind::Context(x), VerboseErrorKind::Context(y)) => x@ == y@,
        (VerboseErrorKind::Nom(x), VerboseErrorKind::Nom(y)) => x == y,
        _ => false,
    }
}

impl PartialEq for VerboseErrorKind {
    fn eq(&self, other: &Self) -> (equal: bool) {
        match (self, other) {
            (VerboseErrorKind::Context(x), VerboseErrorKind::Context(y)) => same_text(
                label_text(x),
                label_text(y),
            ),
            (VerboseErrorKind::Nom(x), VerboseErrorKind::Nom(y)) => same_kind(x, y),
            _ => false,
        }
    }
}

impl PartialEqSpecImpl for VerboseErrorKind {
    open spec fn obeys_eq_spec() -> bool {
        true
    }

    open spec fn eq_spec(&self, other: &Self) -> bool {
        same_annotation(*self, *other)
    }
}

/// The failure points gathered while a parse attempt unwinds, innermost first.
#[derive(Debug)]
pub struct VerboseError<I> {
    /// The entries: where each failure was recorded, and what was noted there.
    pub errors: Vec<(I, VerboseErrorKind)>,
}

impl<I> View for VerboseError<I> {
    type V = Seq<(I, VerboseErrorKind)>;

    /// The entries in the order in which they were recorded.
    open spec fn view(&self) -> Seq<(I, VerboseErrorKind)> {
        self.errors@
    }
}

impl<I: PartialEq> PartialEq for VerboseError<I> {
    fn eq(&self, other: &Self) -> (equal: bool) {
        if self.errors.len() != other.errors.len() {
            return false;
        }
        let mut k: usize = 0;
        while k < self.errors.len()
            invariant
                k <= self@.len(),
                self@.len() == other@.len(),
                I::obeys_eq_spec() ==> forall|j: int|
                    0 <= j < k ==> (#[trigger] self@[j]).0.eq_spec(&other@[j].0) && same_annotation(
                        self@[j].1,
                        other@[j].1,
                    ),
            decreases self@.len() - k,
        {
            if !(self.errors[k].0 == other.errors[k].0) {
                return false;
            }
            if !(self.errors[k].1 == other.errors[k].1) {
                return false;
            }
            k += 1;
        }
        true
    }
}

impl<I: PartialEq> PartialEqSpecImpl for VerboseError<I> {
    open spec fn obeys_eq_spec() -> bool {
        I::obeys_eq_spec()
    }

    /// Two traces are equal when they hold equal entries in the same order.
    open spec fn eq_spec(&self, other: &Self) -> bool {
        &&& self@.len() == other@.len()
        &&& forall|j: int|
            0 <= j < self@.len() ==> (#[trigger] self@[j]).0.eq_spec(&other@[j].0)
                && same_annotation(self@[j].1, other@[j].1)
    }
}

impl<I> VerboseError<I> {
    /// Whether the trace holds an entry. A trace that a failed step hands out
    /// always does: it is born with one entry and only grows.
    pub open spec fn is_seeded(&self) -> bool {
        self@.len() >= 1
    }

    /// A trace of one entry: the classifier of the primitive that failed at `input`.
    pub fn from_error_kind(input: I, kind: ErrorKind) -> (trace: Self)
        ensures
            trace@ == seq![(input, VerboseErrorKind::Nom(kind))],
            trace.is_seeded(),
    {
        let mut errors = Vec::new();
        errors.push((input, VerboseErrorKind::Nom(kind)));
        VerboseError { errors }
    }

    /// `other` with one more entry at its end: the classifier `kind` at `input`.
    pub fn append(input: I, kind: ErrorKind, other: Self) -> (trace: Self)
        ensures
            trace@ == other@.push((input, VerboseErrorKind::Nom(kind))),
            trace.is_seeded(),
    {
        let mut other = other;
        other.errors.push((input, VerboseErrorKind::Nom(kind)));
        other
    }
}

/// An error type to which a context annotator can add a label on the way out
/// of a failed parse.
pub trait ContextError<I>: Sized {
    /// `other`, with the label `ctx` recorded for the position `input`. An
    /// error type that keeps no labels returns `other` as it came.
    fn add_context(_input: I, _ctx: Cow<'static, str>, other: Self) -> (annotated: Self)
        default_ensures
            annotated == other,
    {
        other
    }

    /// An error that holds the label `ctx` at the position `input` and nothing else.
    fn new(_input: I, _ctx: Cow<'static, str>) -> Self;
}

impl<I> ContextError<I> for VerboseError<I> {
    /// `other` with one more entry at its end: the label `ctx` at `input`.
    fn add_context(input: I, ctx: Cow<'static, str>, other: Self) -> (annotated: Self)
        ensures
            annotated@ == other@.push((input, VerboseErrorKind::Context(ctx))),
            annotated.is_seeded(),
    {
        let mut other = other;
        other.errors.push((input, VerboseErrorKind::Context(ctx)));
        other
    }

    /// A trace of one entry: the label `ctx` at `input`.
    fn new(input: I, ctx: Cow<'static, str>) -> (trace: Self)
        ensures
            trace@ == seq![(input, VerboseErrorKind::Context(ctx))],
            trace.is_seeded(),
    {
        let mut errors = Vec::new();
        errors.push((input, VerboseErrorKind::Context(ctx)));
        VerboseError { errors }
    }
}

/// The entries that a trace holds after `entries` were recorded on top of
/// `trace`, one at a time and in their order.
pub open spec fn accumulate<T>(trace: Seq<T>, entries: Seq<T>) -> Seq<T>
    decreases entries.len(),
{
    if entries.len() == 0 {
        trace
    } else {
        accumulate(trace.push(entries.first()), entries.drop_first())
    }
}

/// Recording entries one at a time gives the trace followed by the entries
/// as they came: nothing is dropped, reordered or merged, and what the trace
/// held before stays where it was.
pub proof fn lemma_accumulate_keeps_order<T>(trace: Seq<T>, entries: Seq<T>)
    ensures
        accumulate(trace, entries) == trace + entries,
        accumulate(trace, entries).len() == trace.len() + entries.len(),
        forall|k: int| 0 <= k < trace.len() ==> accumulate(trace, entries)[k] == trace[k],
        forall|k: int|
            0 <= k < entries.len() ==> accumulate(trace, entries)[trace.len() + k] == entries[k],
    decreases entries.len(),
{
    if entries.len() > 0 {
        lemma_accumulate_keeps_order(trace.push(entries.first()), entries.drop_first());
        assert(trace.push(entries.first()) + entries.drop_first() =~= trace + entries);
    } else {
        assert(trace + entries =~= trace);
    }
}

/// Recording `first` and then `second` gives the same trace as recording the
/// two runs of entries in one pass.
pub proof fn lemma_accumulate_in_steps<T>(trace: Seq<T>, first: Seq<T>, second: Seq<T>)
    ensures
        accumulate(accumulate(trace, first), second) == accumulate(trace, first + second),
{
    lemma_accumulate_keeps_order(trace, first);
    lemma_accumulate_keeps_order(trace + first, second);
    lemma_accumulate_keeps_order(trace, first + second);
    assert((trace + first) + second =~= trace + (first + second));
}

/// Three entries recorded one after the other make the trace of exactly those
/// three, in that order.
pub proof fn lemma_three_entries_in_order<T>(first: T, second: T, third: T)
    ensures
        seq![first].push(second).push(third) == seq![first, second, third],
        accumulate(Seq::empty(), seq![first, second, third]) == seq![first, second, third],
{
    lemma_accumulate_keeps_order(Seq::<T>::empty(), seq![first, second, third]);
    assert(Seq::<T>::empty() + seq![first, second, third] =~= seq![first, second, third]);
    assert(seq![first].push(second).push(third) =~= seq![first, second, third]);
}

impl<I: Clone> Clone for VerboseError<I> {
    fn clone(&self) -> (copy: Self)
        ensures
            copy@.len() == self@.len(),
            forall|k: int|
                0 <= k < self@.len() ==> cloned::<I>(self@[k].0, #[trigger] copy@[k].0)
                    && copy@[k].1 == self@[k].1,
    {
        let mut errors: Vec<(I, VerboseErrorKind)> = Vec::new();
        let mut k: usize = 0;
        while k < self.errors.len()
            invariant
                k <= self.errors@.len(),
                errors@.len() == k,
                forall|j: int|
                    0 <= j < k ==> cloned::<I>(self.errors@[j].0, #[trigger] errors@[j].0)
                        && errors@[j].1 == self.errors@[j].1,
            decreases self.errors@.len() - k,
        {
            let position = self.errors[k].0.clone();
            let kind = self.errors[k].1.clone();
            errors.push((position, kind));
            k += 1;
        }
        VerboseError { errors }
    }
}

} // verus!
