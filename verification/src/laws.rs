use crate::branch::arm_from;
use crate::branch::format_disabled;
use crate::branch::has_brace;
use crate::branch::route;
use crate::branch::Route;
use crate::expand::branch_of;
use crate::expand::expansion;
use crate::expand::lemma_all_succeed;
use crate::expand::lemma_first_failure;
use crate::expand::lemma_no_failure;
use crate::expand::located;
use crate::model::stock_failure;
use crate::model::ArmView;
use crate::model::BranchView;
use crate::model::DeclarationView;
use crate::model::DispatchView;
use crate::model::ErrorKind;
use crate::model::Failure;
use crate::model::Mode;
use crate::model::Output;
use crate::model::Shape;
use crate::model::VariantView;
use crate::reading::LexedView;
use crate::reading::ReadingView;
use crate::render::rendering;
use crate::syntax::LiteralView;
use vstd::prelude::*;

verus! {

/// The annotation that is honoured on `v` has arguments, and `reading` says
/// that they are one string literal without a brace.
pub open spec fn plainly_annotated(v: VariantView, reading: ReadingView) -> bool {
    &&& located(v.attrs) is Some
    &&& v.attrs[located(v.attrs)->0].args is Some
    &&& reading.literal is Ok
    &&& !has_brace(reading.literal->Ok_0.value)
}

/// Where every variant of an enumeration carries one string literal without
/// a brace, the total derivation succeeds, whether formatting is on or off,
/// and maps each variant, in the order of the declaration, to exactly the
/// literal that was written for it.
pub proof fn law_total_keeps_declared_text(
    d: DeclarationView,
    readings: Seq<ReadingView>,
    format: bool,
)
    requires
        d.shape == Shape::Enum,
        readings.len() == d.variants.len(),
        forall|i: int|
            0 <= i < d.variants.len() ==> plainly_annotated(#[trigger] d.variants[i], readings[i]),
    ensures
        expansion(d, readings, Mode::Total, format) is Ok,
        expansion(d, readings, Mode::Total, format)->Ok_0.target == d.ident,
        expansion(d, readings, Mode::Total, format)->Ok_0.branches.len() == d.variants.len(),
        forall|i: int|
            0 <= i < d.variants.len() ==> (#[trigger] expansion(
                d,
                readings,
                Mode::Total,
                format,
            )->Ok_0.branches[i]) == (BranchView {
                variant: d.variants[i].ident,
                arm: ArmView::Literal(readings[i].literal->Ok_0.token),
            }),
{
    assert forall|i: int| 0 <= i < d.variants.len() implies (#[trigger] branch_of(
        d.variants[i],
        readings[i],
        Mode::Total,
        format,
    )) == Ok::<BranchView, Failure>(
        BranchView {
            variant: d.variants[i].ident,
            arm: ArmView::Literal(readings[i].literal->Ok_0.token),
        },
    ) by {
        assert(plainly_annotated(d.variants[i], readings[i]));
    }
    lemma_all_succeed(d.variants, readings, 0, Mode::Total, format);
}

/// In an optional derivation that succeeds there is one branch for each
/// variant, and a branch is without text exactly where its variant has no
/// designated attribute, whatever the parser said.
pub proof fn law_absent_only_without_annotation(
    d: DeclarationView,
    readings: Seq<ReadingView>,
    format: bool,
)
    requires
        expansion(d, readings, Mode::Optional, format) is Ok,
    ensures
        expansion(d, readings, Mode::Optional, format)->Ok_0.branches.len() == d.variants.len(),
        forall|i: int|
            0 <= i < d.variants.len() ==> ((#[trigger] expansion(
                d,
                readings,
                Mode::Optional,
                format,
            )->Ok_0.branches[i]).arm is Absent <==> located(d.variants[i].attrs) is None),
{
    lemma_no_failure(d.variants, readings, 0, Mode::Optional, format);
    assert forall|i: int| 0 <= i < d.variants.len() implies ((#[trigger] expansion(
        d,
        readings,
        Mode::Optional,
        format,
    )->Ok_0.branches[i]).arm is Absent <==> located(d.variants[i].attrs) is None) by {
        assert(branch_of(d.variants[i], readings[i], Mode::Optional, format) is Ok);
    }
}

/// Two derivations on one declaration, in one mode and with formatting set
/// alike, for which the parser said the same of each argument list, end
/// alike: with the same implementation and the same source text, or with
/// the same diagnostic, message included.
pub proof fn law_derivation_is_repeatable(
    d: DeclarationView,
    readings: Seq<ReadingView>,
    mode: Mode,
    format: bool,
    first: Output,
    second: Output,
)
    requires
        first@ == expansion(d, readings, mode, format),
        second@ == expansion(d, readings, mode, format),
    ensures
        first@ == second@,
        first is Implementation <==> second is Implementation,
        first is Implementation ==> rendering(first->Implementation_0@) == rendering(
            second->Implementation_0@,
        ),
        first is Diagnostic ==> first->Diagnostic_0.kind == second->Diagnostic_0.kind
            && first->Diagnostic_0.subject@ == second->Diagnostic_0.subject@
            && first->Diagnostic_0.message@ == second->Diagnostic_0.message@,
{
}

/// A brace in the text of a literal, opening or closing, and nothing else,
/// sends it down the format route, whether formatting is on or off. Without
/// one the branch is the literal as written. With one the branch is a format
/// request where formatting is on, and the error that formatting is off
/// where it is off.
pub proof fn law_brace_decides_route(
    literal: LiteralView,
    lexed: LexedView,
    args: Seq<char>,
    format: bool,
)
    ensures
        has_brace(literal.value) <==> literal.value.contains('{') || literal.value.contains('}'),
        has_brace(literal.value) <==> route(Some(literal)) == Route::Format,
        !has_brace(literal.value) <==> route(Some(literal)) == Route::Plain,
        !has_brace(literal.value) ==> arm_from(Ok(literal), lexed, args, format) == Ok::<
            ArmView,
            (ErrorKind, Seq<char>),
        >(ArmView::Literal(literal.token)),
        has_brace(literal.value) && format ==> arm_from(Ok(literal), lexed, args, format) == Ok::<
            ArmView,
            (ErrorKind, Seq<char>),
        >(ArmView::Format(args)),
        has_brace(literal.value) && !format ==> arm_from(Ok(literal), lexed, args, format)
            == Err::<ArmView, (ErrorKind, Seq<char>)>(format_disabled()),
{
}

/// Arguments that are tokens but do not begin with a string literal are
/// refused, whether formatting is on or off, and the parser's message is
/// handed on as it is.
pub proof fn law_format_needs_leading_literal(
    said: Seq<char>,
    lexed: LexedView,
    args: Seq<char>,
    format: bool,
)
    requires
        lexed is Empty || lexed == LexedView::First(None),
    ensures
        arm_from(Err(said), lexed, args, format) == Err::<ArmView, (ErrorKind, Seq<char>)>(
            (ErrorKind::NotLiteral, said),
        ),
{
}

/// With formatting off, arguments that begin with a string literal without a
/// brace and go on are refused with the parser's message as it is.
pub proof fn law_parser_message_is_handed_on(
    said: Seq<char>,
    first: LiteralView,
    args: Seq<char>,
)
    requires
        !has_brace(first.value),
    ensures
        arm_from(Err(said), LexedView::First(Some(first)), args, false) == Err::<
            ArmView,
            (ErrorKind, Seq<char>),
        >((ErrorKind::NotLiteral, said)),
{
}

/// The honoured annotation of `v` asks for formatting with a literal that
/// holds a brace: the literal is all of its arguments, or the first of them.
pub open spec fn asks_for_format(v: VariantView, reading: ReadingView) -> bool {
    &&& located(v.attrs) is Some
    &&& v.attrs[located(v.attrs)->0].args is Some
    &&& match reading.literal {
        Ok(l) => has_brace(l.value),
        Err(_) => reading.lexed matches LexedView::First(Some(first)) && has_brace(first.value),
    }
}

/// With formatting off, a variant whose annotation has a brace in its literal
/// fails, in either mode, with the error that formatting is off, in its
/// fixed words, not with an error of the parser.
pub proof fn law_disabled_format_is_reported(v: VariantView, reading: ReadingView, mode: Mode)
    requires
        asks_for_format(v, reading),
    ensures
        branch_of(v, reading, mode, false) == Err::<BranchView, Failure>(
            stock_failure(ErrorKind::FormatDisabled, v.ident),
        ),
{
}

/// A derivation is all or nothing: where a variant of an enumeration fails
/// and none before it does, the derivation fails with that variant's error,
/// whatever the variants after it hold.
pub proof fn law_first_failure_is_reported(
    d: DeclarationView,
    readings: Seq<ReadingView>,
    at: int,
    mode: Mode,
    format: bool,
)
    requires
        d.shape == Shape::Enum,
        0 <= at < d.variants.len(),
        branch_of(d.variants[at], readings[at], mode, format) is Err,
        forall|i: int|
            0 <= i < at ==> (#[trigger] branch_of(d.variants[i], readings[i], mode, format)) is Ok,
    ensures
        expansion(d, readings, mode, format) == Err::<DispatchView, Failure>(
            branch_of(d.variants[at], readings[at], mode, format)->Err_0,
        ),
        expansion(d, readings, mode, format)->Err_0.subject == d.variants[at].ident,
{
    lemma_first_failure(d.variants, readings, 0, at, mode, format);
}

/// A declaration that is no enumeration is refused, whatever else it holds
/// and whatever the parser would say.
pub proof fn law_only_enumerations(
    d: DeclarationView,
    readings: Seq<ReadingView>,
    mode: Mode,
    format: bool,
)
    requires
        d.shape != Shape::Enum,
    ensures
        expansion(d, readings, mode, format) == Err::<DispatchView, Failure>(
            stock_failure(ErrorKind::NotAnEnum, d.ident),
        ),
{
}

} // verus!
