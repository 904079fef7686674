use crate::branch::arm_from;
use crate::branch::parse_args;
use crate::model::annotation_views;
use crate::model::branch_views;
use crate::model::stock_failure;
use crate::model::variant_views;
use crate::model::Annotation;
use crate::model::AnnotationView;
use crate::model::Arm;
use crate::model::ArmView;
use crate::model::Branch;
use crate::model::BranchView;
use crate::model::Declaration;
use crate::model::DeclarationView;
use crate::model::Dispatch;
use crate::model::DispatchView;
use crate::model::ErrorKind;
use crate::model::ExpandError;
use crate::model::Failure;
use crate::model::Mode;
use crate::model::Output;
use crate::model::Shape;
use crate::model::Variant;
use crate::model::VariantView;
use crate::reading::read_arguments;
use crate::reading::ReadingView;
use vstd::prelude::*;

verus! {

/// The attribute is the one that carries a description.
pub open spec fn designated(a: AnnotationView) -> bool {
    a.name == "description"@
}

/// The place of the first designated attribute at or after `from`.
pub open spec fn first_designated(attrs: Seq<AnnotationView>, from: int) -> Option<int>
    decreases attrs.len() - from,
{
    if from < 0 || from >= attrs.len() {
        None
    } else if designated(attrs[from]) {
        Some(from)
    } else {
        first_designated(attrs, from + 1)
    }
}

/// The place of the attribute that is honoured: the first designated one.
/// Later ones are not looked at.
pub open spec fn located(attrs: Seq<AnnotationView>) -> Option<int> {
    first_designated(attrs, 0)
}

/// The branch of one variant, or its failure, where `reading` is what the
/// parser says of the arguments of its annotation.
///
/// Without a designated attribute a variant has no text, which is an error
/// in total mode. With one, the attribute needs an argument list, and the
/// right-hand side is what [`arm_from`] makes of it. The reading plays a part
/// only there.
pub open spec fn branch_of(v: VariantView, reading: ReadingView, mode: Mode, format: bool)
    -> Result<BranchView, Failure> {
    match located(v.attrs) {
        None => match mode {
            Mode::Total => Err(stock_failure(ErrorKind::MissingAnnotation, v.ident)),
            Mode::Optional => Ok(BranchView { variant: v.ident, arm: ArmView::Absent }),
        },
        Some(k) => match v.attrs[k].args {
            None => Err(stock_failure(ErrorKind::NoArguments, v.ident)),
            Some(a) => match arm_from(reading.literal, reading.lexed, a, format) {
                Ok(arm) => Ok(BranchView { variant: v.ident, arm }),
                Err((kind, message)) => Err(Failure { kind, subject: v.ident, message }),
            },
        },
    }
}

/// The place of the first variant at or after `from` that fails.
pub open spec fn first_failure(
    vs: Seq<VariantView>,
    readings: Seq<ReadingView>,
    from: int,
    mode: Mode,
    format: bool,
) -> Option<int>
    decreases vs.len() - from,
{
    if from < 0 || from >= vs.len() {
        None
    } else if branch_of(vs[from], readings[from], mode, format) is Err {
        Some(from)
    } else {
        first_failure(vs, readings, from + 1, mode, format)
    }
}

/// The branches of all variants, in their order; or the failure of the first
/// variant that has one. `readings` holds one reading for each variant.
pub open spec fn branches_of(
    vs: Seq<VariantView>,
    readings: Seq<ReadingView>,
    mode: Mode,
    format: bool,
) -> Result<Seq<BranchView>, Failure> {
    match first_failure(vs, readings, 0, mode, format) {
        Some(i) => Err(branch_of(vs[i], readings[i], mode, format)->Err_0),
        None => Ok(Seq::new(vs.len(), |i: int| branch_of(vs[i], readings[i], mode, format)->Ok_0)),
    }
}

/// What deriving on `d` gives under `readings`: for an enumeration its
/// dispatch, with the branches of [`branches_of`]; for anything else a
/// failure at the declaration.
pub open spec fn expansion(
    d: DeclarationView,
    readings: Seq<ReadingView>,
    mode: Mode,
    format: bool,
) -> Result<DispatchView, Failure> {
    if d.shape != Shape::Enum {
        Err(stock_failure(ErrorKind::NotAnEnum, d.ident))
    } else {
        match branches_of(d.variants, readings, mode, format) {
            Ok(branches) => Ok(DispatchView { target: d.ident, mode, branches }),
            Err(failure) => Err(failure),
        }
    }
}

/// `outcome` is what deriving on `d` gives under some reading of each
/// variant's arguments.
pub open spec fn derived(
    d: DeclarationView,
    mode: Mode,
    format: bool,
    outcome: Result<DispatchView, Failure>,
) -> bool {
    exists|readings: Seq<ReadingView>|
        readings.len() == d.variants.len() && #[trigger] expansion(d, readings, mode, format)
            == outcome
}

/// An exec branch or error as the contracts read it.
pub open spec fn branch_outcome(r: Result<Branch, ExpandError>) -> Result<BranchView, Failure> {
    match r {
        Ok(b) => Ok(b@),
        Err(e) => Err(e@),
    }
}

/// Exec branches or an error as the contracts read them.
pub open spec fn branches_outcome(r: Result<Vec<Branch>, ExpandError>) -> Result<
    Seq<BranchView>,
    Failure,
> {
    match r {
        Ok(bs) => Ok(branch_views(bs@)),
        Err(e) => Err(e@),
    }
}

/// An exec dispatch or error as the contracts read it.
pub open spec fn dispatch_outcome(r: Result<Dispatch, ExpandError>) -> Result<
    DispatchView,
    Failure,
> {
    match r {
        Ok(d) => Ok(d@),
        Err(e) => Err(e@),
    }
}

/// The place of the attribute of `attrs` that is honoured, if there is one.
pub fn find_annotation(attrs: &Vec<Annotation>) -> (r: Option<usize>)
    ensures
        match r {
            Some(k) => located(annotation_views(attrs@)) == Some(k as int) && k < attrs.len(),
            None => located(annotation_views(attrs@)) is None,
        },
{
    let key = String::from_str("description");
    let mut i: usize = 0;
    while i < attrs.len()
        invariant
            i <= attrs.len(),
            key@ == "description"@,
            located(annotation_views(attrs@)) == first_designated(
                annotation_views(attrs@),
                i as int,
            ),
        decreases attrs.len() - i,
    {
        if attrs[i].name == key {
            return Some(i);
        }
        i += 1;
    }
    None
}

/// The branch of `variant`. Where its annotation has arguments they are
/// read by the parser, and the result is the one that [`branch_of`] gives
/// for what the parser said; else it is the one that [`branch_of`] gives
/// under any reading.
pub fn branch_for(variant: &Variant, mode: Mode, format: bool) -> (r: Result<Branch, ExpandError>)
    ensures
        exists|reading: ReadingView| #[trigger]
            branch_of(variant@, reading, mode, format) == branch_outcome(r),
        located(variant@.attrs) is None || variant@.attrs[located(variant@.attrs)->0].args
            is None ==> forall|reading: ReadingView| #[trigger]
            branch_of(variant@, reading, mode, format) == branch_outcome(r),
{
    let ghost any: ReadingView = arbitrary();
    match find_annotation(&variant.attrs) {
        None => match mode {
            Mode::Total => {
                let r = Err(
                    ExpandError::stock(ErrorKind::MissingAnnotation, variant.ident.as_str()),
                );
                assert(branch_of(variant@, any, mode, format) == branch_outcome(r));
                r
            },
            Mode::Optional => {
                let r = Ok(Branch { variant: variant.ident.clone(), arm: Arm::Absent });
                assert(branch_of(variant@, any, mode, format) == branch_outcome(r));
                r
            },
        },
        Some(k) => match &variant.attrs[k].args {
            None => {
                let r = Err(ExpandError::stock(ErrorKind::NoArguments, variant.ident.as_str()));
                assert(branch_of(variant@, any, mode, format) == branch_outcome(r));
                r
            },
            Some(args) => {
                let reading = read_arguments(args.as_str());
                let ghost said = reading@;
                let r = parse_args(
                    variant.ident.as_str(),
                    reading.literal,
                    reading.lexed,
                    args.as_str(),
                    format,
                );
                assert(branch_of(variant@, said, mode, format) == branch_outcome(r));
                r
            },
        },
    }
}

/// The branches of `variants`, in their order, or the error of the first that
/// fails: what [`branches_of`] gives for what the parser said of each.
pub fn synthesize(variants: &Vec<Variant>, mode: Mode, format: bool) -> (r: Result<
    Vec<Branch>,
    ExpandError,
>)
    ensures
        exists|readings: Seq<ReadingView>|
            readings.len() == variants@.len() && #[trigger] branches_of(
                variant_views(variants@),
                readings,
                mode,
                format,
            ) == branches_outcome(r),
{
    let ghost vs = variant_views(variants@);
    let ghost mut readings: Seq<ReadingView> = Seq::empty();
    let mut branches: Vec<Branch> = Vec::with_capacity(variants.len());
    let mut i: usize = 0;
    while i < variants.len()
        invariant
            i <= variants.len(),
            vs == variant_views(variants@),
            branches@.len() == i,
            readings.len() == i,
            forall|j: int|
                0 <= j < i ==> branch_of(vs[j], readings[j], mode, format) == Ok::<
                    BranchView,
                    Failure,
                >((#[trigger] branches@[j])@),
        decreases variants.len() - i,
    {
        let result = branch_for(&variants[i], mode, format);
        let ghost reading = choose|reading: ReadingView|
            branch_of(vs[i as int], reading, mode, format) == branch_outcome(result);
        match result {
            Ok(branch) => {
                branches.push(branch);
                proof {
                    readings = readings.push(reading);
                }
            },
            Err(error) => {
                proof {
                    let all = Seq::new(
                        vs.len(),
                        |j: int|
                            if j < i {
                                readings[j]
                            } else {
                                reading
                            },
                    );
                    assert forall|j: int| 0 <= j < i implies (#[trigger] branch_of(
                        vs[j],
                        all[j],
                        mode,
                        format,
                    )) is Ok by {
                        assert(branch_of(vs[j], readings[j], mode, format) == Ok::<
                            BranchView,
                            Failure,
                        >(branches@[j]@));
                    }
                    lemma_first_failure(vs, all, 0, i as int, mode, format);
                    assert(branches_of(vs, all, mode, format) == branches_outcome(
                        Err::<Vec<Branch>, ExpandError>(error),
                    ));
                }
                return Err(error);
            },
        }
        i += 1;
    }
    proof {
        assert forall|j: int| 0 <= j < vs.len() implies (#[trigger] branch_of(
            vs[j],
            readings[j],
            mode,
            format,
        )) is Ok by {
            assert(branch_of(vs[j], readings[j], mode, format) == Ok::<BranchView, Failure>(
                branches@[j]@,
            ));
        }
        lemma_all_succeed(vs, readings, 0, mode, format);
        assert(branch_views(branches@) =~= Seq::new(
            vs.len(),
            |i: int| branch_of(vs[i], readings[i], mode, format)->Ok_0,
        )) by {
            assert forall|j: int| 0 <= j < vs.len() implies branch_views(branches@)[j]
                == branch_of(vs[j], readings[j], mode, format)->Ok_0 by {
                assert(branch_of(vs[j], readings[j], mode, format) == Ok::<BranchView, Failure>(
                    branches@[j]@,
                ));
            }
        }
        assert(branches_of(vs, readings, mode, format) == branches_outcome(
            Ok::<Vec<Branch>, ExpandError>(branches),
        ));
    }
    Ok(branches)
}

/// The implementation for the enumeration `ident` with `variants`, in `mode`.
fn implement(ident: &str, variants: &Vec<Variant>, mode: Mode, format: bool) -> (r: Result<
    Dispatch,
    ExpandError,
>)
    ensures
        derived(
            DeclarationView { ident: ident@, shape: Shape::Enum, variants: variant_views(variants@) },
            mode,
            format,
            dispatch_outcome(r),
        ),
        r matches Ok(dispatch) ==> dispatch@.well_formed(),
{
    let ghost d = DeclarationView {
        ident: ident@,
        shape: Shape::Enum,
        variants: variant_views(variants@),
    };
    let result = synthesize(variants, mode, format);
    let ghost readings = choose|readings: Seq<ReadingView>|
        readings.len() == variants@.len() && branches_of(
            variant_views(variants@),
            readings,
            mode,
            format,
        ) == branches_outcome(result);
    let r = match result {
        Ok(branches) => Ok(Dispatch { target: String::from_str(ident), mode, branches }),
        Err(error) => Err(error),
    };
    proof {
        lemma_total_has_text(d.variants, readings, format);
        assert(expansion(d, readings, mode, format) == dispatch_outcome(r));
    }
    r
}

/// The implementation of the total capability for the enumeration `ident`
/// with the variants `variants`.
pub fn impl_enum(ident: &str, variants: &Vec<Variant>, format: bool) -> (r: Result<
    Dispatch,
    ExpandError,
>)
    ensures
        derived(
            DeclarationView { ident: ident@, shape: Shape::Enum, variants: variant_views(variants@) },
            Mode::Total,
            format,
            dispatch_outcome(r),
        ),
        r matches Ok(dispatch) ==> dispatch@.well_formed(),
{
    implement(ident, variants, Mode::Total, format)
}

/// The implementation of the optional capability for the enumeration `ident`
/// with the variants `variants`.
pub fn impl_enum_optional(ident: &str, variants: &Vec<Variant>, format: bool) -> (r: Result<
    Dispatch,
    ExpandError,
>)
    ensures
        derived(
            DeclarationView { ident: ident@, shape: Shape::Enum, variants: variant_views(variants@) },
            Mode::Optional,
            format,
            dispatch_outcome(r),
        ),
        r matches Ok(dispatch) ==> dispatch@.well_formed(),
{
    implement(ident, variants, Mode::Optional, format)
}

/// The error for a declaration that is no enumeration.
fn refuse(input: &Declaration, mode: Mode, format: bool) -> (e: ExpandError)
    requires
        input.shape != Shape::Enum,
    ensures
        derived(input@, mode, format, Err::<DispatchView, Failure>(e@)),
        forall|readings: Seq<ReadingView>| #[trigger]
            expansion(input@, readings, mode, format) == Err::<DispatchView, Failure>(e@),
{
    let e = ExpandError::stock(ErrorKind::NotAnEnum, input.ident.as_str());
    proof {
        let readings = Seq::new(input@.variants.len(), |i: int| arbitrary::<ReadingView>());
        assert(expansion(input@, readings, mode, format) == Err::<DispatchView, Failure>(e@));
    }
    e
}

/// The total implementation for `input`, which must be an enumeration.
pub fn try_expand(input: &Declaration, format: bool) -> (r: Result<Dispatch, ExpandError>)
    ensures
        derived(input@, Mode::Total, format, dispatch_outcome(r)),
        r matches Ok(dispatch) ==> dispatch@.well_formed(),
        input.shape != Shape::Enum ==> dispatch_outcome(r) == Err::<DispatchView, Failure>(
            stock_failure(ErrorKind::NotAnEnum, input.ident@),
        ),
{
    match input.shape {
        Shape::Enum => impl_enum(input.ident.as_str(), &input.variants, format),
        _ => Err(refuse(input, Mode::Total, format)),
    }
}

/// The optional implementation for `input`, which must be an enumeration.
pub fn try_expand_optional(input: &Declaration, format: bool) -> (r: Result<Dispatch, ExpandError>)
    ensures
        derived(input@, Mode::Optional, format, dispatch_outcome(r)),
        r matches Ok(dispatch) ==> dispatch@.well_formed(),
        input.shape != Shape::Enum ==> dispatch_outcome(r) == Err::<DispatchView, Failure>(
            stock_failure(ErrorKind::NotAnEnum, input.ident@),
        ),
{
    match input.shape {
        Shape::Enum => impl_enum_optional(input.ident.as_str(), &input.variants, format),
        _ => Err(refuse(input, Mode::Optional, format)),
    }
}

/// Derives the total capability for `input`: every variant maps to its
/// text. `format` says whether format templates are supported. What fails is
/// handed back as the diagnostic that stands in for the implementation. The
/// output is the one that [`expansion`] gives for what the parser said of
/// each variant's arguments.
pub fn derive_description(input: &Declaration, format: bool) -> (out: Output)
    ensures
        derived(input@, Mode::Total, format, out@),
        out matches Output::Implementation(dispatch) ==> dispatch@.well_formed(),
        input.shape != Shape::Enum ==> out@ == Err::<DispatchView, Failure>(
            stock_failure(ErrorKind::NotAnEnum, input.ident@),
        ),
{
    match try_expand(input, format) {
        Ok(expanded) => Output::Implementation(expanded),
        Err(error) => Output::Diagnostic(error),
    }
}

/// Derives the optional capability for `input`: a variant maps to its text,
/// or to nothing where it has no annotation. `format` says whether format
/// templates are supported. What fails is handed back as the diagnostic that
/// stands in for the implementation. The output is the one that [`expansion`]
/// gives for what the parser said of each variant's arguments.
pub fn derive_optional_description(input: &Declaration, format: bool) -> (out: Output)
    ensures
        derived(input@, Mode::Optional, format, out@),
        out matches Output::Implementation(dispatch) ==> dispatch@.well_formed(),
        input.shape != Shape::Enum ==> out@ == Err::<DispatchView, Failure>(
            stock_failure(ErrorKind::NotAnEnum, input.ident@),
        ),
{
    match try_expand_optional(input, format) {
        Ok(expanded) => Output::Implementation(expanded),
        Err(error) => Output::Diagnostic(error),
    }
}

/// Where no variant at or after `from` fails, each of them has a branch.
pub proof fn lemma_no_failure(
    vs: Seq<VariantView>,
    readings: Seq<ReadingView>,
    from: int,
    mode: Mode,
    format: bool,
)
    requires
        0 <= from,
        first_failure(vs, readings, from, mode, format) is None,
    ensures
        forall|i: int|
            from <= i < vs.len() ==> (#[trigger] branch_of(vs[i], readings[i], mode, format))
                is Ok,
    decreases vs.len() - from,
{
    if from < vs.len() {
        lemma_no_failure(vs, readings, from + 1, mode, format);
    }
}

/// Where every variant at or after `from` has a branch, none of them is a
/// first failure.
pub proof fn lemma_all_succeed(
    vs: Seq<VariantView>,
    readings: Seq<ReadingView>,
    from: int,
    mode: Mode,
    format: bool,
)
    requires
        0 <= from,
        forall|i: int|
            from <= i < vs.len() ==> (#[trigger] branch_of(vs[i], readings[i], mode, format))
                is Ok,
    ensures
        first_failure(vs, readings, from, mode, format) is None,
    decreases vs.len() - from,
{
    if from < vs.len() {
        assert(branch_of(vs[from], readings[from], mode, format) is Ok);
        lemma_all_succeed(vs, readings, from + 1, mode, format);
    }
}

/// Where the variant at `at` fails and none from `from` up to it does, it is
/// the first failure at or after `from`.
pub proof fn lemma_first_failure(
    vs: Seq<VariantView>,
    readings: Seq<ReadingView>,
    from: int,
    at: int,
    mode: Mode,
    format: bool,
)
    requires
        0 <= from <= at < vs.len(),
        branch_of(vs[at], readings[at], mode, format) is Err,
        forall|i: int|
            from <= i < at ==> (#[trigger] branch_of(vs[i], readings[i], mode, format)) is Ok,
    ensures
        first_failure(vs, readings, from, mode, format) == Some(at),
    decreases at - from,
{
    if from < at {
        assert(branch_of(vs[from], readings[from], mode, format) is Ok);
        lemma_first_failure(vs, readings, from + 1, at, mode, format);
    }
}

/// A branch that exists has a text, unless the mode is optional.
pub proof fn lemma_total_has_text(vs: Seq<VariantView>, readings: Seq<ReadingView>, format: bool)
    ensures
        branches_of(vs, readings, Mode::Total, format) matches Ok(branches) ==> forall|i: int|
            0 <= i < branches.len() ==> !((#[trigger] branches[i]).arm is Absent),
{
    if first_failure(vs, readings, 0, Mode::Total, format) is None {
        lemma_no_failure(vs, readings, 0, Mode::Total, format);
        let branches = branches_of(vs, readings, Mode::Total, format)->Ok_0;
        assert forall|i: int| 0 <= i < branches.len() implies !((#[trigger] branches[i]).arm
            is Absent) by {
            assert(branch_of(vs[i], readings[i], Mode::Total, format) is Ok);
        }
    }
}

} // verus!
