use vstd::prelude::*;

verus! {

/// One attribute written above a variant: its name, and the text between its
/// parentheses where it has an argument list (`None` for `#[name]` and
/// `#[name = ..]`).
#[derive(Clone, Debug, PartialEq, Eq)]
pub struct Annotation {
    pub name: String,
    pub args: Option<String>,
}

/// An attribute as the contracts read it.
pub struct AnnotationView {
    pub name: Seq<char>,
    pub args: Option<Seq<char>>,
}

impl View for Annotation {
    type V = AnnotationView;

    open spec fn view(&self) -> AnnotationView {
        AnnotationView {
            name: self.name@,
            args: match self.args {
                Some(a) => Some(a@),
                None => None,
            },
        }
    }
}

/// The attributes of a variant as the contracts read them.
pub open spec fn annotation_views(attrs: Seq<Annotation>) -> Seq<AnnotationView> {
    attrs.map_values(|a: Annotation| a@)
}

/// A variant of an enumeration: its identifier and its attributes, in the
/// order in which they are written.
#[derive(Clone, Debug, PartialEq, Eq)]
pub struct Variant {
    pub ident: String,
    pub attrs: Vec<Annotation>,
}

/// A variant as the contracts read it.
pub struct VariantView {
    pub ident: Seq<char>,
    pub attrs: Seq<AnnotationView>,
}

impl View for Variant {
    type V = VariantView;

    open spec fn view(&self) -> VariantView {
        VariantView { ident: self.ident@, attrs: annotation_views(self.attrs@) }
    }
}

/// The variants of a declaration as the contracts read them.
pub open spec fn variant_views(variants: Seq<Variant>) -> Seq<VariantView> {
    variants.map_values(|v: Variant| v@)
}

/// What kind of type a declaration declares.
#[derive(Clone, Copy, Debug, PartialEq, Eq, Structural)]
pub enum Shape {
    Enum,
    Struct,
    Union,
}

/// The declaration a derivation is asked for. `variants` is read only where
/// `shape` is [`Shape::Enum`].
#[derive(Clone, Debug, PartialEq, Eq)]
pub struct Declaration {
    pub ident: String,
    pub shape: Shape,
    pub variants: Vec<Variant>,
}

/// A declaration as the contracts read it.
pub struct DeclarationView {
    pub ident: Seq<char>,
    pub shape: Shape,
    pub variants: Seq<VariantView>,
}

impl View for Declaration {
    type V = DeclarationView;

    open spec fn view(&self) -> DeclarationView {
        DeclarationView {
            ident: self.ident@,
            shape: self.shape,
            variants: variant_views(self.variants@),
        }
    }
}

/// Which capability is generated: [`Mode::Total`] gives every variant a text,
/// [`Mode::Optional`] lets a variant go without.
#[derive(Clone, Copy, Debug, PartialEq, Eq, Structural)]
pub enum Mode {
    Total,
    Optional,
}

/// The right-hand side of one branch of the generated `match`.
#[derive(Clone, Debug, PartialEq, Eq)]
pub enum Arm {
    /// A string literal, held as the token that was written.
    Literal(String),
    /// A format template with its arguments, held as written; the generated
    /// code formats them at compile time.
    Format(String),
    /// No text: only in [`Mode::Optional`].
    Absent,
}

/// A right-hand side as the contracts read it.
pub enum ArmView {
    Literal(Seq<char>),
    Format(Seq<char>),
    Absent,
}

impl View for Arm {
    type V = ArmView;

    open spec fn view(&self) -> ArmView {
        match self {
            Arm::Literal(t) => ArmView::Literal(t@),
            Arm::Format(a) => ArmView::Format(a@),
            Arm::Absent => ArmView::Absent,
        }
    }
}

/// One branch of the generated `match`: a variant and what it maps to.
#[derive(Clone, Debug, PartialEq, Eq)]
pub struct Branch {
    pub variant: String,
    pub arm: Arm,
}

/// A branch as the contracts read it.
pub struct BranchView {
    pub variant: Seq<char>,
    pub arm: ArmView,
}

impl View for Branch {
    type V = BranchView;

    open spec fn view(&self) -> BranchView {
        BranchView { variant: self.variant@, arm: self.arm@ }
    }
}

/// The branches of a dispatch as the contracts read them.
pub open spec fn branch_views(branches: Seq<Branch>) -> Seq<BranchView> {
    branches.map_values(|b: Branch| b@)
}

/// A generated implementation: the type it is for, the capability, and one
/// branch for each variant, in the order of the declaration.
#[derive(Clone, Debug, PartialEq, Eq)]
pub struct Dispatch {
    pub target: String,
    pub mode: Mode,
    pub branches: Vec<Branch>,
}

/// An implementation as the contracts read it.
pub struct DispatchView {
    pub target: Seq<char>,
    pub mode: Mode,
    pub branches: Seq<BranchView>,
}

impl View for Dispatch {
    type V = DispatchView;

    open spec fn view(&self) -> DispatchView {
        DispatchView {
            target: self.target@,
            mode: self.mode,
            branches: branch_views(self.branches@),
        }
    }
}

impl DispatchView {
    /// A total dispatch has a text in every branch.
    pub open spec fn well_formed(self) -> bool {
        self.mode == Mode::Total ==> forall|i: int|
            0 <= i < self.branches.len() ==> !((#[trigger] self.branches[i]).arm is Absent)
    }
}

/// Why a derivation failed.
#[derive(Clone, Copy, Debug, PartialEq, Eq, Structural)]
pub enum ErrorKind {
    /// The declaration is a struct or a union.
    NotAnEnum,
    /// A variant has no `description` attribute, and the mode is total.
    MissingAnnotation,
    /// The annotation has no argument list: it is written `#[description]`
    /// or `#[description = ..]`.
    NoArguments,
    /// The arguments of the annotation are not tokens.
    Syntax,
    /// The arguments are tokens, but neither one string literal nor a
    /// string literal followed by more.
    NotLiteral,
    /// The annotation asks for formatting, which is switched off.
    FormatDisabled,
}

/// A failed derivation: the kind, the identifier of the variant (or, for
/// [`ErrorKind::NotAnEnum`], of the declaration) it is reported at, and the
/// message for the user.
#[derive(Clone, Debug, PartialEq, Eq)]
pub struct ExpandError {
    pub kind: ErrorKind,
    pub subject: String,
    pub message: String,
}

/// A failure as the contracts read it: what went wrong, where, and in which
/// words.
pub struct Failure {
    pub kind: ErrorKind,
    pub subject: Seq<char>,
    pub message: Seq<char>,
}

impl View for ExpandError {
    type V = Failure;

    open spec fn view(&self) -> Failure {
        Failure { kind: self.kind, subject: self.subject@, message: self.message@ }
    }
}

/// The message of a kind of error whose wording is this library's own. The
/// other kinds carry what the parser said.
pub open spec fn stock_message(kind: ErrorKind) -> Option<Seq<char>> {
    match kind {
        ErrorKind::NotAnEnum => Some("Description cannot be implemented on structs or unions"@),
        ErrorKind::MissingAnnotation => Some("Missing 'description' attribute"@),
        ErrorKind::NoArguments => Some(
            "expected attribute arguments in parentheses: #[description(...)]"@,
        ),
        ErrorKind::FormatDisabled => Some(
            "You need the 'format' feature to use format arguments"@,
        ),
        ErrorKind::Syntax => None,
        ErrorKind::NotLiteral => None,
    }
}

/// The failure of a kind whose wording is fixed, at `subject`.
pub open spec fn stock_failure(kind: ErrorKind, subject: Seq<char>) -> Failure {
    Failure { kind, subject, message: stock_message(kind)->0 }
}

impl ExpandError {
    /// The error of a kind whose wording is fixed, reported at `subject`.
    pub(crate) fn stock(kind: ErrorKind, subject: &str) -> (e: ExpandError)
        requires
            stock_message(kind) is Some,
        ensures
            e@ == stock_failure(kind, subject@),
    {
        let text = match kind {
            ErrorKind::NotAnEnum => "Description cannot be implemented on structs or unions",
            ErrorKind::MissingAnnotation => "Missing 'description' attribute",
            ErrorKind::NoArguments => {
                "expected attribute arguments in parentheses: #[description(...)]"
            },
            _ => "You need the 'format' feature to use format arguments",
        };
        ExpandError {
            kind,
            subject: String::from_str(subject),
            message: String::from_str(text),
        }
    }
}

/// What a derivation hands back: the implementation, or the diagnostic that
/// takes its place.
#[derive(Clone, Debug, PartialEq, Eq)]
pub enum Output {
    Implementation(Dispatch),
    Diagnostic(ExpandError),
}

impl View for Output {
    type V = Result<DispatchView, Failure>;

    open spec fn view(&self) -> Result<DispatchView, Failure> {
        match self {
            Output::Implementation(dispatch) => Ok(dispatch@),
            Output::Diagnostic(error) => Err(error@),
        }
    }
}

} // verus!
