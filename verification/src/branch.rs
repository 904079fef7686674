use crate::model::stock_message;
use crate::model::Arm;
use crate::model::ArmView;
use crate::model::Branch;
use crate::model::ErrorKind;
use crate::model::ExpandError;
use crate::reading::literal_view;
use crate::reading::Lexed;
use crate::reading::LexedView;
use crate::syntax::LiteralView;
use crate::syntax::StrLiteral;
use vstd::prelude::*;

verus! {

/// How an annotation is read: as the text itself, or as a template to format.
#[derive(Clone, Copy, Debug, PartialEq, Eq, Structural)]
pub enum Route {
    Plain,
    Format,
}

/// `text` holds a brace, opening or closing.
pub open spec fn has_brace(text: Seq<char>) -> bool {
    text.contains('{') || text.contains('}')
}

/// The route of an annotation, given what its arguments are as one string
/// literal (`None`: they are no such literal). Only a literal without a brace
/// is plain text. Whether formatting is switched on plays no part.
pub open spec fn route(literal: Option<LiteralView>) -> Route {
    match literal {
        Some(l) => if has_brace(l.value) {
            Route::Format
        } else {
            Route::Plain
        },
        None => Route::Format,
    }
}

/// The error that formatting is off, in its fixed words.
pub open spec fn format_disabled() -> (ErrorKind, Seq<char>) {
    (ErrorKind::FormatDisabled, stock_message(ErrorKind::FormatDisabled)->0)
}

/// The right-hand side for an annotation with the arguments `args`, or the
/// kind and message of its error. `literal` is what the arguments came to as
/// exactly one string literal, `lexed` what the lexer made of them.
///
/// Plain text gives the literal's token back as it was written. A format
/// request is a string literal with a brace, or a string literal followed by
/// more. With formatting on it gives the arguments back as they were written;
/// with formatting off it is an error: that formatting is off where the
/// literal holds a brace, else the parser's own. Arguments that are no tokens
/// fail with the lexer's message, and arguments that do not begin with a
/// string literal with the parser's.
pub open spec fn arm_from(
    literal: Result<LiteralView, Seq<char>>,
    lexed: LexedView,
    args: Seq<char>,
    format: bool,
) -> Result<ArmView, (ErrorKind, Seq<char>)> {
    match literal {
        Ok(l) => match route(Some(l)) {
            Route::Plain => Ok(ArmView::Literal(l.token)),
            Route::Format => if format {
                Ok(ArmView::Format(args))
            } else {
                Err(format_disabled())
            },
        },
        Err(said) => match lexed {
            LexedView::NoTokens(why) => Err((ErrorKind::Syntax, why)),
            LexedView::Empty => Err((ErrorKind::NotLiteral, said)),
            LexedView::First(None) => Err((ErrorKind::NotLiteral, said)),
            LexedView::First(Some(first)) => if format {
                Ok(ArmView::Format(args))
            } else if has_brace(first.value) {
                Err(format_disabled())
            } else {
                Err((ErrorKind::NotLiteral, said))
            },
        },
    }
}

/// Whether `text` holds a brace, opening or closing.
pub fn contains_brace(text: &str) -> (r: bool)
    ensures
        r == has_brace(text@),
{
    let n: usize = text.unicode_len();
    let mut i: usize = 0;
    while i < n
        invariant
            n == text@.len(),
            i <= n,
            forall|j: int| 0 <= j < i ==> text@[j] != '{' && text@[j] != '}',
        decreases n - i,
    {
        let c = text.get_char(i);
        if c == '{' || c == '}' {
            return true;
        }
        i += 1;
    }
    false
}

/// The route of an annotation whose arguments, read as one string literal,
/// are `literal`.
pub fn classify(literal: Option<&StrLiteral>) -> (r: Route)
    ensures
        r == route(
            match literal {
                Some(l) => Some(l@),
                None => None,
            },
        ),
{
    match literal {
        Some(l) => if contains_brace(l.value.as_str()) {
            Route::Format
        } else {
            Route::Plain
        },
        None => Route::Format,
    }
}

/// The branch for the variant `variant_ident`, whose annotation has the
/// arguments `args`. `literal` is what parsing them as exactly one string
/// literal came to, `lexed` what the lexer made of them. The branch, or the
/// kind and message of the error, is the one that [`arm_from`] gives.
pub fn parse_args(
    variant_ident: &str,
    literal: Result<StrLiteral, String>,
    lexed: Lexed,
    args: &str,
    format: bool,
) -> (r: Result<Branch, ExpandError>)
    ensures
        match r {
            Ok(b) => b.variant@ == variant_ident@ && arm_from(
                literal_view(literal),
                lexed@,
                args@,
                format,
            ) == Ok::<ArmView, (ErrorKind, Seq<char>)>(b.arm@),
            Err(e) => e.subject@ == variant_ident@ && arm_from(
                literal_view(literal),
                lexed@,
                args@,
                format,
            ) == Err::<ArmView, (ErrorKind, Seq<char>)>((e.kind, e.message@)),
        },
{
    let variant = String::from_str(variant_ident);
    match literal {
        Ok(l) => match classify(Some(&l)) {
            Route::Plain => Ok(Branch { variant, arm: Arm::Literal(l.token) }),
            Route::Format => if format {
                Ok(Branch { variant, arm: Arm::Format(String::from_str(args)) })
            } else {
                Err(ExpandError::stock(ErrorKind::FormatDisabled, variant_ident))
            },
        },
        Err(said) => match lexed {
            Lexed::NoTokens(why) => Err(
                ExpandError { kind: ErrorKind::Syntax, subject: variant, message: why },
            ),
            Lexed::First(Some(first)) => if format {
                Ok(Branch { variant, arm: Arm::Format(String::from_str(args)) })
            } else if contains_brace(first.value.as_str()) {
                Err(ExpandError::stock(ErrorKind::FormatDisabled, variant_ident))
            } else {
                Err(ExpandError { kind: ErrorKind::NotLiteral, subject: variant, message: said })
            },
            _ => Err(ExpandError { kind: ErrorKind::NotLiteral, subject: variant, message: said }),
        },
    }
}

} // verus!
