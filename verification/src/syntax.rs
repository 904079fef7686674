use vstd::prelude::*;

verus! {

/// The parser's error type, carried through unread.
#[verifier::external_type_specification]
#[verifier::external_body]
pub struct ExParseError(syn::Error);

/// A string literal: the text it stands for, and the token as it was written
/// (quotes, escapes and all).
#[derive(Clone, Debug, PartialEq, Eq)]
pub struct StrLiteral {
    pub value: String,
    pub token: String,
}

/// A string literal as the contracts read it.
pub struct LiteralView {
    pub value: Seq<char>,
    pub token: Seq<char>,
}

impl View for StrLiteral {
    type V = LiteralView;

    open spec fn view(&self) -> LiteralView {
        LiteralView { value: self.value@, token: self.token@ }
    }
}

/// Calls `syn::parse_str::<syn::LitStr>`, and on success `LitStr::value` and
/// `LitStr::token`. Trusted, and nothing is claimed of the outcome: which
/// lexer reads `source` depends on whether the process is a macro expansion,
/// and proc-macro2 keeps open that a lexing error panics there instead of
/// being returned.
#[verifier::external_body]
pub(crate) fn parse_literal(source: &str) -> (r: Result<StrLiteral, syn::Error>) {
    let lit = syn::parse_str::<syn::LitStr>(source)?;
    Ok(StrLiteral { value: lit.value(), token: lit.token().to_string() })
}

/// Calls `syn::parse_str::<proc_macro2::TokenStream>` and hands out the text
/// of the first token tree, if there is one. Trusted, and nothing is claimed
/// of the outcome: lexer and formatter depend on whether the process is a
/// macro expansion, and proc-macro2 keeps open that a lexing error panics
/// there instead of being returned.
#[verifier::external_body]
pub(crate) fn first_token(source: &str) -> (r: Result<Option<String>, syn::Error>) {
    let stream = syn::parse_str::<proc_macro2::TokenStream>(source)?;
    match stream.into_iter().next() {
        Some(tree) => Ok(Some(tree.to_string())),
        None => Ok(None),
    }
}

/// Calls `to_string` on a `syn::Error`, which gives its first message.
/// Trusted, and nothing is claimed of the text.
#[verifier::external_body]
pub(crate) fn diagnostic_text(error: &syn::Error) -> (text: String) {
    error.to_string()
}

} // verus!
