//! Trusted facade over `syn`'s token stream: the only unverified reads.

use vstd::prelude::*;

verus! {

#[verifier::external_type_specification]
#[verifier::external_body]
pub struct ExParseBuffer<'a>(syn::parse::ParseBuffer<'a>);

#[verifier::external_type_specification]
#[verifier::external_body]
pub struct ExSynError(syn::Error);

/// Relies on syn's ParseBuffer::is_empty: whether any token is left.
#[verifier::external_body]
pub(crate) fn stream_is_empty(input: syn::parse::ParseStream<'_>) -> bool {
    input.is_empty()
}

/// Relies on syn's ParseBuffer::parse::<Ident> to read one identifier token,
/// and on proc-macro2's Display for Ident for that identifier's text.
#[verifier::external_body]
pub(crate) fn parse_ident_string(input: syn::parse::ParseStream<'_>) -> Result<String, syn::Error> {
    input.parse::<syn::Ident>().map(|i| i.to_string())
}

/// Relies on syn's ParseBuffer::parse::<token::Colon> to read one `:` token.
#[verifier::external_body]
pub(crate) fn parse_colon(input: syn::parse::ParseStream<'_>) -> Result<(), syn::Error> {
    input.parse::<syn::token::Colon>().map(|_| ())
}

/// Relies on syn's ParseBuffer::parse::<token::Comma> to read one `,` token.
#[verifier::external_body]
pub(crate) fn parse_comma(input: syn::parse::ParseStream<'_>) -> Result<(), syn::Error> {
    input.parse::<syn::token::Comma>().map(|_| ())
}

/// Relies on syn's ParseBuffer::parse::<LitStr> to read one string literal,
/// and on LitStr::value for that literal's contents.
#[verifier::external_body]
pub(crate) fn parse_string_literal(input: syn::parse::ParseStream<'_>) -> Result<
    String,
    syn::Error,
> {
    input.parse::<syn::LitStr>().map(|l| l.value())
}

/// Relies on syn's ParseBuffer::parse::<LitBool> to read one boolean literal,
/// and on LitBool::value for its value.
#[verifier::external_body]
pub(crate) fn parse_bool_literal(input: syn::parse::ParseStream<'_>) -> Result<bool, syn::Error> {
    input.parse::<syn::LitBool>().map(|l| l.value())
}

} // verus!
