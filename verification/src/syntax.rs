//! What is left to the token parser: reading the one identifier in the
//! arguments of an annotation, and writing a refusal as tokens.
//!
//! Both are named here, not spelled out. What stands behind each name is
//! what the parser and printer of the host do with the text: in any build of
//! this library outside a procedural macro that is proc-macro2's own lexer
//! and printer, which the text alone decides. Inside a procedural macro the
//! compiler lexes and prints, and the names then stand for what that
//! compiler does.

use vstd::prelude::*;

verus! {

/// What `syn::Attribute::parse_args::<syn::Ident>` makes of the outer
/// annotation `#[path tokens]`: the identifier between its brackets, as
/// `Ident::to_string` prints it, or the message of the refusal, as
/// `syn::Error::to_string` prints it. A `path` or `tokens` that the parser
/// cannot read as a path or as tokens is refused with the parser's message
/// for that.
pub uninterp spec fn attribute_ident(path: Seq<char>, tokens: Seq<char>) -> Result<
    Seq<char>,
    Seq<char>,
>;

/// An outcome with both of its texts as sequences of characters.
pub open spec fn text_outcome(r: Result<String, String>) -> Result<Seq<char>, Seq<char>> {
    match r {
        Ok(text) => Ok(text@),
        Err(message) => Err(message@),
    }
}

/// Reads `path` with `syn::parse_str::<syn::Path>` and `tokens` with
/// `syn::parse_str::<TokenStream>`, makes the outer `syn::Attribute` of the
/// two, calls `parse_args::<syn::Ident>` on it, and prints what comes back,
/// the identifier or the error, with `to_string`. The contract only names
/// the outcome: which arguments are one identifier, in which brackets, and
/// what each refusal says, is the parser's business. The claim is that the
/// two texts decide the outcome, which holds on one host (see the head of
/// this file).
#[verifier::external_body]
pub(crate) fn parse_args_ident(path: &str, tokens: &str) -> (r: Result<String, String>)
    ensures
        text_outcome(r) == attribute_ident(path@, tokens@),
{
    let path = match syn::parse_str::<syn::Path>(path) {
        Ok(path) => path,
        Err(e) => return Err(e.to_string()),
    };
    let tokens = match syn::parse_str::<proc_macro2::TokenStream>(tokens) {
        Ok(tokens) => tokens,
        Err(e) => return Err(e.to_string()),
    };
    let pound_token = Default::default();
    let bracket_token = Default::default();
    let style = syn::AttrStyle::Outer;
    match (syn::Attribute { pound_token, style, bracket_token, path, tokens }).parse_args::<syn::Ident>() {
        Ok(ident) => Ok(ident.to_string()),
        Err(e) => Err(e.to_string()),
    }
}

/// The tokens of the `compile_error!` invocation that reports `message`, as
/// `syn::Error::into_compile_error` builds them and `TokenStream::to_string`
/// prints them.
pub uninterp spec fn compile_error_text(message: Seq<char>) -> Seq<char>;

/// Makes a `syn::Error` of `message` at the call site, turns it into its
/// `compile_error!` invocation with `into_compile_error`, and prints the
/// tokens. The contract only names the outcome. The claim is that the
/// message decides the text, which holds on one host (see the head of this
/// file): how tokens are spaced in print is the printer's choice.
#[verifier::external_body]
pub(crate) fn compile_error_tokens(message: &str) -> (r: String)
    ensures
        r@ == compile_error_text(message@),
{
    syn::Error::new(proc_macro2::Span::call_site(), message).into_compile_error().to_string()
}

} // verus!
