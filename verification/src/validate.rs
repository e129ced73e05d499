//! Reading the target name off the annotations of a declaration.

use vstd::prelude::*;
use crate::model::{AttributeView, DeriveInput, DeriveInputView};
use crate::syntax::{attribute_ident, parse_args_ident, text_outcome};

verus! {

/// The path of the annotation that names the target.
pub const TARGET_PATH: &'static str = "target";

/// The diagnostic for a declaration that does not carry exactly one target
/// annotation.
pub const TARGET_COUNT_MESSAGE: &'static str = "requires exactly one target declaration";

/// Why a declaration was refused.
#[derive(Debug)]
pub struct ValidationError {
    pub message: String,
}

impl View for ValidationError {
    type V = Seq<char>;

    open spec fn view(&self) -> Seq<char> {
        self.message@
    }
}

impl ValidationError {
    /// The text of the diagnostic.
    pub fn message(&self) -> (r: String)
        ensures
            r@ == self@,
    {
        self.message.clone()
    }
}

/// The target annotations among `attrs`, in order.
pub open spec fn target_attrs(attrs: Seq<AttributeView>) -> Seq<AttributeView> {
    attrs.filter(|a: AttributeView| a.path == TARGET_PATH@)
}

/// What validation comes to: the name of the target, or the diagnostic.
/// A declaration is refused with the fixed diagnostic unless it carries
/// exactly one target annotation; with one, the outcome is what the token
/// parser reads in the annotation's arguments.
pub open spec fn target_of(input: DeriveInputView) -> Result<Seq<char>, Seq<char>> {
    let found = target_attrs(input.attrs);
    if found.len() != 1 {
        Err(TARGET_COUNT_MESSAGE@)
    } else {
        attribute_ident(found[0].path, found[0].tokens)
    }
}

/// Whether generation goes ahead.
pub open spec fn has_target(input: DeriveInputView) -> bool {
    target_of(input) is Ok
}

/// The name of the target, where `has_target` holds.
pub open spec fn target_name(input: DeriveInputView) -> Seq<char> {
    target_of(input)->Ok_0
}

/// Whether the outcome `r` is the one that `expected` describes.
pub open spec fn is_outcome(r: Result<String, ValidationError>, expected: Result<Seq<char>, Seq<char>>) -> bool {
    match r {
        Ok(name) => expected == Ok::<Seq<char>, Seq<char>>(name@),
        Err(e) => expected == Err::<Seq<char>, Seq<char>>(e@),
    }
}

/// The outcome for a declaration with a single target annotation, given
/// what the token parser read in the annotation's arguments: the name, or a
/// refusal with the parser's message.
pub fn target_from_parsed(parsed: Result<String, String>) -> (r: Result<String, ValidationError>)
    ensures
        is_outcome(r, text_outcome(parsed)),
{
    match parsed {
        Ok(name) => Ok(name),
        Err(message) => Err(ValidationError { message }),
    }
}

/// Reads the target name. A declaration with no target annotation, or with
/// more than one, is refused with the fixed diagnostic; one with a single
/// target annotation is accepted where the token parser reads one
/// identifier in the annotation's arguments, which is then the name.
pub fn target_ident(input: &DeriveInput) -> (r: Result<String, ValidationError>)
    ensures
        is_outcome(r, target_of(input@)),
        r is Ok <==> has_target(input@),
        target_attrs(input@.attrs).len() != 1 ==> r is Err && r->Err_0@ == TARGET_COUNT_MESSAGE@,
{
    let key = String::from_str(TARGET_PATH);
    let mut count: usize = 0;
    let mut first: usize = 0;
    let mut i: usize = 0;
    let ghost views = input@.attrs;
    while i < input.attrs.len()
        invariant
            i <= input.attrs.len(),
            views == input@.attrs,
            views.len() == input.attrs.len(),
            key@ == TARGET_PATH@,
            count == target_attrs(views.subrange(0, i as int)).len(),
            count <= i,
            count >= 1 ==> first < i && target_attrs(views.subrange(0, i as int))[0]
                == views[first as int],
        decreases input.attrs.len() - i,
    {
        proof {
            reveal(Seq::filter);
            assert(views.subrange(0, i + 1).drop_last() =~= views.subrange(0, i as int));
            assert(views.subrange(0, i + 1).last() == views[i as int]);
        }
        if input.attrs[i].path == key {
            if count == 0 {
                first = i;
            }
            count = count + 1;
        }
        i = i + 1;
    }
    proof {
        assert(views.subrange(0, i as int) =~= views);
    }
    if count != 1 {
        return Err(ValidationError { message: String::from_str(TARGET_COUNT_MESSAGE) });
    }
    let attr = &input.attrs[first];
    target_from_parsed(parse_args_ident(attr.path.as_str(), attr.tokens.as_str()))
}

} // verus!
