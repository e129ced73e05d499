//! Source text of parameter lists, `where` clauses and type names.

use vstd::prelude::*;
use crate::model::{GenericParam, GenericParamView, Generics, GenericsView, ParamKind, param_views, text_views};
use crate::generics::{bare_names, param_names};

verus! {

/// `parts` with `sep` between each two neighbours.
pub open spec fn join(parts: Seq<Seq<char>>, sep: Seq<char>) -> Seq<char>
    decreases parts.len(),
{
    if parts.len() == 0 {
        Seq::empty()
    } else if parts.len() == 1 {
        parts[0]
    } else {
        join(parts.drop_last(), sep) + sep + parts.last()
    }
}

/// The declaration of one parameter: attributes, `const` for a const
/// parameter, the name, then the colon with the bounds and `=` with the
/// default where it has them.
pub open spec fn param_text(p: GenericParamView) -> Seq<char> {
    let attrs = if p.attrs.len() == 0 {
        p.attrs
    } else {
        p.attrs + " "@
    };
    let head = if p.kind == ParamKind::Const {
        attrs + "const "@ + p.name
    } else {
        attrs + p.name
    };
    let bounded = if p.bounds.len() == 0 {
        head
    } else {
        head + ": "@ + p.bounds
    };
    match p.default {
        Some(d) => bounded + " = "@ + d,
        None => bounded,
    }
}

/// The declarations of the parameters, in order.
pub open spec fn param_texts(params: Seq<GenericParamView>) -> Seq<Seq<char>> {
    Seq::new(params.len(), |i: int| param_text(params[i]))
}

/// `parts` between angle brackets, separated by commas; nothing where there
/// are no parts.
pub open spec fn angle_list(parts: Seq<Seq<char>>) -> Seq<char> {
    if parts.len() == 0 {
        Seq::empty()
    } else {
        "<"@ + join(parts, ", "@) + ">"@
    }
}

/// The declaration view of a parameter list: `<A: Bound, B = Default>`.
pub open spec fn generics_text(g: GenericsView) -> Seq<char> {
    angle_list(param_texts(g.params))
}

/// The `where` clause, with a space in front; nothing where there is no
/// predicate.
pub open spec fn where_text(g: GenericsView) -> Seq<char> {
    if g.where_predicates.len() == 0 {
        Seq::empty()
    } else {
        " where "@ + join(g.where_predicates, ", "@)
    }
}

/// The name of a declared generic type: `Name<A, B>`.
pub open spec fn type_text(ident: Seq<char>, params: Seq<GenericParamView>) -> Seq<char> {
    ident + angle_list(param_names(params))
}

/// Writes `open`, `inner` and `close` one after the other.
pub fn enclose(open: &str, inner: &str, close: &str) -> (r: String)
    ensures
        r@ == open@ + inner@ + close@,
{
    let mut out = String::from_str(open);
    out.append(inner);
    out.append(close);
    out
}

/// Joins `parts` with `sep`.
pub fn join_texts(parts: &Vec<String>, sep: &str) -> (r: String)
    ensures
        r@ == join(text_views(parts@), sep@),
{
    let ghost views = text_views(parts@);
    if parts.len() == 0 {
        return String::new();
    }
    let mut out = parts[0].clone();
    let mut i: usize = 1;
    proof {
        assert(views.subrange(0, 1).len() == 1);
        assert(views.subrange(0, 1)[0] == parts[0]@);
    }
    while i < parts.len()
        invariant
            1 <= i <= parts.len(),
            views == text_views(parts@),
            out@ == join(views.subrange(0, i as int), sep@),
        decreases parts.len() - i,
    {
        proof {
            let next = views.subrange(0, i + 1);
            assert(next.drop_last() =~= views.subrange(0, i as int));
            assert(next.last() == parts[i as int]@);
        }
        out.append(sep);
        out.append(parts[i].as_str());
        i = i + 1;
    }
    proof {
        assert(views.subrange(0, i as int) =~= views);
    }
    out
}

/// Writes the declaration of one parameter.
pub fn render_param(p: &GenericParam) -> (r: String)
    ensures
        r@ == param_text(p@),
{
    let mut out = p.attrs.clone();
    if p.attrs.as_str().unicode_len() != 0 {
        out.append(" ");
    }
    match p.kind {
        ParamKind::Const => {
            out.append("const ");
        },
        _ => {},
    }
    out.append(p.name.as_str());
    if p.bounds.as_str().unicode_len() != 0 {
        out.append(": ");
        out.append(p.bounds.as_str());
    }
    match &p.default {
        Some(d) => {
            out.append(" = ");
            out.append(d.as_str());
        },
        None => {},
    }
    out
}

/// Writes `parts` between angle brackets.
pub fn render_angle_list(parts: &Vec<String>) -> (r: String)
    ensures
        r@ == angle_list(text_views(parts@)),
{
    if parts.len() == 0 {
        return String::new();
    }
    let mut out = String::from_str("<");
    out.append(join_texts(parts, ", ").as_str());
    out.append(">");
    out
}

/// Writes the declaration view of a parameter list.
pub fn render_generics(g: &Generics) -> (r: String)
    ensures
        r@ == generics_text(g@),
{
    let mut parts: Vec<String> = Vec::new();
    let mut i: usize = 0;
    while i < g.params.len()
        invariant
            i <= g.params.len(),
            parts.len() == i,
            forall|j: int| 0 <= j < i ==> parts[j]@ == param_text(g.params[j]@),
        decreases g.params.len() - i,
    {
        parts.push(render_param(&g.params[i]));
        i = i + 1;
    }
    assert(text_views(parts@) =~= param_texts(g@.params));
    render_angle_list(&parts)
}

/// Writes the `where` clause.
pub fn render_where(g: &Generics) -> (r: String)
    ensures
        r@ == where_text(g@),
{
    if g.where_predicates.len() == 0 {
        return String::new();
    }
    let mut out = String::from_str(" where ");
    out.append(join_texts(&g.where_predicates, ", ").as_str());
    out
}

/// Writes the name of the generic type `ident` declared with `g`: the bare
/// view of its parameters behind its identifier.
pub fn render_type(ident: &str, g: &Generics) -> (r: String)
    ensures
        r@ == type_text(ident@, g@.params),
{
    let names = bare_names(g);
    let mut out = String::from_str(ident);
    out.append(render_angle_list(&names).as_str());
    out
}

} // verus!
