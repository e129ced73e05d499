use dep_inj::assemble::{derive_dep_inj, derive_dep_inj_impl, emit, render_def, target_def, target_def_named};
use dep_inj::items::{render_impl, render_struct, target_type};
use dep_inj::model::{Attribute, DeriveInput, GenericParam, Generics, ParamKind};
use dep_inj::validate::{target_from_parsed, target_ident, ValidationError};
use dep_inj::wrapper::{derive_type, target_struct, target_struct_named};

fn counter(attrs: Vec<Attribute>) -> DeriveInput {
    DeriveInput {
        attrs,
        vis: String::from("pub"),
        ident: String::from("Counter"),
        generics: Generics { params: vec![], where_predicates: vec![] },
    }
}

fn attribute(path: &str, tokens: &str) -> Attribute {
    Attribute { path: String::from(path), tokens: String::from(tokens) }
}

fn target(name: &str) -> Attribute {
    attribute("target", &format!("({})", name))
}

fn param(kind: ParamKind, name: &str, bounds: &str, default: Option<&str>) -> GenericParam {
    GenericParam {
        kind,
        attrs: String::new(),
        name: String::from(name),
        bounds: String::from(bounds),
        default: default.map(String::from),
    }
}

fn foo_state() -> DeriveInput {
    DeriveInput {
        attrs: vec![attribute("derive", "(Debug)"), target("Foo")],
        vis: String::new(),
        ident: String::from("FooState"),
        generics: Generics {
            params: vec![
                param(ParamKind::Lifetime, "'a", "", None),
                param(ParamKind::Type, "T", "Clone + 'a", Some("u8")),
                param(ParamKind::Const, "N", "usize", None),
            ],
            where_predicates: vec![String::from("T: Send")],
        },
    }
}

const COUNT_MESSAGE: &str = "requires exactly one target declaration";

#[test]
fn no_target_is_refused() {
    let err = derive_dep_inj_impl(&counter(vec![])).unwrap_err();
    assert_eq!(err.message(), COUNT_MESSAGE);
    let err = derive_dep_inj_impl(&counter(vec![attribute("derive", "(Debug)")]))
        .unwrap_err();
    assert_eq!(err.message(), COUNT_MESSAGE);
}

#[test]
fn two_targets_are_refused() {
    let err = derive_dep_inj_impl(&counter(vec![target("A"), target("B")])).unwrap_err();
    assert_eq!(err.message(), COUNT_MESSAGE);
    let err = derive_dep_inj_impl(&counter(vec![
        target("A"),
        attribute("inject", ""),
        target("A"),
    ]))
    .unwrap_err();
    assert_eq!(err.message(), COUNT_MESSAGE);
}

#[test]
fn one_target_is_accepted() {
    assert!(derive_dep_inj_impl(&counter(vec![target("CounterFacade")])).is_ok());
    assert!(target_def(&counter(vec![target("CounterFacade")])).is_ok());
    assert_eq!(target_ident(&counter(vec![target("CounterFacade")])).unwrap(), "CounterFacade");
}

#[test]
fn other_annotations_do_not_count() {
    let input = counter(vec![
        attribute("derive", "(Default, Debug)"),
        attribute("inject", "(x)"),
        target("Facade"),
        attribute("serde::target", "(Other)"),
        attribute("targets", "(Other)"),
    ]);
    assert_eq!(target_ident(&input).unwrap(), "Facade");
}

#[test]
fn the_single_target_is_found_wherever_it_stands() {
    let first = counter(vec![target("First"), attribute("doc", "")]);
    assert_eq!(target_ident(&first).unwrap(), "First");
    let last = counter(vec![attribute("doc", ""), attribute("inject", ""), target("Last")]);
    assert_eq!(target_ident(&last).unwrap(), "Last");
}

#[test]
fn target_without_arguments_is_refused() {
    let err = target_ident(&counter(vec![attribute("target", "")])).unwrap_err();
    assert_eq!(err.message(), "expected attribute arguments in parentheses: #[target(...)]");
    let err = target_ident(&counter(vec![attribute("target", "= Foo")])).unwrap_err();
    assert_eq!(err.message(), "expected parentheses: #[target(...)]");
    let err = target_ident(&counter(vec![attribute("target", "Foo")])).unwrap_err();
    assert_eq!(err.message(), "unexpected token in attribute arguments");
    let err = target_ident(&counter(vec![attribute("target", "(Foo) Bar")])).unwrap_err();
    assert_eq!(err.message(), "unexpected token in attribute arguments");
}

#[test]
fn target_in_any_brackets_is_accepted() {
    assert_eq!(target_ident(&counter(vec![attribute("target", "(Foo)")])).unwrap(), "Foo");
    assert_eq!(target_ident(&counter(vec![attribute("target", "[Foo]")])).unwrap(), "Foo");
    assert_eq!(target_ident(&counter(vec![attribute("target", "{Foo}")])).unwrap(), "Foo");
    assert_eq!(target_ident(&counter(vec![attribute("target", " ( Foo ) ")])).unwrap(), "Foo");
}

#[test]
fn tokens_that_cannot_be_read_are_refused() {
    assert!(target_ident(&counter(vec![attribute("target", "(Foo")])).is_err());
    assert!(target_ident(&counter(vec![attribute("target", "(\"Foo)")])).is_err());
}

#[test]
fn target_that_is_no_identifier_is_refused() {
    let err = target_ident(&counter(vec![target("struct")])).unwrap_err();
    assert_eq!(err.message(), "expected identifier");
    let err = target_ident(&counter(vec![target("A B")])).unwrap_err();
    assert_eq!(err.message(), "unexpected token");
    let err = target_ident(&counter(vec![target("")])).unwrap_err();
    assert_eq!(err.message(), "unexpected end of input, expected identifier");
    assert!(target_ident(&counter(vec![target("3")])).is_err());
    assert!(target_ident(&counter(vec![target("a::b")])).is_err());
    assert!(target_ident(&counter(vec![target("_")])).is_err());
}

#[test]
fn target_name_is_the_identifier_not_the_text() {
    assert_eq!(target_ident(&counter(vec![target("  Spaced  ")])).unwrap(), "Spaced");
    assert_eq!(target_ident(&counter(vec![target("/* note */ Noted")])).unwrap(), "Noted");
    assert_eq!(target_ident(&counter(vec![target("r#type")])).unwrap(), "r#type");
}

#[test]
fn outcome_for_given_parser_results() {
    assert_eq!(target_from_parsed(Ok(String::from("Foo"))).unwrap(), "Foo");
    let err = target_from_parsed(Err(String::from("expected identifier"))).unwrap_err();
    assert_eq!(err.message(), "expected identifier");
}

#[test]
fn refusal_expands_to_compile_error() {
    let out = derive_dep_inj(&counter(vec![]));
    assert_eq!(out, "compile_error ! { \"requires exactly one target declaration\" }");
    let out = derive_dep_inj(&counter(vec![target("A"), target("B")]));
    assert_eq!(out, "compile_error ! { \"requires exactly one target declaration\" }");
    let out = derive_dep_inj(&counter(vec![target("fn")]));
    assert_eq!(out, "compile_error ! { \"expected identifier\" }");
}

#[test]
fn emit_keeps_a_fragment_and_reports_a_refusal() {
    assert_eq!(emit(Ok(String::from("struct A;"))), "struct A;");
    let out = emit(Err(ValidationError { message: String::from("say \"no\"") }));
    assert_eq!(out, "compile_error ! { \"say \\\"no\\\"\" }");
}

#[test]
fn acceptance_expands_to_the_fragment() {
    let input = counter(vec![target("CounterFacade")]);
    assert_eq!(derive_dep_inj(&input), derive_dep_inj_impl(&input).unwrap());
    let def = target_def(&input).unwrap();
    assert_eq!(render_def(&def), derive_dep_inj_impl(&input).unwrap());
}

#[test]
fn generation_is_repeatable() {
    let a = derive_dep_inj_impl(&foo_state()).unwrap();
    let b = derive_dep_inj_impl(&foo_state()).unwrap();
    assert_eq!(a, b);
    assert_eq!(derive_dep_inj(&counter(vec![])), derive_dep_inj(&counter(vec![])));
}

#[test]
fn state_type_is_named_with_bare_parameters() {
    assert_eq!(derive_type(&counter(vec![])), "Counter");
    assert_eq!(derive_type(&foo_state()), "FooState<'a, T, N>");
}

#[test]
fn wrapper_struct_for_counter() {
    let input = counter(vec![target("CounterFacade")]);
    let s = target_struct(&input, "Counter").unwrap();
    assert_eq!(s.ident, "CounterFacade");
    assert_eq!(s.vis, "pub");
    assert_eq!(s.attrs, vec![String::from("#[repr(transparent)]")]);
    assert_eq!(s.marker_type, "::core::marker::PhantomData<fn() -> Counter>");
    assert_eq!(s.payload_type, "__Deps__");
    assert_eq!(s.generics.params.len(), 1);
    assert_eq!(s.generics.params[0].name, "__Deps__");
    assert_eq!(s.generics.params[0].bounds, "?Sized");
    assert_eq!(s.generics.params[0].kind, ParamKind::Type);
    assert_eq!(
        render_struct(&s),
        "#[repr(transparent)] pub struct CounterFacade<__Deps__: ?Sized> { _marker: ::core::marker::PhantomData<fn() -> Counter>, deps: __Deps__ }"
    );
    assert_eq!(target_type(&s), "CounterFacade<__Deps__>");
}

#[test]
fn wrapper_struct_keeps_parameters_and_where_clause() {
    let input = foo_state();
    let s = target_struct_named(&input, "FooState<'a, T, N>", String::from("Foo"));
    assert_eq!(
        render_struct(&s),
        "#[repr(transparent)] struct Foo<'a, T: Clone + 'a = u8, const N: usize, __Deps__: ?Sized> where T: Send { _marker: ::core::marker::PhantomData<fn() -> FooState<'a, T, N>>, deps: __Deps__ }"
    );
    assert_eq!(target_type(&s), "Foo<'a, T, N, __Deps__>");
    assert_eq!(s.generics.params.len(), 4);
    assert_eq!(s.generics.params[3].name, "__Deps__");
}

#[test]
fn wrapper_struct_is_refused_with_the_declaration() {
    let err = target_struct(&counter(vec![]), "Counter").unwrap_err();
    assert_eq!(err.message(), COUNT_MESSAGE);
}

#[test]
fn items_come_in_the_fixed_order() {
    let def = target_def_named(&counter(vec![]), String::from("CounterFacade"));
    let traits: Vec<Option<&str>> = def.impls.iter().map(|i| i.trait_path.as_deref()).collect();
    assert_eq!(
        traits,
        vec![
            Some("Copy"),
            Some("::core::ops::Deref"),
            Some("::core::ops::DerefMut"),
            Some("From<CounterFacade<__Deps__>>"),
            Some("Clone"),
            Some("PartialEq<CounterFacade<__RHS__>>"),
            Some("Eq"),
            Some("PartialOrd<CounterFacade<__RHS__>>"),
            Some("Ord"),
            Some("::core::hash::Hash"),
            Some("::core::fmt::Debug"),
            None,
            None,
        ]
    );
    assert_eq!(def.impls[11].items.len(), 18);
    assert_eq!(def.impls[12].items.len(), 2);
    let text = render_def(&def);
    let mut at = 0;
    for i in def.impls.iter() {
        let piece = render_impl(i);
        let found = text[at..].find(&piece).expect("each impl stands in the fragment");
        at += found + piece.len();
    }
    assert!(text.starts_with(&render_struct(&def.target_struct)));
    assert_eq!(at, text.len());
}

#[test]
fn no_thread_safety_marker_is_generated() {
    let def = target_def_named(&foo_state(), String::from("Foo"));
    for i in def.impls.iter() {
        let name = i.trait_path.as_deref().unwrap_or("");
        assert!(name != "Send" && name != "Sync");
    }
    let text = render_def(&def);
    assert!(!text.contains("unsafe impl"));
    assert!(!text.contains(" Send for "));
    assert!(!text.contains(" Sync for "));
}
