use declmodel::{
    Delimiter, Enum, EnumVariant, GroupSpan, Ident, NamedField, NamedStructFields, Punct,
    Punctuated, Spacing, StructFields, TokenTree, TupleField, TupleStructFields, TyExpr,
};
use proc_macro2::Span;

fn e_ident(text: &str) -> Ident {
    Ident::new(text, Span::call_site())
}

fn e_comma() -> Punct {
    Punct { ch: ',', spacing: Spacing::Alone, span: Span::call_site() }
}

fn e_span(delimiter: Delimiter) -> GroupSpan {
    GroupSpan { span: Span::call_site(), delimiter }
}

fn e_tuple(types: &[&str]) -> StructFields {
    let mut list = Punctuated::new();
    for ty in types {
        let ty = TyExpr { tokens: vec![TokenTree::Ident(e_ident(ty))] };
        list.push(TupleField { attributes: Vec::new(), vis_marker: None, ty }, None);
    }
    StructFields::Tuple(TupleStructFields { fields: list, tk_parens: e_span(Delimiter::Parenthesis) })
}

fn e_named(name: &str, ty: &str) -> StructFields {
    let mut list = Punctuated::new();
    let field = NamedField {
        attributes: Vec::new(),
        vis_marker: None,
        name: e_ident(name),
        tk_colon: Punct { ch: ':', spacing: Spacing::Alone, span: Span::call_site() },
        ty: TyExpr { tokens: vec![TokenTree::Ident(e_ident(ty))] },
    };
    list.push(field, None);
    StructFields::Named(NamedStructFields { fields: list, tk_braces: e_span(Delimiter::Brace) })
}

fn e_variant(name: &str, contents: StructFields) -> EnumVariant {
    EnumVariant { attributes: Vec::new(), vis_marker: None, name: e_ident(name), contents, discriminant: None }
}

fn e_enum(name: &str, variants: Vec<EnumVariant>) -> Enum {
    let mut list = Punctuated::new();
    for v in variants {
        list.push(v, Some(e_comma()));
    }
    Enum {
        attributes: Vec::new(),
        vis_marker: None,
        tk_enum: e_ident("enum"),
        name: e_ident(name),
        generic_params: None,
        where_clause: None,
        variants: list,
        tk_braces: e_span(Delimiter::Brace),
    }
}

#[test]
fn enum_of_names_is_c_enum() {
    let e = e_enum(
        "MyEnum",
        vec![
            e_variant("A", StructFields::Unit),
            e_variant("B", StructFields::Unit),
            e_variant("C", StructFields::Unit),
            e_variant("D", StructFields::Unit),
        ],
    );
    assert!(e.is_c_enum());
}

#[test]
fn enum_with_payload_is_no_c_enum() {
    let e = e_enum("E", vec![e_variant("A", e_tuple(&["i32"])), e_variant("B", StructFields::Unit)]);
    assert!(!e.is_c_enum());
    let a = e.variants.get(0);
    let b = e.variants.get(1);
    let single = a.get_single_type().expect("A wraps one type");
    assert!(matches!(&single.ty.tokens[0], TokenTree::Ident(id) if id.text == "i32"));
    assert_eq!(single.ty.tokens.len(), 1);
    assert!(b.get_single_type().is_none());
}

#[test]
fn enum_without_variants_is_c_enum() {
    let e = e_enum("Never", Vec::new());
    assert!(e.is_c_enum());
}

#[test]
fn payload_in_last_variant_is_found() {
    let e = e_enum(
        "E",
        vec![e_variant("A", StructFields::Unit), e_variant("B", StructFields::Unit), e_variant("C", e_named("x", "u8"))],
    );
    assert!(!e.is_c_enum());
}

#[test]
fn empty_tuple_variant_is_not_empty() {
    let v = e_variant("A", e_tuple(&[]));
    assert!(!v.is_empty_variant());
    let e = e_enum("E", vec![v]);
    assert!(!e.is_c_enum());
}

#[test]
fn is_empty_variant_by_shape() {
    assert!(e_variant("A", StructFields::Unit).is_empty_variant());
    assert!(!e_variant("B", e_tuple(&["u8"])).is_empty_variant());
    assert!(!e_variant("C", e_named("x", "u8")).is_empty_variant());
}

#[test]
fn single_type_needs_exactly_one_tuple_field() {
    assert!(e_variant("A", e_tuple(&[])).get_single_type().is_none());
    assert!(e_variant("B", e_tuple(&["u8"])).get_single_type().is_some());
    assert!(e_variant("C", e_tuple(&["u8", "u16"])).get_single_type().is_none());
    assert!(e_variant("D", e_tuple(&["u8", "u16", "u32"])).get_single_type().is_none());
    assert!(e_variant("E", e_named("x", "u8")).get_single_type().is_none());
    assert!(e_variant("F", StructFields::Unit).get_single_type().is_none());
}
