use declmodel::{
    Delimiter, GroupSpan, Ident, NamedField, NamedStructFields, Punct, Punctuated, Spacing,
    Struct, StructFields, TokenTree, TupleField, TupleStructFields, TyExpr,
};
use proc_macro2::Span;

fn f_ident(text: &str) -> Ident {
    Ident::new(text, Span::call_site())
}

fn f_punct(ch: char) -> Punct {
    Punct { ch, spacing: Spacing::Alone, span: Span::call_site() }
}

fn f_ty(name: &str) -> TyExpr {
    TyExpr { tokens: vec![TokenTree::Ident(f_ident(name))] }
}

fn f_ty_text(ty: &TyExpr) -> String {
    match &ty.tokens[0] {
        TokenTree::Ident(id) => id.text.clone(),
        _ => panic!("a type of one word was expected"),
    }
}

fn f_span(delimiter: Delimiter) -> GroupSpan {
    GroupSpan { span: Span::call_site(), delimiter }
}

fn f_struct(fields: StructFields) -> Struct {
    Struct {
        attributes: Vec::new(),
        vis_marker: None,
        tk_struct: f_ident("struct"),
        name: f_ident("Hello"),
        generic_params: None,
        where_clause: None,
        fields,
        tk_semicolon: None,
    }
}

fn f_named(fields: &[(&str, &str)]) -> Struct {
    let mut list = Punctuated::new();
    for (name, ty) in fields {
        let field = NamedField {
            attributes: Vec::new(),
            vis_marker: None,
            name: f_ident(name),
            tk_colon: f_punct(':'),
            ty: f_ty(ty),
        };
        list.push(field, Some(f_punct(',')));
    }
    f_struct(StructFields::Named(NamedStructFields { fields: list, tk_braces: f_span(Delimiter::Brace) }))
}

fn f_tuple(types: &[&str]) -> Struct {
    let mut list = Punctuated::new();
    for ty in types {
        let field = TupleField { attributes: Vec::new(), vis_marker: None, ty: f_ty(ty) };
        list.push(field, None);
    }
    f_struct(
        StructFields::Tuple(TupleStructFields { fields: list, tk_parens: f_span(Delimiter::Parenthesis) }),
    )
}

fn f_token_text(token: &TokenTree) -> String {
    match token {
        TokenTree::Ident(id) => id.text.clone(),
        TokenTree::Literal(l) => l.repr.clone(),
        _ => panic!("an identifier or a literal was expected"),
    }
}

#[test]
fn field_names_of_named_struct() {
    let s = f_named(&[("a", "Foo"), ("b", "Bar")]);
    assert_eq!(s.field_names(), vec!["a".to_string(), "b".to_string()]);
}

#[test]
fn field_names_of_tuple_struct() {
    let s = f_tuple(&["Foo", "Bar"]);
    assert_eq!(s.field_names(), vec!["0".to_string(), "1".to_string()]);
}

#[test]
fn unit_struct_has_no_fields() {
    let s = f_struct(StructFields::Unit);
    assert!(s.field_names().is_empty());
    assert!(s.field_tokens().is_empty());
    assert!(s.field_types().is_empty());
}

#[test]
fn tuple_struct_without_fields_has_no_fields() {
    let s = f_tuple(&[]);
    assert!(s.field_names().is_empty());
    assert!(s.field_tokens().is_empty());
    assert!(s.field_types().is_empty());
}

#[test]
fn tuple_field_names_count_up_in_decimal() {
    let types = vec!["T"; 12];
    let s = f_tuple(&types);
    let expected: Vec<String> =
        vec!["0", "1", "2", "3", "4", "5", "6", "7", "8", "9", "10", "11"].into_iter().map(String::from).collect();
    assert_eq!(s.field_names(), expected);
}

#[test]
fn field_tokens_of_tuple_struct_are_index_literals() {
    let s = f_tuple(&["Foo", "Bar", "Baz"]);
    let tokens = s.field_tokens();
    assert_eq!(tokens.len(), 3);
    for (i, token) in tokens.iter().enumerate() {
        match token {
            TokenTree::Literal(l) => assert_eq!(l.repr, i.to_string()),
            _ => panic!("a literal was expected"),
        }
    }
}

#[test]
fn field_tokens_past_nine_have_two_digits() {
    let types = vec!["T"; 11];
    let s = f_tuple(&types);
    let tokens = s.field_tokens();
    assert_eq!(f_token_text(&tokens[10]), "10");
    assert_eq!(f_token_text(&tokens[9]), "9");
}

#[test]
fn field_tokens_of_named_struct_are_the_names() {
    let s = f_named(&[("first", "Foo"), ("second", "Bar")]);
    let tokens = s.field_tokens();
    assert_eq!(tokens.len(), 2);
    assert!(matches!(&tokens[0], TokenTree::Ident(id) if id.text == "first"));
    assert!(matches!(&tokens[1], TokenTree::Ident(id) if id.text == "second"));
}

#[test]
fn field_types_of_named_struct() {
    let s = f_named(&[("a", "Foo"), ("b", "Bar")]);
    let types = s.field_types();
    assert_eq!(types.len(), 2);
    assert_eq!(f_ty_text(types[0]), "Foo");
    assert_eq!(f_ty_text(types[1]), "Bar");
}

#[test]
fn field_types_of_tuple_struct() {
    let s = f_tuple(&["Foo", "Bar"]);
    let types = s.field_types();
    assert_eq!(types.len(), 2);
    assert_eq!(f_ty_text(types[0]), "Foo");
    assert_eq!(f_ty_text(types[1]), "Bar");
}

#[test]
fn field_enumerations_are_aligned() {
    for s in [f_named(&[("x", "A"), ("y", "B"), ("z", "C")]), f_tuple(&["A", "B", "C", "D"]), f_struct(StructFields::Unit)] {
        let names = s.field_names();
        let tokens = s.field_tokens();
        let types = s.field_types();
        assert_eq!(names.len(), tokens.len());
        assert_eq!(names.len(), types.len());
        for i in 0..names.len() {
            assert_eq!(f_token_text(&tokens[i]), names[i]);
        }
    }
}
