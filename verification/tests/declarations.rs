use declmodel::decimal::usize_to_decimal;
use declmodel::token::{clone_token, clone_tokens};
use declmodel::{
    Declaration, Delimiter, Enum, Function, GenericParam, GenericParams, Group, GroupSpan, Ident,
    Literal, NamedStructFields, Punct, Punctuated, Spacing, Struct, StructFields, TokenTree,
    Union,
};
use proc_macro2::Span;

fn d_ident(text: &str) -> Ident {
    Ident::new(text, Span::call_site())
}

fn d_braces() -> GroupSpan {
    GroupSpan { span: Span::call_site(), delimiter: Delimiter::Brace }
}

fn d_params(names: &[&str]) -> GenericParams {
    let mut list = GenericParams::default();
    for name in names {
        list = list.with_param(GenericParam::ty(name));
    }
    list
}

fn d_struct(name: &str, generic_params: Option<GenericParams>) -> Declaration {
    Declaration::Struct(Struct {
        attributes: Vec::new(),
        vis_marker: None,
        tk_struct: d_ident("struct"),
        name: d_ident(name),
        generic_params,
        where_clause: None,
        fields: StructFields::Unit,
        tk_semicolon: None,
    })
}

fn d_enum(name: &str, generic_params: Option<GenericParams>) -> Declaration {
    Declaration::Enum(Enum {
        attributes: Vec::new(),
        vis_marker: None,
        tk_enum: d_ident("enum"),
        name: d_ident(name),
        generic_params,
        where_clause: None,
        variants: Punctuated::new(),
        tk_braces: d_braces(),
    })
}

fn d_union(name: &str, generic_params: Option<GenericParams>) -> Declaration {
    Declaration::Union(Union {
        attributes: Vec::new(),
        vis_marker: None,
        tk_union: d_ident("union"),
        name: d_ident(name),
        generic_params,
        where_clause: None,
        fields: NamedStructFields { fields: Punctuated::new(), tk_braces: d_braces() },
    })
}

fn d_function(name: &str, generic_params: Option<GenericParams>) -> Declaration {
    Declaration::Function(Function {
        attributes: Vec::new(),
        vis_marker: None,
        tk_fn_keyword: d_ident("fn"),
        name: d_ident(name),
        generic_params,
        tk_params_parens: GroupSpan { span: Span::call_site(), delimiter: Delimiter::Parenthesis },
        params: Punctuated::new(),
        where_clause: None,
        return_ty: None,
        tk_semicolon: None,
        body: None,
    })
}

fn d_all(generic: bool) -> Vec<Declaration> {
    let params = |names: &[&str]| if generic { Some(d_params(names)) } else { None };
    vec![
        d_struct("S", params(&["A"])),
        d_enum("E", params(&["A", "B"])),
        d_union("U", params(&["A", "B", "C"])),
        d_function("f", params(&["A", "B", "C", "D"])),
    ]
}

#[test]
fn name_of_each_kind() {
    let names: Vec<String> = d_all(false).iter().map(|d| d.name().text).collect();
    assert_eq!(names, vec!["S", "E", "U", "f"]);
}

#[test]
fn name_of_tuple_struct() {
    assert_eq!(d_struct("Hello", None).name().text, "Hello");
}

#[test]
fn generic_params_of_each_kind() {
    let counts: Vec<usize> = d_all(true).iter().map(|d| d.generic_params().unwrap().params.len()).collect();
    assert_eq!(counts, vec![1, 2, 3, 4]);
    for d in d_all(false) {
        assert!(d.generic_params().is_none());
    }
}

#[test]
fn generic_params_mut_changes_the_declaration() {
    for mut d in d_all(true) {
        let before = d.generic_params().unwrap().params.len();
        {
            let params = d.generic_params_mut().expect("there are parameters");
            params.params.push(GenericParam::ty("Z"), None);
        }
        let after = d.generic_params().unwrap();
        assert_eq!(after.params.len(), before + 1);
        assert_eq!(after.params.get(before).name.text, "Z");
    }
    for mut d in d_all(false) {
        assert!(d.generic_params_mut().is_none());
    }
}

#[test]
fn narrowing_matches_the_kind() {
    let all = d_all(false);
    let hits: Vec<(bool, bool, bool, bool)> = all
        .iter()
        .map(|d| (d.as_struct().is_some(), d.as_enum().is_some(), d.as_union().is_some(), d.as_function().is_some()))
        .collect();
    assert_eq!(
        hits,
        vec![
            (true, false, false, false),
            (false, true, false, false),
            (false, false, true, false),
            (false, false, false, true),
        ]
    );
    assert_eq!(all[0].as_struct().unwrap().name.text, "S");
    assert_eq!(all[1].as_enum().unwrap().name.text, "E");
    assert_eq!(all[2].as_union().unwrap().name.text, "U");
    assert_eq!(all[3].as_function().unwrap().name.text, "f");
}

#[test]
fn decimal_notation() {
    assert_eq!(usize_to_decimal(0), "0");
    assert_eq!(usize_to_decimal(7), "7");
    assert_eq!(usize_to_decimal(9), "9");
    assert_eq!(usize_to_decimal(10), "10");
    assert_eq!(usize_to_decimal(99), "99");
    assert_eq!(usize_to_decimal(100), "100");
    assert_eq!(usize_to_decimal(12345), "12345");
    assert_eq!(usize_to_decimal(9876543210), "9876543210");
    assert_eq!(usize_to_decimal(usize::MAX), usize::MAX.to_string());
}

#[test]
fn ident_is_compares_the_text() {
    let id = d_ident("const");
    assert!(id.is("const"));
    assert!(!id.is("cons"));
    assert!(!id.is("constant"));
    assert!(!id.is(""));
}

#[test]
fn group_span_is_taken_from_the_group() {
    for delimiter in [Delimiter::Parenthesis, Delimiter::Brace, Delimiter::Bracket, Delimiter::Invisible] {
        let group = Group { delimiter, stream: vec![TokenTree::Ident(d_ident("x"))], span: Span::call_site() };
        assert_eq!(GroupSpan::new(&group).delimiter, delimiter);
    }
}

#[test]
fn clone_copies_nested_groups() {
    let inner = TokenTree::Group(Group {
        delimiter: Delimiter::Bracket,
        stream: vec![TokenTree::Literal(Literal { repr: "4".to_string(), span: Span::call_site() })],
        span: Span::call_site(),
    });
    let outer = TokenTree::Group(Group {
        delimiter: Delimiter::Parenthesis,
        stream: vec![
            TokenTree::Ident(d_ident("a")),
            TokenTree::Punct(Punct { ch: '+', spacing: Spacing::Joint, span: Span::call_site() }),
            inner,
        ],
        span: Span::call_site(),
    });
    let copy = clone_token(&outer);
    assert_eq!(format!("{:?}", copy), format!("{:?}", outer));
    let run = vec![outer, TokenTree::Ident(d_ident("b"))];
    let copies = clone_tokens(&run);
    assert_eq!(format!("{:?}", copies), format!("{:?}", run));
    assert_eq!(format!("{:?}", run.clone()), format!("{:?}", run));
}

#[test]
fn punctuated_push_and_insert() {
    let comma = Punct { ch: ';', spacing: Spacing::Alone, span: Span::call_site() };
    let mut list: Punctuated<Ident> = Punctuated::new();
    assert_eq!(list.len(), 0);
    list.push(d_ident("b"), Some(comma));
    assert!(!list.skip_last);
    list.insert(0, d_ident("a"), None);
    assert!(!list.skip_last);
    list.insert(2, d_ident("c"), None);
    assert!(list.skip_last);
    list.insert(1, d_ident("x"), Some(comma));
    let texts: Vec<&str> = list.inner.iter().map(|(id, _)| id.text.as_str()).collect();
    assert_eq!(texts, vec!["a", "x", "b", "c"]);
    let marks: Vec<char> = list.inner.iter().map(|(_, p)| p.ch).collect();
    assert_eq!(marks, vec![',', ';', ';', ',']);
    assert_eq!(list.get(2).text, "b");
    assert_eq!(list.len(), 4);
}
