use declmodel::where_clause::top_level_colon;
use declmodel::{
    Delimiter, Enum, GenericBound, GenericParam, GenericParams, Group, GroupSpan, Ident,
    NamedStructFields, Punct, Punctuated, Spacing, Struct, StructFields, TokenTree, Union,
    WhereClause, WhereClauseItem,
};
use proc_macro2::Span;

fn w_ident(text: &str) -> Ident {
    Ident::new(text, Span::call_site())
}

fn w_word(text: &str) -> TokenTree {
    TokenTree::Ident(w_ident(text))
}

fn w_mark(ch: char) -> TokenTree {
    TokenTree::Punct(Punct { ch, spacing: Spacing::Alone, span: Span::call_site() })
}

fn w_joint(ch: char) -> TokenTree {
    TokenTree::Punct(Punct { ch, spacing: Spacing::Joint, span: Span::call_site() })
}

/// Splits at blanks: a word becomes an identifier, a single mark a punctuation mark.
fn w_tokens(text: &str) -> Vec<TokenTree> {
    text.split_whitespace()
        .map(|piece| {
            let first = piece.chars().next().unwrap();
            if piece.chars().count() == 1 && !first.is_alphanumeric() {
                w_mark(first)
            } else {
                w_word(piece)
            }
        })
        .collect()
}

fn w_render(tokens: &[TokenTree]) -> String {
    let mut parts = Vec::new();
    for t in tokens {
        match t {
            TokenTree::Ident(id) => parts.push(id.text.clone()),
            TokenTree::Punct(p) => parts.push(p.ch.to_string()),
            TokenTree::Literal(l) => parts.push(l.repr.clone()),
            TokenTree::Group(g) => parts.push(format!("({})", w_render(&g.stream))),
        }
    }
    parts.join(" ")
}

fn w_item_text(item: &WhereClauseItem) -> String {
    format!("{} {} {}", w_render(&item.left_side), item.bound.tk_colon.ch, w_render(&item.bound.tokens))
}

fn w_clause_text(clause: &WhereClause) -> Vec<String> {
    clause.items.inner.iter().map(|(item, _)| w_item_text(item)).collect()
}

fn w_struct(generic_params: Option<GenericParams>, where_clause: Option<WhereClause>) -> Struct {
    Struct {
        attributes: Vec::new(),
        vis_marker: None,
        tk_struct: w_ident("struct"),
        name: w_ident("Hello"),
        generic_params,
        where_clause,
        fields: StructFields::Unit,
        tk_semicolon: None,
    }
}

fn w_params(params: Vec<GenericParam>) -> GenericParams {
    let mut list = GenericParams::default();
    for p in params {
        list.params.push(p, None);
    }
    list
}

#[test]
fn parse_splits_at_the_colon() {
    let item = WhereClauseItem::parse(w_tokens("T : Debug + Clone"));
    assert_eq!(w_render(&item.left_side), "T");
    assert_eq!(item.bound.tk_colon.ch, ':');
    assert_eq!(w_render(&item.bound.tokens), "Debug + Clone");
}

#[test]
fn parse_splits_at_the_first_colon() {
    let item = WhereClauseItem::parse(w_tokens("A : B : C"));
    assert_eq!(w_render(&item.left_side), "A");
    assert_eq!(w_render(&item.bound.tokens), "B : C");
}

#[test]
fn parse_skips_colons_inside_angle_brackets() {
    let item = WhereClauseItem::parse(w_tokens("Foo < A : B > : Bar"));
    assert_eq!(w_render(&item.left_side), "Foo < A : B >");
    assert_eq!(w_render(&item.bound.tokens), "Bar");
}

#[test]
fn parse_counts_nested_angle_brackets() {
    let tokens = w_tokens("X < Y < Z > : W > : V");
    assert_eq!(top_level_colon(&tokens), Some(9));
    let item = WhereClauseItem::parse(tokens);
    assert_eq!(w_render(&item.left_side), "X < Y < Z > : W >");
    assert_eq!(w_render(&item.bound.tokens), "V");
}

#[test]
fn parse_accepts_empty_sides() {
    let item = WhereClauseItem::parse(w_tokens(":"));
    assert!(item.left_side.is_empty());
    assert!(item.bound.tokens.is_empty());
    assert_eq!(item.bound.tk_colon.ch, ':');
}

#[test]
fn parse_keeps_the_colon_as_written() {
    let tokens = vec![w_word("T"), w_joint(':'), w_mark(':'), w_word("Item")];
    let item = WhereClauseItem::parse(tokens);
    assert_eq!(w_render(&item.left_side), "T");
    assert_eq!(item.bound.tk_colon.spacing, Spacing::Joint);
    assert_eq!(w_render(&item.bound.tokens), ": Item");
}

#[test]
fn parse_does_not_look_into_groups() {
    let group = TokenTree::Group(Group {
        delimiter: Delimiter::Parenthesis,
        stream: w_tokens("a : b"),
        span: Span::call_site(),
    });
    let tokens = vec![group, w_mark(':'), w_word("Sized")];
    assert_eq!(top_level_colon(&tokens), Some(1));
    let item = WhereClauseItem::parse(tokens);
    assert_eq!(w_render(&item.left_side), "(a : b)");
    assert_eq!(w_render(&item.bound.tokens), "Sized");
}

#[test]
fn colon_after_surplus_closing_bracket_is_not_top_level() {
    assert_eq!(top_level_colon(&w_tokens("> : T")), None);
    assert_eq!(top_level_colon(&w_tokens("> < : T")), Some(2));
}

#[test]
fn try_parse_without_colon_gives_nothing() {
    assert!(WhereClauseItem::try_parse(w_tokens("T Debug")).is_none());
    assert!(WhereClauseItem::try_parse(Vec::new()).is_none());
    assert!(WhereClauseItem::try_parse(w_tokens("Foo < A : B >")).is_none());
}

#[test]
fn try_parse_with_colon_parses() {
    let item = WhereClauseItem::try_parse(w_tokens("T : Debug")).expect("there is a colon");
    assert_eq!(w_item_text(&item), "T : Debug");
}

#[test]
fn top_level_colon_finds_the_position() {
    assert_eq!(top_level_colon(&w_tokens("T : Debug")), Some(1));
    assert_eq!(top_level_colon(&w_tokens("T U V : Debug")), Some(3));
    assert_eq!(top_level_colon(&w_tokens("T Debug")), None);
}

#[test]
fn default_clause_is_the_word_where() {
    let clause = WhereClause::default();
    assert_eq!(clause.tk_where.text, "where");
    assert_eq!(clause.items.len(), 0);
}

#[test]
fn from_item_holds_one_item() {
    let clause = WhereClause::from_item(WhereClauseItem::parse(w_tokens("T : Debug")));
    assert_eq!(clause.tk_where.text, "where");
    assert_eq!(w_clause_text(&clause), vec!["T : Debug"]);
    assert_eq!(clause.items.inner[0].1.ch, ',');
    assert!(clause.items.skip_last);
}

#[test]
fn with_item_appends() {
    let clause = WhereClause::from_item(WhereClauseItem::parse(w_tokens("T : Debug")))
        .with_item(WhereClauseItem::parse(w_tokens("U : Clone")))
        .with_item(WhereClauseItem::parse(w_tokens("V : Eq")));
    assert_eq!(w_clause_text(&clause), vec!["T : Debug", "U : Clone", "V : Eq"]);
}

#[test]
fn derive_where_clause_binds_each_type_parameter() {
    let s = w_struct(Some(w_params(vec![GenericParam::ty("T"), GenericParam::ty("U")])), None);
    let clause = s.create_derive_where_clause(w_tokens("Debug"));
    assert_eq!(clause.tk_where.text, "where");
    assert_eq!(w_clause_text(&clause), vec!["T : Debug", "U : Debug"]);
    for (item, sep) in &clause.items.inner {
        assert_eq!(item.bound.tk_colon.spacing, Spacing::Alone);
        assert_eq!(sep.ch, ',');
    }
}

#[test]
fn derive_where_clause_keeps_existing_items_first() {
    let existing = WhereClause::from_item(WhereClauseItem::parse(w_tokens("A : Sized")))
        .with_item(WhereClauseItem::parse(w_tokens("Vec < B > : Send")));
    let s = w_struct(Some(w_params(vec![GenericParam::ty("A"), GenericParam::ty("B")])), Some(existing));
    let clause = s.create_derive_where_clause(w_tokens("core :: fmt :: Debug"));
    assert_eq!(
        w_clause_text(&clause),
        vec!["A : Sized", "Vec < B > : Send", "A : core :: fmt :: Debug", "B : core :: fmt :: Debug"]
    );
    assert_eq!(w_clause_text(s.where_clause.as_ref().unwrap()), vec!["A : Sized", "Vec < B > : Send"]);
}

#[test]
fn derive_where_clause_passes_over_lifetimes_and_constants() {
    let params = w_params(vec![
        GenericParam::lifetime("a"),
        GenericParam::ty("T"),
        GenericParam::const_param("N", w_tokens("usize")),
        GenericParam::bounded_ty("U", w_tokens("Clone")),
        GenericParam::bounded_lifetime("b", w_tokens("a")),
    ]);
    let s = w_struct(Some(params), None);
    let clause = s.create_derive_where_clause(w_tokens("Debug"));
    assert_eq!(w_clause_text(&clause), vec!["T : Debug", "U : Debug"]);
}

#[test]
fn derive_where_clause_without_parameters_is_the_own_clause() {
    let existing = WhereClause::from_item(WhereClauseItem::parse(w_tokens("u8 : Sized")));
    let s = w_struct(None, Some(existing));
    assert_eq!(w_clause_text(&s.create_derive_where_clause(w_tokens("Debug"))), vec!["u8 : Sized"]);
    let bare = w_struct(None, None);
    let clause = bare.create_derive_where_clause(w_tokens("Debug"));
    assert_eq!(clause.items.len(), 0);
    assert_eq!(clause.tk_where.text, "where");
}

#[test]
fn derive_where_clause_copies_groups_in_the_bound() {
    let group = TokenTree::Group(Group {
        delimiter: Delimiter::Bracket,
        stream: w_tokens("u8 ; N"),
        span: Span::call_site(),
    });
    let bound = vec![w_word("From"), w_mark('<'), group, w_mark('>')];
    let s = w_struct(Some(w_params(vec![GenericParam::ty("T")])), None);
    let clause = s.create_derive_where_clause(bound);
    assert_eq!(w_clause_text(&clause), vec!["T : From < (u8 ; N) >"]);
}

#[test]
fn struct_with_param_makes_the_list() {
    let s = w_struct(None, None).with_param(GenericParam::ty("T")).with_param(GenericParam::lifetime("a"));
    let params = s.generic_params.as_ref().expect("the list was made");
    assert_eq!(params.tk_l_bracket.ch, '<');
    assert_eq!(params.tk_r_bracket.ch, '>');
    let names: Vec<&str> = params.params.inner.iter().map(|(p, _)| p.name.text.as_str()).collect();
    assert_eq!(names, vec!["a", "T"]);
    assert_eq!(s.name.text, "Hello");
}

#[test]
fn struct_with_where_item_makes_the_clause() {
    let s = w_struct(None, None).with_where_item(WhereClauseItem::parse(w_tokens("T : Debug")));
    assert_eq!(w_clause_text(s.where_clause.as_ref().unwrap()), vec!["T : Debug"]);
    let s = s.with_where_item(WhereClauseItem::parse(w_tokens("U : Clone")));
    assert_eq!(w_clause_text(s.where_clause.as_ref().unwrap()), vec!["T : Debug", "U : Clone"]);
    assert!(s.generic_params.is_none());
}

#[test]
fn struct_parameters_by_class() {
    let params = w_params(vec![
        GenericParam::lifetime("a"),
        GenericParam::ty("T"),
        GenericParam::const_param("N", w_tokens("usize")),
        GenericParam::lifetime("b"),
        GenericParam::ty("U"),
    ]);
    let s = w_struct(Some(params), None);
    let names = |list: Vec<&GenericParam>| -> Vec<String> { list.iter().map(|p| p.name.text.clone()).collect() };
    assert_eq!(names(s.get_lifetime_params()), vec!["a", "b"]);
    assert_eq!(names(s.get_type_params()), vec!["T", "U"]);
    assert_eq!(names(s.get_const_params()), vec!["N"]);
    let bare = w_struct(None, None);
    assert!(bare.get_lifetime_params().is_empty());
    assert!(bare.get_type_params().is_empty());
    assert!(bare.get_const_params().is_empty());
}

#[test]
fn struct_inline_generic_args() {
    let bare = w_struct(None, None);
    assert!(bare.get_inline_generic_args().is_none());
    let debug = GenericBound {
        tk_colon: Punct { ch: ':', spacing: Spacing::Alone, span: Span::call_site() },
        tokens: w_tokens("Debug"),
    };
    let bounded = GenericParam { tk_prefix: None, name: w_ident("T"), bound: Some(debug) };
    let s = w_struct(Some(w_params(vec![bounded, GenericParam::ty("U")])), None);
    let args = s.get_inline_generic_args().expect("there are parameters");
    assert_eq!(w_render(&args.to_tokens()), "< T , U >");
}

#[test]
fn enum_and_union_share_the_builders() {
    let e = Enum {
        attributes: Vec::new(),
        vis_marker: None,
        tk_enum: w_ident("enum"),
        name: w_ident("E"),
        generic_params: None,
        where_clause: None,
        variants: Punctuated::new(),
        tk_braces: GroupSpan { span: Span::call_site(), delimiter: Delimiter::Brace },
    };
    let e = e.with_param(GenericParam::ty("T")).with_param(GenericParam::lifetime("a"));
    let e = e.with_where_item(WhereClauseItem::parse(w_tokens("T : Copy")));
    assert_eq!(e.get_type_params().len(), 1);
    assert_eq!(e.get_lifetime_params().len(), 1);
    assert_eq!(e.get_const_params().len(), 0);
    assert_eq!(w_render(&e.get_inline_generic_args().unwrap().to_tokens()), "< ' a , T >");
    assert_eq!(w_clause_text(&e.create_derive_where_clause(w_tokens("Debug"))), vec!["T : Copy", "T : Debug"]);

    let u = Union {
        attributes: Vec::new(),
        vis_marker: None,
        tk_union: w_ident("union"),
        name: w_ident("U"),
        generic_params: None,
        where_clause: None,
        fields: NamedStructFields {
            fields: Punctuated::new(),
            tk_braces: GroupSpan { span: Span::call_site(), delimiter: Delimiter::Brace },
        },
    };
    let u = u.with_param(GenericParam::const_param("N", w_tokens("usize"))).with_param(GenericParam::ty("T"));
    let u = u.with_where_item(WhereClauseItem::parse(w_tokens("T : Copy")));
    assert_eq!(u.get_type_params().len(), 1);
    assert_eq!(u.get_const_params().len(), 1);
    assert_eq!(w_render(&u.get_inline_generic_args().unwrap().to_tokens()), "< N , T >");
    assert_eq!(w_clause_text(&u.create_derive_where_clause(w_tokens("Debug"))), vec!["T : Copy", "T : Debug"]);
}
