//! Tokens: identifiers, punctuation marks, literals and delimited groups, each
//! with the source position it came from.

use crate::decimal::decimal_digits;
use proc_macro2::Span;
use vstd::prelude::*;
use vstd::string::*;

verus! {

/// A source position of `proc_macro2`. It is carried along with a token and
/// never looked into.
#[verifier::external_type_specification]
#[verifier::external_body]
pub struct ExSpan(proc_macro2::Span);

/// Whether a punctuation mark is directly followed by another one.
#[derive(Clone, Copy, Debug, PartialEq, Eq, Structural)]
pub enum Spacing {
    Alone,
    Joint,
}

/// The kind of bracket around a group.
#[derive(Clone, Copy, Debug, PartialEq, Eq, Structural)]
pub enum Delimiter {
    Parenthesis,
    Brace,
    Bracket,
    /// No bracket is written; the group still binds its tokens together.
    Invisible,
}

/// A word: a name or a keyword.
#[derive(Debug)]
pub struct Ident {
    pub text: String,
    pub span: Span,
}

/// A single punctuation character.
#[derive(Clone, Copy, Debug)]
pub struct Punct {
    pub ch: char,
    pub spacing: Spacing,
    pub span: Span,
}

/// A literal, kept as it is written in the source.
#[derive(Debug)]
pub struct Literal {
    pub repr: String,
    pub span: Span,
}

/// A bracketed run of tokens.
#[derive(Debug)]
pub struct Group {
    pub delimiter: Delimiter,
    pub stream: Vec<TokenTree>,
    pub span: Span,
}

/// One token, or one bracketed group of tokens.
#[derive(Debug)]
pub enum TokenTree {
    Group(Group),
    Ident(Ident),
    Punct(Punct),
    Literal(Literal),
}

/// The position and the bracket kind of a group, without what it holds.
#[derive(Clone, Copy, Debug)]
pub struct GroupSpan {
    pub span: Span,
    pub delimiter: Delimiter,
}

/// What an [`Ident`] stands for.
pub struct IdentModel {
    pub text: Seq<char>,
    pub span: Span,
}

/// What a [`Literal`] stands for.
pub struct LiteralModel {
    pub repr: Seq<char>,
    pub span: Span,
}

/// What a [`Group`] stands for.
pub struct GroupModel {
    pub delimiter: Delimiter,
    pub stream: Seq<TokenModel>,
    pub span: Span,
}

/// What a [`TokenTree`] stands for.
pub enum TokenModel {
    Group(GroupModel),
    Ident(IdentModel),
    Punct(Punct),
    Literal(LiteralModel),
}

impl View for Ident {
    type V = IdentModel;

    open spec fn view(&self) -> IdentModel {
        IdentModel { text: self.text@, span: self.span }
    }
}

impl View for Literal {
    type V = LiteralModel;

    open spec fn view(&self) -> LiteralModel {
        LiteralModel { repr: self.repr@, span: self.span }
    }
}

impl View for Punct {
    type V = Punct;

    open spec fn view(&self) -> Punct {
        *self
    }
}

/// The model of one token; a group is modelled token by token.
pub open spec fn token_model(t: TokenTree) -> TokenModel
    decreases t,
{
    match t {
        TokenTree::Group(g) => TokenModel::Group(
            GroupModel {
                delimiter: g.delimiter,
                stream: Seq::new(
                    g.stream@.len(),
                    |i: int|
                        if 0 <= i < g.stream@.len() {
                            token_model(g.stream@[i])
                        } else {
                            arbitrary()
                        },
                ),
                span: g.span,
            },
        ),
        TokenTree::Ident(id) => TokenModel::Ident(id@),
        TokenTree::Punct(p) => TokenModel::Punct(p),
        TokenTree::Literal(l) => TokenModel::Literal(l@),
    }
}

/// The models of a run of tokens, in order.
pub open spec fn token_models(ts: Seq<TokenTree>) -> Seq<TokenModel> {
    Seq::new(ts.len(), |i: int| token_model(ts[i]))
}

impl View for TokenTree {
    type V = TokenModel;

    open spec fn view(&self) -> TokenModel {
        token_model(*self)
    }
}

impl View for Group {
    type V = GroupModel;

    open spec fn view(&self) -> GroupModel {
        GroupModel {
            delimiter: self.delimiter,
            stream: token_models(self.stream@),
            span: self.span,
        }
    }
}

/// The views of a run of values, in order.
pub open spec fn views<T: View>(s: Seq<T>) -> Seq<T::V> {
    Seq::new(s.len(), |i: int| s[i]@)
}

/// The view of a value that may be absent.
pub open spec fn view_opt<T: View>(o: Option<T>) -> Option<T::V> {
    match o {
        Some(x) => Some(x@),
        None => None,
    }
}

impl Punct {
    /// A comma that no other mark follows.
    pub open spec fn is_comma(self) -> bool {
        self.ch == ',' && self.spacing == Spacing::Alone
    }

    /// A colon that no other mark follows.
    pub open spec fn is_colon(self) -> bool {
        self.ch == ':' && self.spacing == Spacing::Alone
    }
}

impl TokenModel {
    /// The token is the punctuation character `ch`, whatever follows it.
    pub open spec fn is_punct(self, ch: char) -> bool {
        self matches TokenModel::Punct(p) && p.ch == ch
    }

    /// The token is the word `word`.
    pub open spec fn is_word(self, word: Seq<char>) -> bool {
        self matches TokenModel::Ident(id) && id.text == word
    }

    /// The text by which an identifier or a literal is written; empty for
    /// punctuation and groups.
    pub open spec fn text(self) -> Seq<char> {
        match self {
            TokenModel::Ident(id) => id.text,
            TokenModel::Literal(l) => l.repr,
            _ => Seq::empty(),
        }
    }
}

/// The characters that `proc_macro2` accepts as punctuation.
pub open spec fn is_punct_char(ch: char) -> bool {
    ch == '!' || ch == '#' || ch == '$' || ch == '%' || ch == '&' || ch == '\'' || ch == '*'
        || ch == '+' || ch == ',' || ch == '-' || ch == '.' || ch == '/' || ch == ':' || ch == ';'
        || ch == '<' || ch == '=' || ch == '>' || ch == '?' || ch == '@' || ch == '^' || ch == '|'
        || ch == '~'
}

/// Calls `proc_macro2::Span::call_site`, the position given to tokens that
/// come from no source text. Which position that is depends on where the
/// program runs, so nothing is claimed of it.
#[verifier::external_body]
pub(crate) fn call_site() -> Span {
    Span::call_site()
}

/// Calls `proc_macro2::Punct::new` and copies out what it made. Believed of
/// it: the mark has the character and the spacing asked for. Its position is
/// left open. `proc_macro2` panics on any other character than those of
/// [`is_punct_char`].
#[verifier::external_body]
pub(crate) fn fresh_punct(ch: char, spacing: Spacing) -> (p: Punct)
    requires
        is_punct_char(ch),
    ensures
        p.ch == ch,
        p.spacing == spacing,
{
    let joined = match spacing {
        Spacing::Alone => proc_macro2::Spacing::Alone,
        Spacing::Joint => proc_macro2::Spacing::Joint,
    };
    let made = proc_macro2::Punct::new(ch, joined);
    let spacing = match made.spacing() {
        proc_macro2::Spacing::Alone => Spacing::Alone,
        proc_macro2::Spacing::Joint => Spacing::Joint,
    };
    Punct { ch: made.as_char(), spacing, span: made.span() }
}

/// Calls `proc_macro2::Literal::usize_unsuffixed` and copies out what it
/// made. Believed of it: the literal is written as the decimal notation of
/// `n`, with no suffix. Its position is left open.
#[verifier::external_body]
pub(crate) fn fresh_index_literal(n: usize) -> (lit: Literal)
    ensures
        lit.repr@ == decimal_digits(n as nat),
{
    let made = proc_macro2::Literal::usize_unsuffixed(n);
    Literal { repr: made.to_string(), span: made.span() }
}

impl Ident {
    /// An identifier with the given text at the given position.
    pub fn new(text: &str, span: Span) -> (id: Ident)
        ensures
            id@ == (IdentModel { text: text@, span }),
    {
        Ident { text: String::from_str(text), span }
    }

    /// Whether the identifier is written `word`.
    pub fn is(&self, word: &str) -> (b: bool)
        ensures
            b == (self@.text == word@),
    {
        let other = String::from_str(word);
        self.text == other
    }
}

/// An identifier with the given text that comes from no source text.
pub(crate) fn fresh_ident(text: &str) -> (id: Ident)
    ensures
        id@.text == text@,
{
    Ident::new(text, call_site())
}

impl Clone for Ident {
    fn clone(&self) -> (r: Self)
        ensures
            r == *self,
    {
        Ident { text: self.text.clone(), span: self.span }
    }
}

impl Clone for Literal {
    fn clone(&self) -> (r: Self)
        ensures
            r == *self,
    {
        Literal { repr: self.repr.clone(), span: self.span }
    }
}

/// Two runs of tokens with the same models have the same length and agree
/// token by token.
pub proof fn lemma_same_models(a: Seq<TokenTree>, b: Seq<TokenTree>)
    requires
        token_models(a) == token_models(b),
    ensures
        a.len() == b.len(),
        forall|i: int| 0 <= i < a.len() ==> token_model(#[trigger] a[i]) == token_model(b[i]),
{
    assert(token_models(a).len() == a.len());
    assert(token_models(b).len() == b.len());
    assert forall|i: int| 0 <= i < a.len() implies token_model(#[trigger] a[i]) == token_model(
        b[i],
    ) by {
        assert(token_models(a)[i] == token_model(a[i]));
        assert(token_models(b)[i] == token_model(b[i]));
    }
}

/// A copy of one token, positions kept.
pub fn clone_token(t: &TokenTree) -> (r: TokenTree)
    ensures
        r@ == t@,
    decreases t,
{
    match t {
        TokenTree::Group(g) => {
            let stream = clone_tokens(&g.stream);
            proof {
                lemma_same_models(stream@, g.stream@);
            }
            let r = TokenTree::Group(Group { delimiter: g.delimiter, stream, span: g.span });
            assert(r@->Group_0.stream =~= t@->Group_0.stream);
            r
        },
        TokenTree::Ident(id) => TokenTree::Ident(id.clone()),
        TokenTree::Punct(p) => TokenTree::Punct(*p),
        TokenTree::Literal(l) => TokenTree::Literal(l.clone()),
    }
}

/// A copy of a run of tokens, positions kept.
pub fn clone_tokens(ts: &Vec<TokenTree>) -> (r: Vec<TokenTree>)
    ensures
        token_models(r@) == token_models(ts@),
    decreases ts,
{
    let mut out: Vec<TokenTree> = Vec::new();
    let mut i: usize = 0;
    while i < ts.len()
        invariant
            i <= ts.len(),
            out@.len() == i,
            forall|j: int| 0 <= j < i ==> token_model(#[trigger] out@[j]) == token_model(ts@[j]),
        decreases ts.len() - i,
    {
        let t = clone_token(&ts[i]);
        out.push(t);
        i += 1;
    }
    assert(token_models(out@) =~= token_models(ts@));
    out
}

impl Clone for TokenTree {
    fn clone(&self) -> (r: Self)
        ensures
            r@ == self@,
    {
        clone_token(self)
    }
}

impl Clone for Group {
    fn clone(&self) -> (r: Self)
        ensures
            r@ == self@,
    {
        let stream = clone_tokens(&self.stream);
        Group { delimiter: self.delimiter, stream, span: self.span }
    }
}

impl GroupSpan {
    /// The position and the bracket kind of `group`.
    pub fn new(group: &Group) -> (r: GroupSpan)
        ensures
            r.span == group.span,
            r.delimiter == group.delimiter,
    {
        GroupSpan { span: group.span, delimiter: group.delimiter }
    }
}

} // verus!
