//! Generic parameters: telling lifetimes, types and constants apart, making
//! parameters, and adding them to a parameter list.

use crate::punctuated::{Punctuated, PunctuatedModel};
use crate::token::{
    clone_token, fresh_ident, fresh_punct, token_models, Punct, Spacing, TokenModel, TokenTree,
};
use crate::types::{
    GenericBound, GenericParam, GenericParamModel, GenericParams, GenericParamsModel,
    InlineGenericArgs,
};
use vstd::prelude::*;

verus! {

/// The three classes of generic parameters.
#[derive(Clone, Copy, Debug, PartialEq, Eq, Structural)]
pub enum ParamClass {
    Lifetime,
    Type,
    Const,
}

impl GenericParamModel {
    /// The parameter is a lifetime: a `'` stands in front of its name.
    pub open spec fn is_lifetime(self) -> bool {
        self.tk_prefix matches Some(t) && t.is_punct('\'')
    }

    /// The parameter is a type: nothing stands in front of its name.
    pub open spec fn is_ty(self) -> bool {
        self.tk_prefix is None
    }

    /// The parameter is a constant: the word `const` stands in front of its
    /// name.
    pub open spec fn is_const(self) -> bool {
        self.tk_prefix matches Some(t) && t.is_word("const"@)
    }

    /// The parameter belongs to the class `class`.
    pub open spec fn in_class(self, class: ParamClass) -> bool {
        match class {
            ParamClass::Lifetime => self.is_lifetime(),
            ParamClass::Type => self.is_ty(),
            ParamClass::Const => self.is_const(),
        }
    }

    /// What stands in front of the name is one of the three things that the
    /// grammar allows there: nothing, a `'`, or the word `const`.
    pub open spec fn well_formed(self) -> bool {
        self.is_lifetime() || self.is_ty() || self.is_const()
    }

    /// The bound of the parameter is a colon followed by `tokens`.
    pub open spec fn is_bounded_by(self, tokens: Seq<TokenModel>) -> bool {
        self.bound matches Some(b) && b.tk_colon.is_colon() && b.tokens == tokens
    }

    /// The token in front of the name is a `'` with the given spacing.
    pub open spec fn has_tick(self, spacing: Spacing) -> bool {
        self.tk_prefix matches Some(TokenModel::Punct(p)) && p.ch == '\'' && p.spacing == spacing
    }
}

/// No generic parameter belongs to two classes.
pub proof fn lemma_classes_exclusive(p: GenericParamModel)
    ensures
        !(p.is_lifetime() && p.is_ty()),
        !(p.is_lifetime() && p.is_const()),
        !(p.is_ty() && p.is_const()),
{
}

/// A well-formed generic parameter belongs to exactly one class.
pub proof fn lemma_exactly_one_class(p: GenericParamModel)
    requires
        p.well_formed(),
    ensures
        p.is_lifetime() <==> !p.is_ty() && !p.is_const(),
        p.is_ty() <==> !p.is_lifetime() && !p.is_const(),
        p.is_const() <==> !p.is_lifetime() && !p.is_ty(),
{
}

impl GenericParam {
    /// A lifetime parameter named `name`, without a bound.
    pub fn lifetime(name: &str) -> (r: Self)
        ensures
            r@.has_tick(Spacing::Joint),
            r@.name.text == name@,
            r@.bound is None,
            r@.is_lifetime(),
    {
        GenericParam {
            tk_prefix: Some(TokenTree::Punct(fresh_punct('\'', Spacing::Joint))),
            name: fresh_ident(name),
            bound: None,
        }
    }

    /// A lifetime parameter named `name` that outlives `bound`.
    pub fn bounded_lifetime(name: &str, bound: Vec<TokenTree>) -> (r: Self)
        ensures
            r@.has_tick(Spacing::Alone),
            r@.name.text == name@,
            r@.is_bounded_by(token_models(bound@)),
            r@.is_lifetime(),
    {
        GenericParam {
            tk_prefix: Some(TokenTree::Punct(fresh_punct('\'', Spacing::Alone))),
            name: fresh_ident(name),
            bound: Some(GenericBound { tk_colon: fresh_punct(':', Spacing::Alone), tokens: bound }),
        }
    }

    /// A type parameter named `name`, without a bound.
    pub fn ty(name: &str) -> (r: Self)
        ensures
            r@.tk_prefix is None,
            r@.name.text == name@,
            r@.bound is None,
            r@.is_ty(),
    {
        GenericParam { tk_prefix: None, name: fresh_ident(name), bound: None }
    }

    /// A type parameter named `name` with the bound `bound`.
    pub fn bounded_ty(name: &str, bound: Vec<TokenTree>) -> (r: Self)
        ensures
            r@.tk_prefix is None,
            r@.name.text == name@,
            r@.is_bounded_by(token_models(bound@)),
            r@.is_ty(),
    {
        GenericParam {
            tk_prefix: None,
            name: fresh_ident(name),
            bound: Some(GenericBound { tk_colon: fresh_punct(':', Spacing::Alone), tokens: bound }),
        }
    }

    /// A constant parameter named `name` of the type `ty`.
    pub fn const_param(name: &str, ty: Vec<TokenTree>) -> (r: Self)
        ensures
            r@.tk_prefix matches Some(t) && t.is_word("const"@),
            r@.name.text == name@,
            r@.is_bounded_by(token_models(ty@)),
            r@.is_const(),
    {
        GenericParam {
            tk_prefix: Some(TokenTree::Ident(fresh_ident("const"))),
            name: fresh_ident(name),
            bound: Some(GenericBound { tk_colon: fresh_punct(':', Spacing::Alone), tokens: ty }),
        }
    }

    /// Whether the parameter is a lifetime.
    pub fn is_lifetime(&self) -> (b: bool)
        ensures
            b == self@.is_lifetime(),
    {
        match &self.tk_prefix {
            Some(TokenTree::Punct(punct)) => punct.ch == '\'',
            _ => false,
        }
    }

    /// Whether the parameter is a type.
    pub fn is_ty(&self) -> (b: bool)
        ensures
            b == self@.is_ty(),
    {
        match &self.tk_prefix {
            Some(_) => false,
            None => true,
        }
    }

    /// Whether the parameter is a constant.
    pub fn is_const(&self) -> (b: bool)
        ensures
            b == self@.is_const(),
    {
        match &self.tk_prefix {
            Some(TokenTree::Ident(ident)) => ident.is("const"),
            _ => false,
        }
    }

    /// Whether the parameter belongs to `class`.
    pub fn in_class(&self, class: ParamClass) -> (b: bool)
        ensures
            b == self@.in_class(class),
    {
        match class {
            ParamClass::Lifetime => self.is_lifetime(),
            ParamClass::Type => self.is_ty(),
            ParamClass::Const => self.is_const(),
        }
    }
}

/// In `items`, no lifetime stands behind a parameter that is none.
pub open spec fn lifetimes_first(items: Seq<GenericParamModel>) -> bool {
    forall|i: int, j: int|
        0 <= i < j < items.len() && (#[trigger] items[j]).is_lifetime() ==> (
        #[trigger] items[i]).is_lifetime()
}

impl GenericParamsModel {
    /// The parameters without their marks, in order.
    pub open spec fn items(self) -> Seq<GenericParamModel> {
        self.params.items()
    }

    /// Where [`GenericParams::with_param`] puts `param`: a lifetime in front
    /// of all, anything else behind all.
    pub open spec fn slot(self, param: GenericParamModel) -> int {
        if param.is_lifetime() {
            0
        } else {
            self.params.len() as int
        }
    }

    /// The list with `param` added at its slot, followed by the mark `sep`.
    pub open spec fn with_param(self, param: GenericParamModel, sep: Punct) -> Self {
        GenericParamsModel {
            tk_l_bracket: self.tk_l_bracket,
            params: self.params.insert(self.slot(param), param, sep, true),
            tk_r_bracket: self.tk_r_bracket,
        }
    }

    /// No lifetime of the list stands behind a parameter that is none.
    pub open spec fn lifetimes_first(self) -> bool {
        lifetimes_first(self.items())
    }

    /// The list that [`GenericParams::default`] makes, but for the positions
    /// of its two brackets.
    pub open spec fn is_empty_list(self) -> bool {
        &&& self.tk_l_bracket.ch == '<'
        &&& self.tk_l_bracket.spacing == Spacing::Alone
        &&& self.tk_r_bracket.ch == '>'
        &&& self.tk_r_bracket.spacing == Spacing::Alone
        &&& self.params == PunctuatedModel::<GenericParamModel>::empty()
    }
}

/// The parameter that was added stands at its slot.
pub proof fn lemma_with_param_at_slot(g: GenericParamsModel, p: GenericParamModel, sep: Punct)
    ensures
        g.with_param(p, sep).items().len() == g.items().len() + 1,
        g.with_param(p, sep).items()[g.slot(p)] == p,
        p.is_lifetime() ==> g.slot(p) == 0,
        !p.is_lifetime() ==> g.slot(p) == g.items().len(),
{
}

/// A lifetime is added in front of all parameters.
pub proof fn lemma_with_param_lifetime(g: GenericParamsModel, p: GenericParamModel, sep: Punct)
    requires
        p.is_lifetime(),
    ensures
        g.with_param(p, sep).items() == seq![p] + g.items(),
{
    assert(g.with_param(p, sep).items() =~= seq![p] + g.items());
}

/// A type or a constant is added behind all parameters.
pub proof fn lemma_with_param_other(g: GenericParamsModel, p: GenericParamModel, sep: Punct)
    requires
        !p.is_lifetime(),
    ensures
        g.with_param(p, sep).items() == g.items().push(p),
{
    assert(g.with_param(p, sep).items() =~= g.items().push(p));
}

/// Adding a parameter leaves the parameters that were there in the order
/// they had: with the new one taken out, the list is the old one.
pub proof fn lemma_with_param_keeps_order(g: GenericParamsModel, p: GenericParamModel, sep: Punct)
    ensures
        g.with_param(p, sep).items().remove(g.slot(p)) == g.items(),
        g.with_param(p, sep).params.pairs.remove(g.slot(p)) == g.params.pairs,
{
    assert(g.with_param(p, sep).items().remove(g.slot(p)) =~= g.items());
    assert(g.with_param(p, sep).params.pairs.remove(g.slot(p)) =~= g.params.pairs);
}

/// Two parameters added one after the other: two lifetimes stand in front,
/// the later one first; two that are no lifetimes stand at the end, the
/// earlier one first.
pub proof fn lemma_with_param_twice(
    g: GenericParamsModel,
    p: GenericParamModel,
    q: GenericParamModel,
    sep_p: Punct,
    sep_q: Punct,
)
    ensures
        p.is_lifetime() && q.is_lifetime() ==> g.with_param(p, sep_p).with_param(q, sep_q).items()
            == seq![q, p] + g.items(),
        !p.is_lifetime() && !q.is_lifetime() ==> g.with_param(p, sep_p).with_param(
            q,
            sep_q,
        ).items() == g.items() + seq![p, q],
{
    let r = g.with_param(p, sep_p).with_param(q, sep_q).items();
    if p.is_lifetime() && q.is_lifetime() {
        assert(r =~= seq![q, p] + g.items());
    }
    if !p.is_lifetime() && !q.is_lifetime() {
        assert(r =~= g.items() + seq![p, q]);
    }
}

/// In a list without parameters the lifetimes stand in front.
pub proof fn lemma_empty_list_lifetimes_first(g: GenericParamsModel)
    requires
        g.is_empty_list(),
    ensures
        g.lifetimes_first(),
{
}

/// A list whose lifetimes stand in front of its other parameters is still
/// such a list after a parameter was added.
pub proof fn lemma_with_param_keeps_lifetimes_first(
    g: GenericParamsModel,
    p: GenericParamModel,
    sep: Punct,
)
    requires
        g.lifetimes_first(),
    ensures
        g.with_param(p, sep).lifetimes_first(),
{
    let old_items = g.items();
    let new_items = g.with_param(p, sep).items();
    assert forall|i: int, j: int|
        0 <= i < j < new_items.len() && (#[trigger] new_items[j]).is_lifetime() implies (
    #[trigger] new_items[i]).is_lifetime() by {
        if p.is_lifetime() {
            if i > 0 {
                assert(new_items[i] == old_items[i - 1]);
                assert(new_items[j] == old_items[j - 1]);
            }
        } else {
            assert(j < old_items.len());
            assert(new_items[i] == old_items[i]);
            assert(new_items[j] == old_items[j]);
        }
    }
}

impl Default for GenericParams {
    /// `<` and `>` with no parameter between them.
    fn default() -> (r: Self)
        ensures
            r@.is_empty_list(),
            r@.lifetimes_first(),
    {
        GenericParams {
            tk_l_bracket: fresh_punct('<', Spacing::Alone),
            params: Punctuated::new(),
            tk_r_bracket: fresh_punct('>', Spacing::Alone),
        }
    }
}

impl GenericParams {
    /// The list with `param` added: a lifetime in front of all parameters,
    /// anything else behind them. A comma is made to be stored after it.
    pub fn with_param(self, param: GenericParam) -> (r: Self)
        ensures
            r@ == self@.with_param(param@, r@.params.pairs[self@.slot(param@)].1),
            r@.params.pairs[self@.slot(param@)].1.is_comma(),
            self@.lifetimes_first() ==> r@.lifetimes_first(),
    {
        let mut list = self;
        if param.is_lifetime() {
            list.params.insert(0, param, None);
        } else {
            list.params.push(param, None);
        }
        proof {
            if self@.lifetimes_first() {
                lemma_with_param_keeps_lifetimes_first(
                    self@,
                    param@,
                    list@.params.pairs[self@.slot(param@)].1,
                );
            }
        }
        list
    }

    /// The list, to be written as generic arguments.
    pub fn as_inline_args(&self) -> (r: InlineGenericArgs<'_>)
        ensures
            *r.0 == *self,
            r@ == self@,
    {
        InlineGenericArgs(self)
    }
}

/// What one parameter adds to a list of generic arguments: the `'` of a
/// lifetime, the name, and the mark behind it where that is written.
pub open spec fn inline_arg(param: GenericParamModel, sep: Punct, written: bool) -> Seq<
    TokenModel,
> {
    let tick = if param.is_lifetime() {
        seq![param.tk_prefix->Some_0]
    } else {
        Seq::empty()
    };
    let mark = if written {
        seq![TokenModel::Punct(sep)]
    } else {
        Seq::empty()
    };
    tick + seq![TokenModel::Ident(param.name)] + mark
}

/// The opening bracket and the first `n` parameters of `g`, written as
/// generic arguments.
pub open spec fn inline_args_upto(g: GenericParamsModel, n: nat) -> Seq<TokenModel>
    decreases n,
{
    if n == 0 {
        seq![TokenModel::Punct(g.tk_l_bracket)]
    } else {
        let pair = g.params.pairs[n - 1];
        let written = !(g.params.skip_last && n == g.params.len());
        inline_args_upto(g, (n - 1) as nat) + inline_arg(pair.0, pair.1, written)
    }
}

/// The parameters of `g` written as generic arguments: between the brackets
/// of `g`, each parameter by its name alone, a lifetime with its `'`, with
/// the marks of `g` between them. Bounds, and the word `const`, are left out.
pub open spec fn inline_args(g: GenericParamsModel) -> Seq<TokenModel> {
    inline_args_upto(g, g.params.len()) + seq![TokenModel::Punct(g.tk_r_bracket)]
}

impl<'a> InlineGenericArgs<'a> {
    /// The tokens of the generic arguments: see [`inline_args`].
    pub fn to_tokens(&self) -> (out: Vec<TokenTree>)
        ensures
            token_models(out@) == inline_args(self@),
    {
        let list = self.0;
        let ghost g = list@;
        let mut out: Vec<TokenTree> = Vec::new();
        out.push(TokenTree::Punct(list.tk_l_bracket));
        assert(token_models(out@) =~= inline_args_upto(g, 0));
        let n = list.params.len();
        let mut i: usize = 0;
        while i < n
            invariant
                g == list@,
                n == g.params.len(),
                n == list.params.inner@.len(),
                i <= n,
                token_models(out@) == inline_args_upto(g, i as nat),
            decreases n - i,
        {
            let ghost before = token_models(out@);
            let ghost start = out@.len();
            let param = &list.params.inner[i].0;
            let sep = list.params.inner[i].1;
            assert(g.params.pairs[i as int] == (param@, sep));
            let written = !(list.params.skip_last && i + 1 == n);
            if param.is_lifetime() {
                match &param.tk_prefix {
                    Some(tick) => {
                        out.push(clone_token(tick));
                    },
                    None => {},
                }
            }
            out.push(TokenTree::Ident(param.name.clone()));
            if written {
                out.push(TokenTree::Punct(sep));
            }
            i += 1;
            assert(token_models(out@) =~= before + inline_arg(param@, sep, written));
        }
        let ghost body = token_models(out@);
        out.push(TokenTree::Punct(list.tk_r_bracket));
        assert(token_models(out@) =~= body + seq![TokenModel::Punct(g.tk_r_bracket)]);
        out
    }
}

} // verus!
