//! The builders that structs, enums and unions share: adding a generic
//! parameter or a where-clause item, picking the parameters of one class,
//! and making the where clause of a derived impl.

use crate::generics::{
    lemma_with_param_keeps_lifetimes_first, lemma_with_param_lifetime, lemma_with_param_other,
    lifetimes_first, ParamClass,
};
use crate::punctuated::PunctuatedModel;
use crate::token::{
    clone_tokens, fresh_punct, token_models, view_opt, views, Spacing, TokenModel, TokenTree,
};
use crate::types::{
    Enum, EnumModel, GenericBound, GenericParam, GenericParamModel, GenericParams,
    GenericParamsModel, InlineGenericArgs, Struct, StructModel, Union, UnionModel, WhereClause,
    WhereClauseItem, WhereClauseItemModel, WhereClauseModel,
};
use vstd::prelude::*;

verus! {

/// The parameters of a declaration, in order; none where it has no list.
pub open spec fn params_of(list: Option<GenericParamsModel>) -> Seq<GenericParamModel> {
    match list {
        Some(g) => g.items(),
        None => Seq::empty(),
    }
}

/// The test that picks the parameters of `class`.
pub open spec fn class_pred(class: ParamClass) -> spec_fn(GenericParamModel) -> bool {
    |p: GenericParamModel| p.in_class(class)
}

/// The parameters of a declaration that belong to `class`, in the order of
/// the declaration.
pub open spec fn params_in_class(list: Option<GenericParamsModel>, class: ParamClass) -> Seq<
    GenericParamModel,
> {
    params_of(list).filter(class_pred(class))
}

/// `after` is what a declaration with the generic parameters `before` has
/// once `param` was added: the list that was there, or else an empty one
/// with fresh brackets, with `param` at its slot and a fresh comma stored
/// behind it.
pub open spec fn is_param_added(
    before: Option<GenericParamsModel>,
    param: GenericParamModel,
    after: GenericParamsModel,
) -> bool {
    let base = match before {
        Some(g) => g,
        None => GenericParamsModel {
            tk_l_bracket: after.tk_l_bracket,
            params: PunctuatedModel::empty(),
            tk_r_bracket: after.tk_r_bracket,
        },
    };
    let sep = after.params.pairs[base.slot(param)].1;
    &&& before is None ==> base.is_empty_list()
    &&& sep.is_comma()
    &&& after == base.with_param(param, sep)
}

/// `after` is what a declaration with the where clause `before` has once
/// `item` was added: the clause that was there, or else an empty one with a
/// fresh `where`, with `item` behind its items and a fresh comma stored
/// behind it.
pub open spec fn is_item_added(
    before: Option<WhereClauseModel>,
    item: WhereClauseItemModel,
    after: WhereClauseModel,
) -> bool {
    let base = match before {
        Some(c) => c,
        None => WhereClauseModel { tk_where: after.tk_where, items: PunctuatedModel::empty() },
    };
    let sep = after.items.pairs.last().1;
    &&& before is None ==> base.is_empty_clause()
    &&& sep.is_comma()
    &&& after == base.with_item(item, sep)
}

/// `item` binds the parameter `param` to `bound`: its left side is the name
/// of the parameter, source position and all, and its bound is a fresh
/// colon followed by `bound`.
pub open spec fn is_derived_item(
    item: WhereClauseItemModel,
    param: GenericParamModel,
    bound: Seq<TokenModel>,
) -> bool {
    &&& item.left_side == seq![TokenModel::Ident(param.name)]
    &&& item.bound.tk_colon.is_colon()
    &&& item.bound.tokens == bound
}

/// The items of the where clause of a declaration; none where it has no
/// clause.
pub open spec fn own_items(clause: Option<WhereClauseModel>) -> PunctuatedModel<
    WhereClauseItemModel,
> {
    match clause {
        Some(c) => c.items,
        None => PunctuatedModel::empty(),
    }
}

/// `derived` is the where clause of an impl that is derived for a
/// declaration with the generic parameters `list` and the where clause
/// `clause`: the items of `clause`, unchanged and first, and behind them
/// one item for each type parameter, in the order of the declaration, that
/// binds it to `bound`. Lifetimes and constants get no item.
pub open spec fn is_derived_clause(
    list: Option<GenericParamsModel>,
    clause: Option<WhereClauseModel>,
    bound: Seq<TokenModel>,
    derived: WhereClauseModel,
) -> bool {
    let type_params = params_in_class(list, ParamClass::Type);
    let own = own_items(clause);
    &&& match clause {
        Some(c) => derived.tk_where == c.tk_where,
        None => derived.tk_where.text == "where"@,
    }
    &&& derived.items.len() == own.len() + type_params.len()
    &&& forall|i: int| 0 <= i < own.len() ==> #[trigger] derived.items.pairs[i] == own.pairs[i]
    &&& forall|i: int|
        own.len() <= i < derived.items.len() ==> {
            let pair = #[trigger] derived.items.pairs[i];
            is_derived_item(pair.0, type_params[i - own.len()], bound) && pair.1.is_comma()
        }
    &&& derived.items.skip_last == (type_params.len() > 0 || own.skip_last)
}

/// A parameter added to a declaration stands in front of its parameters if
/// it is a lifetime and behind them if it is none, whether or not the
/// declaration had a list before; and a list whose lifetimes stood in front
/// is still such a list.
pub proof fn lemma_param_added(
    before: Option<GenericParamsModel>,
    param: GenericParamModel,
    after: GenericParamsModel,
)
    requires
        is_param_added(before, param, after),
    ensures
        param.is_lifetime() ==> params_of(Some(after)) == seq![param] + params_of(before),
        !param.is_lifetime() ==> params_of(Some(after)) == params_of(before).push(param),
        lifetimes_first(params_of(before)) ==> lifetimes_first(params_of(Some(after))),
{
    let base = match before {
        Some(g) => g,
        None => GenericParamsModel {
            tk_l_bracket: after.tk_l_bracket,
            params: PunctuatedModel::empty(),
            tk_r_bracket: after.tk_r_bracket,
        },
    };
    let sep = after.params.pairs[base.slot(param)].1;
    assert(base.items() =~= params_of(before));
    if param.is_lifetime() {
        lemma_with_param_lifetime(base, param, sep);
    } else {
        lemma_with_param_other(base, param, sep);
    }
    if lifetimes_first(params_of(before)) {
        lemma_with_param_keeps_lifetimes_first(base, param, sep);
    }
}

/// An item added to a declaration stands behind the items of its where
/// clause, whether or not the declaration had a clause before.
pub proof fn lemma_item_added(
    before: Option<WhereClauseModel>,
    item: WhereClauseItemModel,
    after: WhereClauseModel,
)
    requires
        is_item_added(before, item, after),
    ensures
        after.items.items() == own_items(before).items().push(item),
{
    assert(after.items.items() =~= own_items(before).items().push(item));
}

/// Each parameter that is picked for a class belongs to it, and no more are
/// picked than the declaration has.
pub proof fn lemma_params_in_class(list: Option<GenericParamsModel>, class: ParamClass)
    ensures
        params_in_class(list, class).len() <= params_of(list).len(),
        forall|j: int|
            0 <= j < params_in_class(list, class).len() ==> (#[trigger] params_in_class(
                list,
                class,
            )[j]).in_class(class),
{
    let picked = params_in_class(list, class);
    params_of(list).lemma_filter_len(class_pred(class));
    assert forall|j: int| 0 <= j < picked.len() implies (#[trigger] picked[j]).in_class(class) by {
        params_of(list).lemma_filter_pred(class_pred(class), j);
    }
}

/// A declaration all of whose parameters belong to `class` has them all
/// picked for it; one that has none in `class` has none picked.
pub proof fn lemma_params_all_or_none(list: Option<GenericParamsModel>, class: ParamClass)
    ensures
        (forall|i: int|
            0 <= i < params_of(list).len() ==> (#[trigger] params_of(list)[i]).in_class(class))
            ==> params_in_class(list, class) == params_of(list),
        (forall|i: int|
            0 <= i < params_of(list).len() ==> !(#[trigger] params_of(list)[i]).in_class(class))
            ==> params_in_class(list, class) == Seq::<GenericParamModel>::empty(),
{
    lemma_filter_all_or_none(params_of(list), class_pred(class));
}

/// A test that holds of all of `s` picks all of it; one that holds of none
/// picks nothing.
proof fn lemma_filter_all_or_none<A>(s: Seq<A>, pred: spec_fn(A) -> bool)
    ensures
        (forall|i: int| 0 <= i < s.len() ==> pred(#[trigger] s[i])) ==> s.filter(pred) == s,
        (forall|i: int| 0 <= i < s.len() ==> !pred(#[trigger] s[i])) ==> s.filter(pred)
            == Seq::<A>::empty(),
    decreases s.len(),
{
    reveal(Seq::filter);
    if s.len() > 0 {
        let front = s.drop_last();
        lemma_filter_all_or_none(front, pred);
        if forall|i: int| 0 <= i < s.len() ==> pred(#[trigger] s[i]) {
            assert forall|i: int| 0 <= i < front.len() implies pred(#[trigger] front[i]) by {
                assert(front[i] == s[i]);
            }
            assert(pred(s.last()));
            assert(front.push(s.last()) =~= s);
        }
        if forall|i: int| 0 <= i < s.len() ==> !pred(#[trigger] s[i]) {
            assert forall|i: int| 0 <= i < front.len() implies !pred(#[trigger] front[i]) by {
                assert(front[i] == s[i]);
            }
            assert(!pred(s.last()));
        }
    } else {
        assert(s.filter(pred) =~= s);
    }
}

/// The where clause of a derived impl holds the items of the declaration's
/// own clause first and unchanged, then one item for each type parameter,
/// in order, and nothing for a lifetime or a constant.
pub proof fn lemma_derived_clause_items(
    list: Option<GenericParamsModel>,
    clause: Option<WhereClauseModel>,
    bound: Seq<TokenModel>,
    derived: WhereClauseModel,
)
    requires
        is_derived_clause(list, clause, bound, derived),
    ensures
        derived.items.items().len() == own_items(clause).len() + params_in_class(
            list,
            ParamClass::Type,
        ).len(),
        derived.items.items().take(own_items(clause).len() as int) == own_items(clause).items(),
        forall|i: int|
            own_items(clause).len() <= i < derived.items.len() ==> {
                let item = #[trigger] derived.items.items()[i];
                let param = params_in_class(list, ParamClass::Type)[i - own_items(clause).len()];
                &&& param.is_ty()
                &&& item.left_side == seq![TokenModel::Ident(param.name)]
                &&& item.bound.tokens == bound
            },
{
    let own = own_items(clause);
    let type_params = params_in_class(list, ParamClass::Type);
    lemma_params_in_class(list, ParamClass::Type);
    assert forall|i: int| 0 <= i < own.len() implies derived.items.items().take(
        own.len() as int,
    )[i] == own.items()[i] by {
        assert(derived.items.pairs[i] == own.pairs[i]);
    }
    assert(derived.items.items().take(own.len() as int) =~= own.items());
    assert forall|i: int| own.len() <= i < derived.items.len() implies {
        let item = #[trigger] derived.items.items()[i];
        let param = type_params[i - own.len()];
        &&& param.is_ty()
        &&& item.left_side == seq![TokenModel::Ident(param.name)]
        &&& item.bound.tokens == bound
    } by {
        let pair = derived.items.pairs[i];
        assert(is_derived_item(pair.0, type_params[i - own.len()], bound));
        assert(type_params[i - own.len()].in_class(ParamClass::Type));
    }
}

/// One more parameter looked at: it is picked if the test holds of it.
proof fn lemma_filter_step<A>(s: Seq<A>, pred: spec_fn(A) -> bool, i: int)
    requires
        0 <= i < s.len(),
    ensures
        s.take(i + 1).filter(pred) == if pred(s[i]) {
            s.take(i).filter(pred).push(s[i])
        } else {
            s.take(i).filter(pred)
        },
{
    reveal(Seq::filter);
    assert(s.take(i + 1).drop_last() =~= s.take(i));
}

/// The parameters of `list` that belong to `class`.
pub fn select_params(list: &Option<GenericParams>, class: ParamClass) -> (picked: Vec<
    &GenericParam,
>)
    ensures
        views(picked@) == params_in_class(view_opt(*list), class),
{
    let mut picked: Vec<&GenericParam> = Vec::new();
    match list {
        Some(params) => {
            let ghost items = params@.items();
            let ghost pred = class_pred(class);
            let n = params.params.len();
            let mut i: usize = 0;
            assert(items.take(0).filter(pred) =~= Seq::empty()) by {
                reveal(Seq::filter);
            }
            assert(views(picked@) =~= items.take(0).filter(pred));
            while i < n
                invariant
                    items == params@.items(),
                    pred == class_pred(class),
                    n == items.len(),
                    i <= n,
                    views(picked@) == items.take(i as int).filter(pred),
                decreases n - i,
            {
                let ghost before = views(picked@);
                let param = params.params.get(i);
                proof {
                    lemma_filter_step(items, pred, i as int);
                }
                if param.in_class(class) {
                    picked.push(param);
                    assert(views(picked@) =~= before.push(param@));
                }
                i += 1;
            }
            assert(items.take(n as int) =~= items);
        },
        None => {
            assert(Seq::<GenericParamModel>::empty().filter(class_pred(class)) =~= Seq::empty())
                by {
                reveal(Seq::filter);
            }
            assert(views(picked@) =~= Seq::empty());
        },
    }
    picked
}

/// Adds `param` to the generic parameters `before` of a declaration.
pub fn add_param(before: Option<GenericParams>, param: GenericParam) -> (after: GenericParams)
    ensures
        is_param_added(view_opt(before), param@, after@),
{
    let base = match before {
        Some(list) => list,
        None => GenericParams::default(),
    };
    let after = base.with_param(param);
    proof {
        if before is None {
            assert(base@ == (GenericParamsModel {
                tk_l_bracket: after@.tk_l_bracket,
                params: PunctuatedModel::empty(),
                tk_r_bracket: after@.tk_r_bracket,
            }));
        }
    }
    after
}

/// Adds `item` to the where clause `before` of a declaration.
pub fn add_where_item(before: Option<WhereClause>, item: WhereClauseItem) -> (after: WhereClause)
    ensures
        is_item_added(view_opt(before), item@, after@),
{
    match before {
        Some(clause) => clause.with_item(item),
        None => {
            let after = WhereClause::from_item(item);
            assert(after@.items.pairs.last() == after@.items.pairs[0]);
            after
        },
    }
}

/// Makes the where clause of an impl that is derived for a declaration with
/// the generic parameters `list` and the where clause `clause`.
pub fn derive_where_clause(
    list: &Option<GenericParams>,
    clause: &Option<WhereClause>,
    derived_trait: &Vec<TokenTree>,
) -> (derived: WhereClause)
    ensures
        is_derived_clause(
            view_opt(*list),
            view_opt(*clause),
            token_models(derived_trait@),
            derived@,
        ),
{
    let mut derived = match clause {
        Some(c) => c.clone(),
        None => WhereClause::default(),
    };
    let ghost own = own_items(view_opt(*clause));
    let ghost bound = token_models(derived_trait@);
    let type_params = select_params(list, ParamClass::Type);
    let ghost models = params_in_class(view_opt(*list), ParamClass::Type);
    let n = type_params.len();
    let mut j: usize = 0;
    while j < n
        invariant
            views(type_params@) == models,
            n == type_params@.len(),
            bound == token_models(derived_trait@),
            own == own_items(view_opt(*clause)),
            j <= n,
            match view_opt(*clause) {
                Some(c) => derived@.tk_where == c.tk_where,
                None => derived@.tk_where.text == "where"@,
            },
            derived@.items.len() == own.len() + j,
            forall|i: int|
                0 <= i < own.len() ==> #[trigger] derived@.items.pairs[i] == own.pairs[i],
            forall|i: int|
                own.len() <= i < derived@.items.len() ==> {
                    let pair = #[trigger] derived@.items.pairs[i];
                    is_derived_item(pair.0, models[i - own.len()], bound) && pair.1.is_comma()
                },
            derived@.items.skip_last == (j > 0 || own.skip_last),
        decreases n - j,
    {
        let param = type_params[j];
        assert(models[j as int] == param@) by {
            assert(views(type_params@)[j as int] == type_params@[j as int]@);
        }
        let mut left_side: Vec<TokenTree> = Vec::new();
        left_side.push(TokenTree::Ident(param.name.clone()));
        let item = WhereClauseItem {
            left_side,
            bound: GenericBound {
                tk_colon: fresh_punct(':', Spacing::Alone),
                tokens: clone_tokens(derived_trait),
            },
        };
        assert(item@.left_side =~= seq![TokenModel::Ident(param@.name)]);
        let ghost before = derived@;
        derived = derived.with_item(item);
        assert forall|i: int| 0 <= i < own.len() implies #[trigger] derived@.items.pairs[i]
            == own.pairs[i] by {
            assert(derived@.items.pairs[i] == before.items.pairs[i]);
        }
        assert forall|i: int| own.len() <= i < derived@.items.len() implies {
            let pair = #[trigger] derived@.items.pairs[i];
            is_derived_item(pair.0, models[i - own.len()], bound) && pair.1.is_comma()
        } by {
            if i < before.items.len() {
                assert(derived@.items.pairs[i] == before.items.pairs[i]);
            }
        }
        j += 1;
    }
    derived
}

impl StructModel {
    /// The lifetime parameters of the struct, in order.
    pub open spec fn lifetime_params(self) -> Seq<GenericParamModel> {
        params_in_class(self.generic_params, ParamClass::Lifetime)
    }

    /// The type parameters of the struct, in order.
    pub open spec fn type_params(self) -> Seq<GenericParamModel> {
        params_in_class(self.generic_params, ParamClass::Type)
    }

    /// The constant parameters of the struct, in order.
    pub open spec fn const_params(self) -> Seq<GenericParamModel> {
        params_in_class(self.generic_params, ParamClass::Const)
    }
}

impl Struct {
    /// The struct with `param` added to its generic parameters: a lifetime in
    /// front of them, anything else behind them. Nothing else changes.
    pub fn with_param(self, param: GenericParam) -> (r: Self)
        ensures
            r@.generic_params matches Some(after) && is_param_added(
                self@.generic_params,
                param@,
                after,
            ),
            r@ == (StructModel { generic_params: r@.generic_params, ..self@ }),
    {
        let Struct {
            attributes,
            vis_marker,
            tk_struct,
            name,
            generic_params,
            where_clause,
            fields,
            tk_semicolon,
        } = self;
        let generic_params = Some(add_param(generic_params, param));
        Struct {
            attributes,
            vis_marker,
            tk_struct,
            name,
            generic_params,
            where_clause,
            fields,
            tk_semicolon,
        }
    }

    /// The struct with `item` added behind the items of its where clause; the
    /// clause is made if there was none. Nothing else changes.
    pub fn with_where_item(self, item: WhereClauseItem) -> (r: Self)
        ensures
            r@.where_clause matches Some(after) && is_item_added(self@.where_clause, item@, after),
            r@ == (StructModel { where_clause: r@.where_clause, ..self@ }),
    {
        let Struct {
            attributes,
            vis_marker,
            tk_struct,
            name,
            generic_params,
            where_clause,
            fields,
            tk_semicolon,
        } = self;
        let where_clause = Some(add_where_item(where_clause, item));
        Struct {
            attributes,
            vis_marker,
            tk_struct,
            name,
            generic_params,
            where_clause,
            fields,
            tk_semicolon,
        }
    }

    /// The lifetime parameters of the struct, in order.
    pub fn get_lifetime_params(&self) -> (r: Vec<&GenericParam>)
        ensures
            views(r@) == self@.lifetime_params(),
    {
        select_params(&self.generic_params, ParamClass::Lifetime)
    }

    /// The type parameters of the struct, in order.
    pub fn get_type_params(&self) -> (r: Vec<&GenericParam>)
        ensures
            views(r@) == self@.type_params(),
    {
        select_params(&self.generic_params, ParamClass::Type)
    }

    /// The constant parameters of the struct, in order.
    pub fn get_const_params(&self) -> (r: Vec<&GenericParam>)
        ensures
            views(r@) == self@.const_params(),
    {
        select_params(&self.generic_params, ParamClass::Const)
    }

    /// The generic parameters of the struct, to be written as generic
    /// arguments; nothing where the struct has none.
    pub fn get_inline_generic_args(&self) -> (r: Option<InlineGenericArgs<'_>>)
        ensures
            view_opt(r) == self@.generic_params,
    {
        match &self.generic_params {
            Some(params) => Some(params.as_inline_args()),
            None => None,
        }
    }

    /// The where clause of an impl of `derived_trait` that is derived for
    /// the struct: the items of its own where clause, and behind them one item
    /// for each of its type parameters that binds the parameter to
    /// `derived_trait`.
    pub fn create_derive_where_clause(&self, derived_trait: Vec<TokenTree>) -> (r: WhereClause)
        ensures
            is_derived_clause(
                self@.generic_params,
                self@.where_clause,
                token_models(derived_trait@),
                r@,
            ),
    {
        derive_where_clause(&self.generic_params, &self.where_clause, &derived_trait)
    }
}

impl EnumModel {
    /// The lifetime parameters of the enum, in order.
    pub open spec fn lifetime_params(self) -> Seq<GenericParamModel> {
        params_in_class(self.generic_params, ParamClass::Lifetime)
    }

    /// The type parameters of the enum, in order.
    pub open spec fn type_params(self) -> Seq<GenericParamModel> {
        params_in_class(self.generic_params, ParamClass::Type)
    }

    /// The constant parameters of the enum, in order.
    pub open spec fn const_params(self) -> Seq<GenericParamModel> {
        params_in_class(self.generic_params, ParamClass::Const)
    }
}

impl Enum {
    /// The enum with `param` added to its generic parameters: a lifetime in
    /// front of them, anything else behind them. Nothing else changes.
    pub fn with_param(self, param: GenericParam) -> (r: Self)
        ensures
            r@.generic_params matches Some(after) && is_param_added(
                self@.generic_params,
                param@,
                after,
            ),
            r@ == (EnumModel { generic_params: r@.generic_params, ..self@ }),
    {
        let Enum {
            attributes,
            vis_marker,
            tk_enum,
            name,
            generic_params,
            where_clause,
            variants,
            tk_braces,
        } = self;
        let generic_params = Some(add_param(generic_params, param));
        Enum {
            attributes,
            vis_marker,
            tk_enum,
            name,
            generic_params,
            where_clause,
            variants,
            tk_braces,
        }
    }

    /// The enum with `item` added behind the items of its where clause; the
    /// clause is made if there was none. Nothing else changes.
    pub fn with_where_item(self, item: WhereClauseItem) -> (r: Self)
        ensures
            r@.where_clause matches Some(after) && is_item_added(self@.where_clause, item@, after),
            r@ == (EnumModel { where_clause: r@.where_clause, ..self@ }),
    {
        let Enum {
            attributes,
            vis_marker,
            tk_enum,
            name,
            generic_params,
            where_clause,
            variants,
            tk_braces,
        } = self;
        let where_clause = Some(add_where_item(where_clause, item));
        Enum {
            attributes,
            vis_marker,
            tk_enum,
            name,
            generic_params,
            where_clause,
            variants,
            tk_braces,
        }
    }

    /// The lifetime parameters of the enum, in order.
    pub fn get_lifetime_params(&self) -> (r: Vec<&GenericParam>)
        ensures
            views(r@) == self@.lifetime_params(),
    {
        select_params(&self.generic_params, ParamClass::Lifetime)
    }

    /// The type parameters of the enum, in order.
    pub fn get_type_params(&self) -> (r: Vec<&GenericParam>)
        ensures
            views(r@) == self@.type_params(),
    {
        select_params(&self.generic_params, ParamClass::Type)
    }

    /// The constant parameters of the enum, in order.
    pub fn get_const_params(&self) -> (r: Vec<&GenericParam>)
        ensures
            views(r@) == self@.const_params(),
    {
        select_params(&self.generic_params, ParamClass::Const)
    }

    /// The generic parameters of the enum, to be written as generic
    /// arguments; nothing where the enum has none.
    pub fn get_inline_generic_args(&self) -> (r: Option<InlineGenericArgs<'_>>)
        ensures
            view_opt(r) == self@.generic_params,
    {
        match &self.generic_params {
            Some(params) => Some(params.as_inline_args()),
            None => None,
        }
    }

    /// The where clause of an impl of `derived_trait` that is derived for
    /// the enum: the items of its own where clause, and behind them one item
    /// for each of its type parameters that binds the parameter to
    /// `derived_trait`.
    pub fn create_derive_where_clause(&self, derived_trait: Vec<TokenTree>) -> (r: WhereClause)
        ensures
            is_derived_clause(
                self@.generic_params,
                self@.where_clause,
                token_models(derived_trait@),
                r@,
            ),
    {
        derive_where_clause(&self.generic_params, &self.where_clause, &derived_trait)
    }
}

impl UnionModel {
    /// The lifetime parameters of the union, in order.
    pub open spec fn lifetime_params(self) -> Seq<GenericParamModel> {
        params_in_class(self.generic_params, ParamClass::Lifetime)
    }

    /// The type parameters of the union, in order.
    pub open spec fn type_params(self) -> Seq<GenericParamModel> {
        params_in_class(self.generic_params, ParamClass::Type)
    }

    /// The constant parameters of the union, in order.
    pub open spec fn const_params(self) -> Seq<GenericParamModel> {
        params_in_class(self.generic_params, ParamClass::Const)
    }
}

impl Union {
    /// The union with `param` added to its generic parameters: a lifetime in
    /// front of them, anything else behind them. Nothing else changes.
    pub fn with_param(self, param: GenericParam) -> (r: Self)
        ensures
            r@.generic_params matches Some(after) && is_param_added(
                self@.generic_params,
                param@,
                after,
            ),
            r@ == (UnionModel { generic_params: r@.generic_params, ..self@ }),
    {
        let Union {
            attributes,
            vis_marker,
            tk_union,
            name,
            generic_params,
            where_clause,
            fields,
        } = self;
        let generic_params = Some(add_param(generic_params, param));
        Union {
            attributes,
            vis_marker,
            tk_union,
            name,
            generic_params,
            where_clause,
            fields,
        }
    }

    /// The union with `item` added behind the items of its where clause; the
    /// clause is made if there was none. Nothing else changes.
    pub fn with_where_item(self, item: WhereClauseItem) -> (r: Self)
        ensures
            r@.where_clause matches Some(after) && is_item_added(self@.where_clause, item@, after),
            r@ == (UnionModel { where_clause: r@.where_clause, ..self@ }),
    {
        let Union {
            attributes,
            vis_marker,
            tk_union,
            name,
            generic_params,
            where_clause,
            fields,
        } = self;
        let where_clause = Some(add_where_item(where_clause, item));
        Union {
            attributes,
            vis_marker,
            tk_union,
            name,
            generic_params,
            where_clause,
            fields,
        }
    }

    /// The lifetime parameters of the union, in order.
    pub fn get_lifetime_params(&self) -> (r: Vec<&GenericParam>)
        ensures
            views(r@) == self@.lifetime_params(),
    {
        select_params(&self.generic_params, ParamClass::Lifetime)
    }

    /// The type parameters of the union, in order.
    pub fn get_type_params(&self) -> (r: Vec<&GenericParam>)
        ensures
            views(r@) == self@.type_params(),
    {
        select_params(&self.generic_params, ParamClass::Type)
    }

    /// The constant parameters of the union, in order.
    pub fn get_const_params(&self) -> (r: Vec<&GenericParam>)
        ensures
            views(r@) == self@.const_params(),
    {
        select_params(&self.generic_params, ParamClass::Const)
    }

    /// The generic parameters of the union, to be written as generic
    /// arguments; nothing where the union has none.
    pub fn get_inline_generic_args(&self) -> (r: Option<InlineGenericArgs<'_>>)
        ensures
            view_opt(r) == self@.generic_params,
    {
        match &self.generic_params {
            Some(params) => Some(params.as_inline_args()),
            None => None,
        }
    }

    /// The where clause of an impl of `derived_trait` that is derived for
    /// the union: the items of its own where clause, and behind them one item
    /// for each of its type parameters that binds the parameter to
    /// `derived_trait`.
    pub fn create_derive_where_clause(&self, derived_trait: Vec<TokenTree>) -> (r: WhereClause)
        ensures
            is_derived_clause(
                self@.generic_params,
                self@.where_clause,
                token_models(derived_trait@),
                r@,
            ),
    {
        derive_where_clause(&self.generic_params, &self.where_clause, &derived_trait)
    }
}

} // verus!
