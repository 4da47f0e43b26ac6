//! Where clauses: building them item by item, and reading one item out of a
//! run of tokens.

use crate::punctuated::{Punctuated, PunctuatedModel};
use crate::token::{
    clone_tokens, fresh_ident, token_model, token_models, Punct, TokenModel, TokenTree,
};
use crate::types::{
    GenericBound, GenericBoundModel, WhereClause, WhereClauseItem, WhereClauseItemModel,
    WhereClauseModel,
};
use vstd::pervasive::unreached;
use vstd::prelude::*;

verus! {

/// What one token adds to the depth of angle brackets: `<` opens one, `>`
/// closes one, every other token leaves the depth as it is.
pub open spec fn angle_step(t: TokenModel) -> int {
    if t.is_punct('<') {
        1
    } else if t.is_punct('>') {
        -1
    } else {
        0
    }
}

/// How many more `<` than `>` stand in `ts`. A token that follows `ts` is at
/// top level when this is zero.
pub open spec fn angle_depth(ts: Seq<TokenModel>) -> int
    decreases ts.len(),
{
    if ts.len() == 0 {
        0
    } else {
        angle_depth(ts.drop_last()) + angle_step(ts.last())
    }
}

/// The token at `k` is a colon outside all angle brackets.
pub open spec fn is_top_level_colon(ts: Seq<TokenModel>, k: int) -> bool {
    &&& 0 <= k < ts.len()
    &&& ts[k].is_punct(':')
    &&& angle_depth(ts.take(k)) == 0
}

/// Some token of `ts` is a colon outside all angle brackets.
pub open spec fn has_top_level_colon(ts: Seq<TokenModel>) -> bool {
    exists|k: int| is_top_level_colon(ts, k)
}

/// The token at `k` is the first colon outside all angle brackets.
pub open spec fn is_split_point(ts: Seq<TokenModel>, k: int) -> bool {
    &&& is_top_level_colon(ts, k)
    &&& forall|j: int| 0 <= j < k ==> !is_top_level_colon(ts, j)
}

/// The position of the first colon outside all angle brackets, where there
/// is one.
pub open spec fn split_point(ts: Seq<TokenModel>) -> int {
    choose|k: int| is_split_point(ts, k)
}

/// The where-clause item that `ts` spells: what stands before the first
/// top-level colon is the left side, the colon and what stands after it are
/// the bound.
pub open spec fn parse_item(ts: Seq<TokenModel>) -> WhereClauseItemModel {
    let k = split_point(ts);
    WhereClauseItemModel {
        left_side: ts.take(k),
        bound: GenericBoundModel { tk_colon: ts[k]->Punct_0, tokens: ts.skip(k + 1) },
    }
}

/// A run of tokens has at most one split point.
pub proof fn lemma_split_point_unique(ts: Seq<TokenModel>, a: int, b: int)
    requires
        is_split_point(ts, a),
        is_split_point(ts, b),
    ensures
        a == b,
{
}

/// Whatever position is a split point is the one that [`split_point`] names.
pub proof fn lemma_split_point_is(ts: Seq<TokenModel>, k: int)
    requires
        is_split_point(ts, k),
    ensures
        split_point(ts) == k,
{
    lemma_split_point_unique(ts, k, split_point(ts));
}

/// A run of tokens with a top-level colon has a split point.
pub proof fn lemma_split_point_exists(ts: Seq<TokenModel>)
    requires
        has_top_level_colon(ts),
    ensures
        is_split_point(ts, split_point(ts)),
{
    let k = choose|k: int| is_top_level_colon(ts, k);
    lemma_first_colon(ts, k);
}

/// Below any top-level colon there is a first one.
proof fn lemma_first_colon(ts: Seq<TokenModel>, k: int)
    requires
        is_top_level_colon(ts, k),
    ensures
        exists|f: int| is_split_point(ts, f),
    decreases k,
{
    if exists|j: int| 0 <= j < k && is_top_level_colon(ts, j) {
        let j = choose|j: int| 0 <= j < k && is_top_level_colon(ts, j);
        lemma_first_colon(ts, j);
    } else {
        assert(is_split_point(ts, k));
    }
}

/// The depth after one more token.
proof fn lemma_depth_step(ts: Seq<TokenModel>, i: int)
    requires
        0 <= i < ts.len(),
    ensures
        angle_depth(ts.take(i + 1)) == angle_depth(ts.take(i)) + angle_step(ts[i]),
{
    assert(ts.take(i + 1).drop_last() =~= ts.take(i));
}

/// Looks for the first colon outside all angle brackets.
pub fn top_level_colon(tokens: &Vec<TokenTree>) -> (r: Option<usize>)
    ensures
        match r {
            Some(k) => is_split_point(token_models(tokens@), k as int),
            None => !has_top_level_colon(token_models(tokens@)),
        },
{
    let ghost ms = token_models(tokens@);
    let mut opened: usize = 0;
    let mut closed: usize = 0;
    let mut i: usize = 0;
    while i < tokens.len()
        invariant
            ms == token_models(tokens@),
            i <= tokens.len(),
            opened <= i,
            closed <= i,
            opened - closed == angle_depth(ms.take(i as int)),
            forall|j: int| 0 <= j < i ==> !is_top_level_colon(ms, j),
        decreases tokens.len() - i,
    {
        proof {
            lemma_depth_step(ms, i as int);
            assert(ms[i as int] == token_model(tokens@[i as int]));
        }
        match &tokens[i] {
            TokenTree::Punct(p) => {
                if p.ch == '<' {
                    opened += 1;
                } else if p.ch == '>' {
                    closed += 1;
                } else if p.ch == ':' && opened == closed {
                    return Some(i);
                }
            },
            _ => {},
        }
        i += 1;
    }
    assert forall|k: int| !is_top_level_colon(ms, k) by {}
    None
}

impl WhereClauseItem {
    /// Reads a where-clause item out of `tokens`, which must hold a colon
    /// outside all angle brackets: see [`parse_item`].
    pub fn parse(tokens: Vec<TokenTree>) -> (item: WhereClauseItem)
        requires
            has_top_level_colon(token_models(tokens@)),
        ensures
            item@ == parse_item(token_models(tokens@)),
    {
        let ghost ms = token_models(tokens@);
        let found = top_level_colon(&tokens);
        proof {
            lemma_split_point_exists(ms);
        }
        match found {
            Some(k) => {
                proof {
                    lemma_split_point_is(ms, k as int);
                }
                let mut left_side = tokens;
                let mut rest = left_side.split_off(k);
                let colon = rest.remove(0);
                assert(colon == tokens@[k as int]);
                assert(ms[k as int] == token_model(tokens@[k as int]));
                match colon {
                    TokenTree::Punct(tk_colon) => {
                        let item = WhereClauseItem {
                            left_side,
                            bound: GenericBound { tk_colon, tokens: rest },
                        };
                        assert(item@.left_side =~= ms.take(k as int));
                        assert(item@.bound.tokens =~= ms.skip(k + 1));
                        item
                    },
                    _ => unreached(),
                }
            },
            None => unreached(),
        }
    }

    /// Reads a where-clause item out of `tokens` as [`WhereClauseItem::parse`]
    /// does, or says that they hold no colon outside all angle brackets.
    pub fn try_parse(tokens: Vec<TokenTree>) -> (r: Option<WhereClauseItem>)
        ensures
            match r {
                Some(item) => has_top_level_colon(token_models(tokens@)) && item@ == parse_item(
                    token_models(tokens@),
                ),
                None => !has_top_level_colon(token_models(tokens@)),
            },
    {
        match top_level_colon(&tokens) {
            Some(_) => Some(WhereClauseItem::parse(tokens)),
            None => None,
        }
    }
}

impl Clone for GenericBound {
    fn clone(&self) -> (r: Self)
        ensures
            r@ == self@,
    {
        GenericBound { tk_colon: self.tk_colon, tokens: clone_tokens(&self.tokens) }
    }
}

impl Clone for WhereClauseItem {
    fn clone(&self) -> (r: Self)
        ensures
            r@ == self@,
    {
        WhereClauseItem { left_side: clone_tokens(&self.left_side), bound: self.bound.clone() }
    }
}

impl Clone for WhereClause {
    fn clone(&self) -> (r: Self)
        ensures
            r@ == self@,
    {
        let mut inner: Vec<(WhereClauseItem, Punct)> = Vec::new();
        let mut i: usize = 0;
        while i < self.items.inner.len()
            invariant
                i <= self.items.inner.len(),
                inner@.len() == i,
                forall|j: int|
                    0 <= j < i ==> (#[trigger] inner@[j]).0@ == self.items.inner@[j].0@
                        && inner@[j].1 == self.items.inner@[j].1,
            decreases self.items.inner.len() - i,
        {
            let item = self.items.inner[i].0.clone();
            inner.push((item, self.items.inner[i].1));
            i += 1;
        }
        let r = WhereClause {
            tk_where: self.tk_where.clone(),
            items: Punctuated { inner, skip_last: self.items.skip_last },
        };
        assert(r@.items.pairs =~= self@.items.pairs);
        r
    }
}

impl WhereClauseModel {
    /// The clause with `item` added behind its items. `sep` is the mark that
    /// is stored after `item`; it is not written out.
    pub open spec fn with_item(self, item: WhereClauseItemModel, sep: Punct) -> Self {
        WhereClauseModel { tk_where: self.tk_where, items: self.items.push(item, sep, true) }
    }

    /// The clause that [`WhereClause::default`] makes, but for the position
    /// of its word `where`.
    pub open spec fn is_empty_clause(self) -> bool {
        &&& self.tk_where.text == "where"@
        &&& self.items == PunctuatedModel::<WhereClauseItemModel>::empty()
    }
}

impl Default for WhereClause {
    /// The word `where` with no item behind it.
    fn default() -> (r: Self)
        ensures
            r@.is_empty_clause(),
    {
        WhereClause { tk_where: fresh_ident("where"), items: Punctuated::new() }
    }
}

impl WhereClause {
    /// A where clause with the single item `item`.
    pub fn from_item(item: WhereClauseItem) -> (r: Self)
        ensures
            r@.tk_where.text == "where"@,
            r@.items == PunctuatedModel::<WhereClauseItemModel>::empty().push(
                item@,
                r@.items.pairs[0].1,
                true,
            ),
            r@.items.pairs[0].1.is_comma(),
    {
        WhereClause::default().with_item(item)
    }

    /// The clause with `item` added behind its items; a comma is made to be
    /// stored after it.
    pub fn with_item(self, item: WhereClauseItem) -> (r: Self)
        ensures
            r@ == self@.with_item(item@, r@.items.pairs.last().1),
            r@.items.pairs.last().1.is_comma(),
    {
        let mut clause = self;
        clause.items.push(item, None);
        clause
    }
}

} // verus!
