//! What a struct's fields are called and what types they have; which enums
//! are plain lists of names, and which variants wrap a single value.

use crate::decimal::{decimal_digits, usize_to_decimal};
use crate::token::{fresh_index_literal, token_models, views, TokenModel, TokenTree};
use crate::types::{
    Enum, EnumModel, EnumVariant, EnumVariantModel, Struct, StructFields, StructFieldsModel,
    StructModel, TupleField, TupleFieldModel, TyExpr, TyExprModel,
};
use vstd::prelude::*;

verus! {

impl StructFieldsModel {
    /// The number of fields.
    pub open spec fn count(self) -> nat {
        match self {
            StructFieldsModel::Unit => 0,
            StructFieldsModel::Tuple(t) => t.fields.len(),
            StructFieldsModel::Named(n) => n.fields.len(),
        }
    }

    /// The text by which each field is reached, in order: the position of a
    /// tuple field in decimal notation, the name of a named field.
    pub open spec fn field_names(self) -> Seq<Seq<char>> {
        match self {
            StructFieldsModel::Unit => Seq::empty(),
            StructFieldsModel::Tuple(t) => Seq::new(
                t.fields.len(),
                |i: int| decimal_digits(i as nat),
            ),
            StructFieldsModel::Named(n) => Seq::new(
                n.fields.len(),
                |i: int| n.fields.pairs[i].0.name.text,
            ),
        }
    }

    /// The type of each field, in order.
    pub open spec fn field_types(self) -> Seq<TyExprModel> {
        match self {
            StructFieldsModel::Unit => Seq::empty(),
            StructFieldsModel::Tuple(t) => Seq::new(
                t.fields.len(),
                |i: int| t.fields.pairs[i].0.ty,
            ),
            StructFieldsModel::Named(n) => Seq::new(
                n.fields.len(),
                |i: int| n.fields.pairs[i].0.ty,
            ),
        }
    }

    /// `t` is a token by which the field at `i` is reached: for a tuple
    /// field a literal that is written as the position, at whatever source
    /// position; for a named field the name token itself, source position
    /// and all.
    pub open spec fn is_field_token(self, i: int, t: TokenModel) -> bool {
        match self {
            StructFieldsModel::Unit => false,
            StructFieldsModel::Tuple(_) => t matches TokenModel::Literal(l) && l.repr
                == decimal_digits(i as nat),
            StructFieldsModel::Named(n) => t == TokenModel::Ident(n.fields.pairs[i].0.name),
        }
    }

    /// `ts` holds one field token for each field, in order.
    pub open spec fn are_field_tokens(self, ts: Seq<TokenModel>) -> bool {
        &&& ts.len() == self.count()
        &&& forall|i: int| 0 <= i < ts.len() ==> self.is_field_token(i, #[trigger] ts[i])
    }
}

impl StructModel {
    /// The text by which each field of the struct is reached.
    pub open spec fn field_names(self) -> Seq<Seq<char>> {
        self.fields.field_names()
    }

    /// The type of each field of the struct.
    pub open spec fn field_types(self) -> Seq<TyExprModel> {
        self.fields.field_types()
    }

    /// `ts` holds one field token for each field of the struct.
    pub open spec fn are_field_tokens(self, ts: Seq<TokenModel>) -> bool {
        self.fields.are_field_tokens(ts)
    }
}

/// The names, the tokens and the types of a struct's fields are equally
/// many, one for each field, and the token at each position is written as
/// the name at that position.
pub proof fn lemma_field_enumerations_aligned(s: StructModel, tokens: Seq<TokenModel>)
    requires
        s.are_field_tokens(tokens),
    ensures
        s.field_names().len() == s.fields.count(),
        s.field_types().len() == s.fields.count(),
        tokens.len() == s.fields.count(),
        forall|i: int|
            0 <= i < tokens.len() ==> (#[trigger] tokens[i]).text() == s.field_names()[i],
{
    assert forall|i: int| 0 <= i < tokens.len() implies (#[trigger] tokens[i]).text()
        == s.field_names()[i] by {
        assert(s.fields.is_field_token(i, tokens[i]));
    }
}

/// A struct without fields has no field names, no field types and no field
/// tokens.
pub proof fn lemma_unit_struct_has_no_fields(s: StructModel, tokens: Seq<TokenModel>)
    requires
        s.fields is Unit,
    ensures
        s.field_names() == Seq::<Seq<char>>::empty(),
        s.field_types() == Seq::<TyExprModel>::empty(),
        s.are_field_tokens(tokens) <==> tokens == Seq::<TokenModel>::empty(),
{
    if s.are_field_tokens(tokens) {
        assert(tokens =~= Seq::empty());
    }
}

/// The fields of a tuple struct are called `0`, `1`, and so on.
pub proof fn lemma_tuple_field_names(s: StructModel)
    requires
        s.fields is Tuple,
    ensures
        s.field_names().len() == s.fields.count(),
        forall|i: int|
            0 <= i < s.fields.count() ==> #[trigger] s.field_names()[i] == decimal_digits(i as nat),
{
}

impl Struct {
    /// The text by which each field is reached, in order: `0`, `1`, ... for
    /// a tuple struct, the names for a struct with named fields.
    pub fn field_names(&self) -> (names: Vec<String>)
        ensures
            views(names@) == self@.field_names(),
    {
        let mut names: Vec<String> = Vec::new();
        match &self.fields {
            StructFields::Unit => {},
            StructFields::Tuple(tuple_fields) => {
                let n = tuple_fields.fields.len();
                let mut i: usize = 0;
                while i < n
                    invariant
                        n == tuple_fields@.fields.len(),
                        i <= n,
                        names@.len() == i,
                        forall|j: int|
                            0 <= j < i ==> (#[trigger] names@[j])@ == decimal_digits(j as nat),
                    decreases n - i,
                {
                    names.push(usize_to_decimal(i));
                    i += 1;
                }
            },
            StructFields::Named(named_fields) => {
                let n = named_fields.fields.len();
                let mut i: usize = 0;
                while i < n
                    invariant
                        n == named_fields@.fields.len(),
                        i <= n,
                        names@.len() == i,
                        forall|j: int|
                            0 <= j < i ==> (#[trigger] names@[j])@
                                == named_fields@.fields.pairs[j].0.name.text,
                    decreases n - i,
                {
                    names.push(named_fields.fields.get(i).name.text.clone());
                    i += 1;
                }
            },
        }
        assert(views(names@) =~= self@.field_names());
        names
    }

    /// A token for each field, in order, by which generated code reaches it:
    /// the literals `0`, `1`, ... for a tuple struct, copies of the name
    /// tokens for a struct with named fields.
    pub fn field_tokens(&self) -> (tokens: Vec<TokenTree>)
        ensures
            self@.are_field_tokens(token_models(tokens@)),
    {
        let mut tokens: Vec<TokenTree> = Vec::new();
        match &self.fields {
            StructFields::Unit => {},
            StructFields::Tuple(tuple_fields) => {
                let n = tuple_fields.fields.len();
                let mut i: usize = 0;
                while i < n
                    invariant
                        n == tuple_fields@.fields.len(),
                        i <= n,
                        tokens@.len() == i,
                        forall|j: int|
                            0 <= j < i ==> (#[trigger] tokens@[j]@ matches TokenModel::Literal(l)
                                && l.repr == decimal_digits(j as nat)),
                    decreases n - i,
                {
                    tokens.push(TokenTree::Literal(fresh_index_literal(i)));
                    i += 1;
                }
            },
            StructFields::Named(named_fields) => {
                let n = named_fields.fields.len();
                let mut i: usize = 0;
                while i < n
                    invariant
                        n == named_fields@.fields.len(),
                        i <= n,
                        tokens@.len() == i,
                        forall|j: int|
                            0 <= j < i ==> #[trigger] tokens@[j]@ == TokenModel::Ident(
                                named_fields@.fields.pairs[j].0.name,
                            ),
                    decreases n - i,
                {
                    tokens.push(TokenTree::Ident(named_fields.fields.get(i).name.clone()));
                    i += 1;
                }
            },
        }
        assert(token_models(tokens@).len() == self@.fields.count());
        let ghost models = token_models(tokens@);
        assert forall|i: int| 0 <= i < models.len() implies self@.fields.is_field_token(
            i,
            #[trigger] models[i],
        ) by {
            assert(models[i] == tokens@[i]@);
        }
        tokens
    }

    /// The type of each field, in order.
    pub fn field_types(&self) -> (types: Vec<&TyExpr>)
        ensures
            views(types@) == self@.field_types(),
    {
        let mut types: Vec<&TyExpr> = Vec::new();
        match &self.fields {
            StructFields::Unit => {},
            StructFields::Tuple(tuple_fields) => {
                let n = tuple_fields.fields.len();
                let mut i: usize = 0;
                while i < n
                    invariant
                        n == tuple_fields@.fields.len(),
                        i <= n,
                        types@.len() == i,
                        forall|j: int|
                            0 <= j < i ==> (#[trigger] types@[j])@
                                == tuple_fields@.fields.pairs[j].0.ty,
                    decreases n - i,
                {
                    types.push(&tuple_fields.fields.get(i).ty);
                    i += 1;
                }
            },
            StructFields::Named(named_fields) => {
                let n = named_fields.fields.len();
                let mut i: usize = 0;
                while i < n
                    invariant
                        n == named_fields@.fields.len(),
                        i <= n,
                        types@.len() == i,
                        forall|j: int|
                            0 <= j < i ==> (#[trigger] types@[j])@
                                == named_fields@.fields.pairs[j].0.ty,
                    decreases n - i,
                {
                    types.push(&named_fields.fields.get(i).ty);
                    i += 1;
                }
            },
        }
        assert(views(types@) =~= self@.field_types());
        types
    }
}

impl EnumVariantModel {
    /// The variant stores nothing.
    pub open spec fn is_empty_variant(self) -> bool {
        self.contents is Unit
    }

    /// The variant is written with round brackets around exactly one field.
    pub open spec fn wraps_single_type(self) -> bool {
        self.contents matches StructFieldsModel::Tuple(t) && t.fields.len() == 1
    }

    /// The one field of a variant that wraps a single type.
    pub open spec fn get_single_type(self) -> Option<TupleFieldModel> {
        match self.contents {
            StructFieldsModel::Tuple(t) => if t.fields.len() == 1 {
                Some(t.fields.pairs[0].0)
            } else {
                None
            },
            _ => None,
        }
    }
}

impl EnumModel {
    /// Every variant is empty, as in an enum of C.
    pub open spec fn is_c_enum(self) -> bool {
        forall|i: int|
            0 <= i < self.variants.len() ==> (
            #[trigger] self.variants.pairs[i]).0.is_empty_variant()
    }
}

/// An enum without variants is an enum of C.
pub proof fn lemma_no_variants_is_c_enum(e: EnumModel)
    requires
        e.variants.len() == 0,
    ensures
        e.is_c_enum(),
{
}

/// An enum is an enum of C exactly if each of its variants is empty.
pub proof fn lemma_c_enum_by_items(e: EnumModel)
    ensures
        e.is_c_enum() <==> forall|i: int|
            0 <= i < e.variants.items().len() ==> (
            #[trigger] e.variants.items()[i]).is_empty_variant(),
{
    if e.is_c_enum() {
        assert forall|i: int| 0 <= i < e.variants.items().len() implies (
        #[trigger] e.variants.items()[i]).is_empty_variant() by {
            assert(e.variants.pairs[i].0.is_empty_variant());
        }
    }
    let items = e.variants.items();
    if forall|i: int| 0 <= i < items.len() ==> (#[trigger] items[i]).is_empty_variant() {
        assert forall|i: int| 0 <= i < e.variants.len() implies (
        #[trigger] e.variants.pairs[i]).0.is_empty_variant() by {
            assert(e.variants.items()[i].is_empty_variant());
        }
    }
}

/// A variant has a single type exactly if it has the tuple shape with one
/// field, and that field is the type; an empty variant, one with named
/// fields, and a tuple of no or several fields have none.
pub proof fn lemma_single_type(v: EnumVariantModel)
    ensures
        v.get_single_type() is Some <==> v.wraps_single_type(),
        v.wraps_single_type() ==> v.get_single_type() == Some(
            v.contents->Tuple_0.fields.items()[0],
        ),
        v.contents is Unit ==> v.get_single_type() is None,
        v.contents is Named ==> v.get_single_type() is None,
        v.contents matches StructFieldsModel::Tuple(t) && t.fields.len() != 1
            ==> v.get_single_type() is None,
{
}

impl Enum {
    /// Whether every variant is empty.
    pub fn is_c_enum(&self) -> (b: bool)
        ensures
            b == self@.is_c_enum(),
    {
        let n = self.variants.len();
        let mut i: usize = 0;
        while i < n
            invariant
                n == self@.variants.len(),
                i <= n,
                forall|j: int|
                    0 <= j < i ==> (#[trigger] self@.variants.pairs[j]).0.is_empty_variant(),
            decreases n - i,
        {
            if !self.variants.get(i).is_empty_variant() {
                assert(!self@.variants.pairs[i as int].0.is_empty_variant());
                return false;
            }
            i += 1;
        }
        true
    }
}

impl EnumVariant {
    /// Whether the variant stores nothing.
    pub fn is_empty_variant(&self) -> (b: bool)
        ensures
            b == self@.is_empty_variant(),
    {
        match &self.contents {
            StructFields::Unit => true,
            _ => false,
        }
    }

    /// The field of a variant that wraps a single type; nothing for any
    /// other variant.
    pub fn get_single_type(&self) -> (r: Option<&TupleField>)
        ensures
            match r {
                Some(field) => self@.get_single_type() == Some(field@),
                None => self@.get_single_type() is None,
            },
    {
        match &self.contents {
            StructFields::Tuple(fields) => {
                if fields.fields.len() == 1 {
                    Some(fields.fields.get(0))
                } else {
                    None
                }
            },
            StructFields::Unit => None,
            StructFields::Named(_) => None,
        }
    }
}

} // verus!
