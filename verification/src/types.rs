//! The declaration model: structs, enums, unions and functions, with their
//! fields, variants, generic parameters and where clauses.
//!
//! Each type here is plain data with public fields. Beside it stands its
//! model, the mathematical value that its view gives and that contracts
//! speak of. Tokens keep their source positions in both.

use crate::punctuated::{Punctuated, PunctuatedModel};
use crate::token::{
    token_models, view_opt, views, Group, GroupModel, GroupSpan, Ident, IdentModel, Punct,
    TokenModel, TokenTree,
};
use vstd::prelude::*;

verus! {
/// An attribute in front of an item: `#[...]`.
#[derive(Clone, Debug)]
pub struct Attribute {
    pub tk_hash: Punct,
    pub tk_brackets: GroupSpan,
    pub child_tokens: Vec<TokenTree>,
}

/// What a [`Attribute`] stands for.
pub struct AttributeModel {
    pub tk_hash: Punct,
    pub tk_brackets: GroupSpan,
    pub child_tokens: Seq<TokenModel>,
}

impl View for Attribute {
    type V = AttributeModel;

    open spec fn view(&self) -> AttributeModel {
        AttributeModel {
            tk_hash: self.tk_hash,
            tk_brackets: self.tk_brackets,
            child_tokens: token_models(self.child_tokens@),
        }
    }
}

/// A visibility marker: `pub`, `crate`, or `pub` with a group such as `pub(crate)`.
#[derive(Clone, Debug)]
pub struct VisMarker {
    pub tk_token1: TokenTree,
    pub tk_token2: Option<TokenTree>,
}

/// What a [`VisMarker`] stands for.
pub struct VisMarkerModel {
    pub tk_token1: TokenModel,
    pub tk_token2: Option<TokenModel>,
}

impl View for VisMarker {
    type V = VisMarkerModel;

    open spec fn view(&self) -> VisMarkerModel {
        VisMarkerModel {
            tk_token1: self.tk_token1@,
            tk_token2: view_opt(self.tk_token2),
        }
    }
}

/// A type, kept as the tokens that spell it.
#[derive(Clone, Debug)]
pub struct TyExpr {
    pub tokens: Vec<TokenTree>,
}

/// What a [`TyExpr`] stands for.
pub struct TyExprModel {
    pub tokens: Seq<TokenModel>,
}

impl View for TyExpr {
    type V = TyExprModel;

    open spec fn view(&self) -> TyExprModel {
        TyExprModel {
            tokens: token_models(self.tokens@),
        }
    }
}

/// A field that is known by its position.
#[derive(Clone, Debug)]
pub struct TupleField {
    pub attributes: Vec<Attribute>,
    pub vis_marker: Option<VisMarker>,
    pub ty: TyExpr,
}

/// What a [`TupleField`] stands for.
pub struct TupleFieldModel {
    pub attributes: Seq<AttributeModel>,
    pub vis_marker: Option<VisMarkerModel>,
    pub ty: TyExprModel,
}

impl View for TupleField {
    type V = TupleFieldModel;

    open spec fn view(&self) -> TupleFieldModel {
        TupleFieldModel {
            attributes: views(self.attributes@),
            vis_marker: view_opt(self.vis_marker),
            ty: self.ty@,
        }
    }
}

/// A field that is known by its name.
#[derive(Clone, Debug)]
pub struct NamedField {
    pub attributes: Vec<Attribute>,
    pub vis_marker: Option<VisMarker>,
    pub name: Ident,
    pub tk_colon: Punct,
    pub ty: TyExpr,
}

/// What a [`NamedField`] stands for.
pub struct NamedFieldModel {
    pub attributes: Seq<AttributeModel>,
    pub vis_marker: Option<VisMarkerModel>,
    pub name: IdentModel,
    pub tk_colon: Punct,
    pub ty: TyExprModel,
}

impl View for NamedField {
    type V = NamedFieldModel;

    open spec fn view(&self) -> NamedFieldModel {
        NamedFieldModel {
            attributes: views(self.attributes@),
            vis_marker: view_opt(self.vis_marker),
            name: self.name@,
            tk_colon: self.tk_colon,
            ty: self.ty@,
        }
    }
}

/// The fields between `(` and `)`.
#[derive(Clone, Debug)]
pub struct TupleStructFields {
    pub fields: Punctuated<TupleField>,
    pub tk_parens: GroupSpan,
}

/// What a [`TupleStructFields`] stands for.
pub struct TupleStructFieldsModel {
    pub fields: PunctuatedModel<TupleFieldModel>,
    pub tk_parens: GroupSpan,
}

impl View for TupleStructFields {
    type V = TupleStructFieldsModel;

    open spec fn view(&self) -> TupleStructFieldsModel {
        TupleStructFieldsModel {
            fields: self.fields@,
            tk_parens: self.tk_parens,
        }
    }
}

/// The fields between `{` and `}`.
#[derive(Clone, Debug)]
pub struct NamedStructFields {
    pub fields: Punctuated<NamedField>,
    pub tk_braces: GroupSpan,
}

/// What a [`NamedStructFields`] stands for.
pub struct NamedStructFieldsModel {
    pub fields: PunctuatedModel<NamedFieldModel>,
    pub tk_braces: GroupSpan,
}

impl View for NamedStructFields {
    type V = NamedStructFieldsModel;

    open spec fn view(&self) -> NamedStructFieldsModel {
        NamedStructFieldsModel {
            fields: self.fields@,
            tk_braces: self.tk_braces,
        }
    }
}

/// The fields of a struct or of an enum variant, in one of three shapes.
#[derive(Clone, Debug)]
pub enum StructFields {
    /// No fields.
    Unit,
    /// Fields known by position.
    Tuple(TupleStructFields),
    /// Fields known by name.
    Named(NamedStructFields),
}

/// What a [`StructFields`] stands for.
pub enum StructFieldsModel {
    Unit,
    Tuple(TupleStructFieldsModel),
    Named(NamedStructFieldsModel),
}

impl View for StructFields {
    type V = StructFieldsModel;

    open spec fn view(&self) -> StructFieldsModel {
        match self {
            StructFields::Unit => StructFieldsModel::Unit,
            StructFields::Tuple(t) => StructFieldsModel::Tuple(t@),
            StructFields::Named(n) => StructFieldsModel::Named(n@),
        }
    }
}

/// What stands after the name of a generic parameter or after the left side
/// of a where-clause item: a colon and the tokens of the bound.
#[derive(Debug)]
pub struct GenericBound {
    pub tk_colon: Punct,
    pub tokens: Vec<TokenTree>,
}

/// What a [`GenericBound`] stands for.
pub struct GenericBoundModel {
    pub tk_colon: Punct,
    pub tokens: Seq<TokenModel>,
}

impl View for GenericBound {
    type V = GenericBoundModel;

    open spec fn view(&self) -> GenericBoundModel {
        GenericBoundModel {
            tk_colon: self.tk_colon,
            tokens: token_models(self.tokens@),
        }
    }
}

/// One generic parameter: a type, a lifetime or a constant.
///
/// The token in front of the name says which: none for a type, `'` for a
/// lifetime, the word `const` for a constant.
#[derive(Clone, Debug)]
pub struct GenericParam {
    pub tk_prefix: Option<TokenTree>,
    pub name: Ident,
    pub bound: Option<GenericBound>,
}

/// What a [`GenericParam`] stands for.
pub struct GenericParamModel {
    pub tk_prefix: Option<TokenModel>,
    pub name: IdentModel,
    pub bound: Option<GenericBoundModel>,
}

impl View for GenericParam {
    type V = GenericParamModel;

    open spec fn view(&self) -> GenericParamModel {
        GenericParamModel {
            tk_prefix: view_opt(self.tk_prefix),
            name: self.name@,
            bound: view_opt(self.bound),
        }
    }
}

/// The generic parameters of a declaration, between `<` and `>`.
#[derive(Clone, Debug)]
pub struct GenericParams {
    pub tk_l_bracket: Punct,
    pub params: Punctuated<GenericParam>,
    pub tk_r_bracket: Punct,
}

/// What a [`GenericParams`] stands for.
pub struct GenericParamsModel {
    pub tk_l_bracket: Punct,
    pub params: PunctuatedModel<GenericParamModel>,
    pub tk_r_bracket: Punct,
}

impl View for GenericParams {
    type V = GenericParamsModel;

    open spec fn view(&self) -> GenericParamsModel {
        GenericParamsModel {
            tk_l_bracket: self.tk_l_bracket,
            params: self.params@,
            tk_r_bracket: self.tk_r_bracket,
        }
    }
}

/// The generic parameters of a declaration, to be written as generic
/// arguments: the names alone, without their bounds.
#[derive(Clone, Copy, Debug)]
pub struct InlineGenericArgs<'a>(pub &'a GenericParams);

impl<'a> View for InlineGenericArgs<'a> {
    type V = GenericParamsModel;

    open spec fn view(&self) -> GenericParamsModel {
        self.0@
    }
}

/// One constraint of a where clause: what is constrained, and the bound on it.
#[derive(Debug)]
pub struct WhereClauseItem {
    pub left_side: Vec<TokenTree>,
    pub bound: GenericBound,
}

/// What a [`WhereClauseItem`] stands for.
pub struct WhereClauseItemModel {
    pub left_side: Seq<TokenModel>,
    pub bound: GenericBoundModel,
}

impl View for WhereClauseItem {
    type V = WhereClauseItemModel;

    open spec fn view(&self) -> WhereClauseItemModel {
        WhereClauseItemModel {
            left_side: token_models(self.left_side@),
            bound: self.bound@,
        }
    }
}

/// A where clause: the word `where` and its items.
#[derive(Debug)]
pub struct WhereClause {
    pub tk_where: Ident,
    pub items: Punctuated<WhereClauseItem>,
}

/// What a [`WhereClause`] stands for.
pub struct WhereClauseModel {
    pub tk_where: IdentModel,
    pub items: PunctuatedModel<WhereClauseItemModel>,
}

impl View for WhereClause {
    type V = WhereClauseModel;

    open spec fn view(&self) -> WhereClauseModel {
        WhereClauseModel {
            tk_where: self.tk_where@,
            items: self.items@,
        }
    }
}

/// The value given to a variant: `= 3`.
#[derive(Clone, Debug)]
pub struct EnumDiscriminant {
    pub tk_equal: Punct,
    pub expression: TokenTree,
}

/// What a [`EnumDiscriminant`] stands for.
pub struct EnumDiscriminantModel {
    pub tk_equal: Punct,
    pub expression: TokenModel,
}

impl View for EnumDiscriminant {
    type V = EnumDiscriminantModel;

    open spec fn view(&self) -> EnumDiscriminantModel {
        EnumDiscriminantModel {
            tk_equal: self.tk_equal,
            expression: self.expression@,
        }
    }
}

/// One variant of an enum.
#[derive(Clone, Debug)]
pub struct EnumVariant {
    pub attributes: Vec<Attribute>,
    pub vis_marker: Option<VisMarker>,
    pub name: Ident,
    pub contents: StructFields,
    pub discriminant: Option<EnumDiscriminant>,
}

/// What a [`EnumVariant`] stands for.
pub struct EnumVariantModel {
    pub attributes: Seq<AttributeModel>,
    pub vis_marker: Option<VisMarkerModel>,
    pub name: IdentModel,
    pub contents: StructFieldsModel,
    pub discriminant: Option<EnumDiscriminantModel>,
}

impl View for EnumVariant {
    type V = EnumVariantModel;

    open spec fn view(&self) -> EnumVariantModel {
        EnumVariantModel {
            attributes: views(self.attributes@),
            vis_marker: view_opt(self.vis_marker),
            name: self.name@,
            contents: self.contents@,
            discriminant: view_opt(self.discriminant),
        }
    }
}

/// A struct declaration.
#[derive(Clone, Debug)]
pub struct Struct {
    pub attributes: Vec<Attribute>,
    pub vis_marker: Option<VisMarker>,
    pub tk_struct: Ident,
    pub name: Ident,
    pub generic_params: Option<GenericParams>,
    pub where_clause: Option<WhereClause>,
    pub fields: StructFields,
    pub tk_semicolon: Option<Punct>,
}

/// What a [`Struct`] stands for.
pub struct StructModel {
    pub attributes: Seq<AttributeModel>,
    pub vis_marker: Option<VisMarkerModel>,
    pub tk_struct: IdentModel,
    pub name: IdentModel,
    pub generic_params: Option<GenericParamsModel>,
    pub where_clause: Option<WhereClauseModel>,
    pub fields: StructFieldsModel,
    pub tk_semicolon: Option<Punct>,
}

impl View for Struct {
    type V = StructModel;

    open spec fn view(&self) -> StructModel {
        StructModel {
            attributes: views(self.attributes@),
            vis_marker: view_opt(self.vis_marker),
            tk_struct: self.tk_struct@,
            name: self.name@,
            generic_params: view_opt(self.generic_params),
            where_clause: view_opt(self.where_clause),
            fields: self.fields@,
            tk_semicolon: self.tk_semicolon,
        }
    }
}

/// An enum declaration.
#[derive(Clone, Debug)]
pub struct Enum {
    pub attributes: Vec<Attribute>,
    pub vis_marker: Option<VisMarker>,
    pub tk_enum: Ident,
    pub name: Ident,
    pub generic_params: Option<GenericParams>,
    pub where_clause: Option<WhereClause>,
    pub variants: Punctuated<EnumVariant>,
    pub tk_braces: GroupSpan,
}

/// What a [`Enum`] stands for.
pub struct EnumModel {
    pub attributes: Seq<AttributeModel>,
    pub vis_marker: Option<VisMarkerModel>,
    pub tk_enum: IdentModel,
    pub name: IdentModel,
    pub generic_params: Option<GenericParamsModel>,
    pub where_clause: Option<WhereClauseModel>,
    pub variants: PunctuatedModel<EnumVariantModel>,
    pub tk_braces: GroupSpan,
}

impl View for Enum {
    type V = EnumModel;

    open spec fn view(&self) -> EnumModel {
        EnumModel {
            attributes: views(self.attributes@),
            vis_marker: view_opt(self.vis_marker),
            tk_enum: self.tk_enum@,
            name: self.name@,
            generic_params: view_opt(self.generic_params),
            where_clause: view_opt(self.where_clause),
            variants: self.variants@,
            tk_braces: self.tk_braces,
        }
    }
}

/// A union declaration.
#[derive(Clone, Debug)]
pub struct Union {
    pub attributes: Vec<Attribute>,
    pub vis_marker: Option<VisMarker>,
    pub tk_union: Ident,
    pub name: Ident,
    pub generic_params: Option<GenericParams>,
    pub where_clause: Option<WhereClause>,
    pub fields: NamedStructFields,
}

/// What a [`Union`] stands for.
pub struct UnionModel {
    pub attributes: Seq<AttributeModel>,
    pub vis_marker: Option<VisMarkerModel>,
    pub tk_union: IdentModel,
    pub name: IdentModel,
    pub generic_params: Option<GenericParamsModel>,
    pub where_clause: Option<WhereClauseModel>,
    pub fields: NamedStructFieldsModel,
}

impl View for Union {
    type V = UnionModel;

    open spec fn view(&self) -> UnionModel {
        UnionModel {
            attributes: views(self.attributes@),
            vis_marker: view_opt(self.vis_marker),
            tk_union: self.tk_union@,
            name: self.name@,
            generic_params: view_opt(self.generic_params),
            where_clause: view_opt(self.where_clause),
            fields: self.fields@,
        }
    }
}

/// One parameter of a function.
#[derive(Clone, Debug)]
pub struct FunctionParameter {
    pub attributes: Vec<Attribute>,
    pub name: Ident,
    pub tk_colon: Punct,
    pub ty: TyExpr,
}

/// What a [`FunctionParameter`] stands for.
pub struct FunctionParameterModel {
    pub attributes: Seq<AttributeModel>,
    pub name: IdentModel,
    pub tk_colon: Punct,
    pub ty: TyExprModel,
}

impl View for FunctionParameter {
    type V = FunctionParameterModel;

    open spec fn view(&self) -> FunctionParameterModel {
        FunctionParameterModel {
            attributes: views(self.attributes@),
            name: self.name@,
            tk_colon: self.tk_colon,
            ty: self.ty@,
        }
    }
}

/// A function declaration.
#[derive(Clone, Debug)]
pub struct Function {
    pub attributes: Vec<Attribute>,
    pub vis_marker: Option<VisMarker>,
    pub tk_fn_keyword: Ident,
    pub name: Ident,
    pub generic_params: Option<GenericParams>,
    pub tk_params_parens: GroupSpan,
    pub params: Punctuated<FunctionParameter>,
    pub where_clause: Option<WhereClause>,
    pub return_ty: Option<TyExpr>,
    pub tk_semicolon: Option<Punct>,
    pub body: Option<Group>,
}

/// What a [`Function`] stands for.
pub struct FunctionModel {
    pub attributes: Seq<AttributeModel>,
    pub vis_marker: Option<VisMarkerModel>,
    pub tk_fn_keyword: IdentModel,
    pub name: IdentModel,
    pub generic_params: Option<GenericParamsModel>,
    pub tk_params_parens: GroupSpan,
    pub params: PunctuatedModel<FunctionParameterModel>,
    pub where_clause: Option<WhereClauseModel>,
    pub return_ty: Option<TyExprModel>,
    pub tk_semicolon: Option<Punct>,
    pub body: Option<GroupModel>,
}

impl View for Function {
    type V = FunctionModel;

    open spec fn view(&self) -> FunctionModel {
        FunctionModel {
            attributes: views(self.attributes@),
            vis_marker: view_opt(self.vis_marker),
            tk_fn_keyword: self.tk_fn_keyword@,
            name: self.name@,
            generic_params: view_opt(self.generic_params),
            tk_params_parens: self.tk_params_parens,
            params: self.params@,
            where_clause: view_opt(self.where_clause),
            return_ty: view_opt(self.return_ty),
            tk_semicolon: self.tk_semicolon,
            body: view_opt(self.body),
        }
    }
}

/// A declaration of one of the four kinds.
#[derive(Clone, Debug)]
pub enum Declaration {
    Struct(Struct),
    Enum(Enum),
    Union(Union),
    Function(Function),
}

/// What a [`Declaration`] stands for.
pub enum DeclarationModel {
    Struct(StructModel),
    Enum(EnumModel),
    Union(UnionModel),
    Function(FunctionModel),
}

impl View for Declaration {
    type V = DeclarationModel;

    open spec fn view(&self) -> DeclarationModel {
        match self {
            Declaration::Struct(s) => DeclarationModel::Struct(s@),
            Declaration::Enum(e) => DeclarationModel::Enum(e@),
            Declaration::Union(u) => DeclarationModel::Union(u@),
            Declaration::Function(f) => DeclarationModel::Function(f@),
        }
    }
}

} // verus!
