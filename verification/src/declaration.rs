//! What all four kinds of declaration have in common: a name and generic
//! parameters; and telling the kinds apart.

use crate::token::{Ident, IdentModel};
use crate::types::{
    Declaration, DeclarationModel, Enum, Function, GenericParams, GenericParamsModel, Struct,
    Union,
};
use vstd::prelude::*;

verus! {

impl DeclarationModel {
    /// The generic parameters of the declaration, of whichever kind it is.
    pub open spec fn generic_params(self) -> Option<GenericParamsModel> {
        match self {
            DeclarationModel::Struct(s) => s.generic_params,
            DeclarationModel::Enum(e) => e.generic_params,
            DeclarationModel::Union(u) => u.generic_params,
            DeclarationModel::Function(f) => f.generic_params,
        }
    }

    /// The name of the declaration, of whichever kind it is.
    pub open spec fn name(self) -> IdentModel {
        match self {
            DeclarationModel::Struct(s) => s.name,
            DeclarationModel::Enum(e) => e.name,
            DeclarationModel::Union(u) => u.name,
            DeclarationModel::Function(f) => f.name,
        }
    }
}

impl Declaration {
    /// The generic parameters that the declaration holds.
    pub open spec fn params(self) -> Option<GenericParams> {
        match self {
            Declaration::Struct(s) => s.generic_params,
            Declaration::Enum(e) => e.generic_params,
            Declaration::Union(u) => u.generic_params,
            Declaration::Function(f) => f.generic_params,
        }
    }

    /// The declaration with `params` in the place of its generic parameters
    /// and everything else as it is.
    pub open spec fn with_params(self, params: Option<GenericParams>) -> Declaration {
        match self {
            Declaration::Struct(s) => Declaration::Struct(Struct { generic_params: params, ..s }),
            Declaration::Enum(e) => Declaration::Enum(Enum { generic_params: params, ..e }),
            Declaration::Union(u) => Declaration::Union(Union { generic_params: params, ..u }),
            Declaration::Function(f) => Declaration::Function(
                Function { generic_params: params, ..f },
            ),
        }
    }

    /// The generic parameters of the declaration, where it has any.
    pub fn generic_params(&self) -> (r: Option<&GenericParams>)
        ensures
            match r {
                Some(p) => self.params() == Some(*p) && self@.generic_params() == Some(p@),
                None => self.params() is None && self@.generic_params() is None,
            },
    {
        match self {
            Declaration::Struct(struct_decl) => struct_decl.generic_params.as_ref(),
            Declaration::Enum(enum_decl) => enum_decl.generic_params.as_ref(),
            Declaration::Union(union_decl) => union_decl.generic_params.as_ref(),
            Declaration::Function(function_decl) => function_decl.generic_params.as_ref(),
        }
    }

    /// The generic parameters of the declaration, where it has any, to be
    /// changed in place: what is written through the reference becomes the
    /// generic parameters of the declaration, and nothing else changes.
    pub fn generic_params_mut(&mut self) -> (r: Option<&mut GenericParams>)
        ensures
            match r {
                Some(p) => old(self).params() == Some(*p) && *final(self) == old(self).with_params(
                    Some(*final(p)),
                ),
                None => old(self).params() is None && *final(self) == *old(self),
            },
    {
        match self {
            Declaration::Struct(struct_decl) => match &mut struct_decl.generic_params {
                Some(p) => Some(p),
                None => None,
            },
            Declaration::Enum(enum_decl) => match &mut enum_decl.generic_params {
                Some(p) => Some(p),
                None => None,
            },
            Declaration::Union(union_decl) => match &mut union_decl.generic_params {
                Some(p) => Some(p),
                None => None,
            },
            Declaration::Function(function_decl) => match &mut function_decl.generic_params {
                Some(p) => Some(p),
                None => None,
            },
        }
    }

    /// A copy of the name of the declaration.
    pub fn name(&self) -> (r: Ident)
        ensures
            r@ == self@.name(),
    {
        match self {
            Declaration::Struct(struct_decl) => struct_decl.name.clone(),
            Declaration::Enum(enum_decl) => enum_decl.name.clone(),
            Declaration::Union(union_decl) => union_decl.name.clone(),
            Declaration::Function(function_decl) => function_decl.name.clone(),
        }
    }

    /// The struct, if the declaration is one.
    pub fn as_struct(&self) -> (r: Option<&Struct>)
        ensures
            match r {
                Some(s) => *self == Declaration::Struct(*s),
                None => !(self is Struct),
            },
    {
        match self {
            Declaration::Struct(struct_decl) => Some(struct_decl),
            _ => None,
        }
    }

    /// The enum, if the declaration is one.
    pub fn as_enum(&self) -> (r: Option<&Enum>)
        ensures
            match r {
                Some(e) => *self == Declaration::Enum(*e),
                None => !(self is Enum),
            },
    {
        match self {
            Declaration::Enum(enum_decl) => Some(enum_decl),
            _ => None,
        }
    }

    /// The union, if the declaration is one.
    pub fn as_union(&self) -> (r: Option<&Union>)
        ensures
            match r {
                Some(u) => *self == Declaration::Union(*u),
                None => !(self is Union),
            },
    {
        match self {
            Declaration::Union(union_decl) => Some(union_decl),
            _ => None,
        }
    }

    /// The function, if the declaration is one.
    pub fn as_function(&self) -> (r: Option<&Function>)
        ensures
            match r {
                Some(f) => *self == Declaration::Function(*f),
                None => !(self is Function),
            },
    {
        match self {
            Declaration::Function(function_decl) => Some(function_decl),
            _ => None,
        }
    }
}

} // verus!
