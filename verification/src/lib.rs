//! A structural model of type and function declarations, with the queries and
//! builders that code generators ask of it.
//!
//! Every executable type has a view: a mathematical value made of sequences and
//! plain data. The contracts of the queries and builders are stated over these
//! views, and the rules that relate several operations are proved over them.

pub mod builders;
pub mod decimal;
pub mod declaration;
pub mod fields;
pub mod generics;
pub mod punctuated;
pub mod token;
pub mod types;
pub mod where_clause;

pub use crate::generics::ParamClass;
pub use crate::punctuated::Punctuated;
pub use crate::token::{
    Delimiter, Group, GroupSpan, Ident, Literal, Punct, Spacing, TokenTree,
};
pub use crate::types::{
    Attribute, Declaration, Enum, EnumDiscriminant, EnumVariant, Function, FunctionParameter,
    GenericBound, GenericParam, GenericParams, InlineGenericArgs, NamedField, NamedStructFields,
    Struct, StructFields, TupleField, TupleStructFields, TyExpr, Union, VisMarker, WhereClause,
    WhereClauseItem,
};
