//! Binding patterns as the parser hands them over: the shapes that stand on
//! the left of a parameter list or a destructuring assignment.
use vstd::prelude::*;

use crate::params::TsTypeDef;

verus! {

/// A simple bound name, `x` or `x?: T`.
#[derive(Debug, Clone)]
pub struct BindingIdent {
    pub name: String,
    pub optional: bool,
    pub type_ann: Option<TsTypeDef>,
}

/// An array pattern; `None` marks an elided slot.
#[derive(Debug)]
pub struct ArrayPat {
    pub elems: Vec<Option<Pat>>,
    pub optional: bool,
    pub type_ann: Option<TsTypeDef>,
}

/// An object pattern, its properties in declaration order.
#[derive(Debug)]
pub struct ObjectPat {
    pub props: Vec<ObjectPatProp>,
    pub optional: bool,
    pub type_ann: Option<TsTypeDef>,
}

/// A rest pattern, `...arg`.
#[derive(Debug)]
pub struct RestPat {
    pub arg: Box<Pat>,
    pub type_ann: Option<TsTypeDef>,
}

/// A pattern with a default value, `left = expr`; the expression is not kept.
#[derive(Debug)]
pub struct AssignPat {
    pub left: Box<Pat>,
    pub type_ann: Option<TsTypeDef>,
}

/// A binding pattern.
#[derive(Debug)]
pub enum Pat {
    Ident(BindingIdent),
    Array(ArrayPat),
    Rest(RestPat),
    Object(ObjectPat),
    Assign(AssignPat),
    /// Any other node kind (an expression or an invalid node), with the
    /// character span it covers in the source.
    Other { lo: usize, hi: usize },
}

/// One property of an object pattern.
#[derive(Debug)]
pub enum ObjectPatProp {
    /// The shorthand `{ key }` or `{ key = expr }`.
    Assign { key: String, has_value: bool },
    /// `{ key: value }`.
    KeyValue { key: PropName, value: Box<Pat> },
    /// `{ ...arg }`.
    Rest { arg: Box<Pat> },
}

/// The key of a property.
#[derive(Debug, Clone)]
pub enum PropName {
    Ident(String),
    /// A string literal, by its unescaped value.
    Str(String),
    /// A numeric literal, by the canonical decimal text of its value.
    Num(String),
    /// A big-integer literal, by the decimal text of its value.
    BigInt(String),
    /// A computed key `[expr]`, by the character span of `expr` in the source.
    Computed { lo: usize, hi: usize },
}

/// The narrower set of kinds that may stand as a function type's parameter.
#[derive(Debug)]
pub enum TsFnParam {
    Ident(BindingIdent),
    Array(ArrayPat),
    Rest(RestPat),
    Object(ObjectPat),
}

} // verus!
