//! The abstract syntax tree that the emitter walks.
//!
//! The tree arrives already type checked: semantic analysis has resolved
//! every identifier, assigned each binding a storage offset, and attached a
//! primitive kind to every literal.  Only the node kinds the emitter
//! compiles are modelled; everything it deliberately skips is represented
//! by the aggregate [`ExpressionNode::SetForm`] node.

use crate::types::TypeKind;
use vstd::prelude::*;

verus! {

/// A position in the source text, for diagnostics.
#[derive(Clone, Copy, Debug, PartialEq, Eq, Structural)]
pub struct Pos {
    pub line: usize,
    pub col: usize,
}

/// One expression node.
pub enum ExpressionNode {
    /// An integer literal: its value and its resolved integer kind, whose
    /// byte size fixes the width of the emitted payload.
    Int(u128, TypeKind),
    /// A floating-point literal, carried as the raw bit pattern of its
    /// 4-byte representation.
    Float(u32),
    /// A character literal; its code point is truncated to one byte.
    Char(char),
    /// A string literal, carried as its raw bytes.
    Str(Vec<u8>),
    /// A boolean literal.
    Bool(bool),
    /// A reference to a declared binding, resolved through the directory.
    Identifier(String),
    /// A cast of the inner expression to the given kind.
    Cast(Box<Expression>, TypeKind),
    /// An aggregate constructor.  The emitter does not compile these; as an
    /// expression it is silently skipped, and as a binding target it is
    /// rejected as unimplemented.
    SetForm(Vec<Expression>),
}

/// An expression together with its source position.
pub struct Expression {
    pub node: ExpressionNode,
    pub pos: Pos,
}

/// One statement node.
pub enum StatementNode {
    /// An expression statement; its stack value is left unconsumed.
    Expression(Expression),
    /// A constant binding: declared kind, target, initializer.
    Constant(TypeKind, Expression, Expression),
    /// A variable binding: declared kind, target, optional initializer.
    Variable(TypeKind, Expression, Option<Expression>),
    /// Any other statement kind.  The emitter does not compile these and
    /// skips them silently.
    Other,
}

/// A statement together with its source position.
pub struct Statement {
    pub node: StatementNode,
    pub pos: Pos,
}

} // verus!
