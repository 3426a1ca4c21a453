//! The symbol/type directory built by the upstream semantic pass.
//!
//! The directory is read-only during code generation.  It answers three
//! queries: a name resolves to a stable (symbol-index, environment-index)
//! pair, and that pair resolves to a storage offset and to a type
//! descriptor.  Entries are searched in order; the first match wins.

use crate::ast::{Expression, ExpressionNode};
use crate::types::TypeKind;
use vstd::prelude::*;

verus! {

/// One name binding: a name and the (symbol-index, environment-index) pair
/// it resolves to.
pub struct Binding {
    pub name: String,
    pub symbol: usize,
    pub env: usize,
}

/// One resolved storage slot: the pair that owns it, its byte offset into
/// flat storage, and its resolved kind.
pub struct Slot {
    pub symbol: usize,
    pub env: usize,
    pub offset: u32,
    pub kind: TypeKind,
}

/// The immutable directory snapshot the emitter reads.
pub struct Directory {
    pub bindings: Vec<Binding>,
    pub slots: Vec<Slot>,
}

/// The first binding of `name` at or after index `i`, if any.
pub open spec fn find_binding_from(bindings: Seq<Binding>, i: int, name: Seq<char>) -> Option<
    (usize, usize),
>
    decreases bindings.len() - i,
{
    if i < 0 || i >= bindings.len() {
        None
    } else if bindings[i].name@ == name {
        Some((bindings[i].symbol, bindings[i].env))
    } else {
        find_binding_from(bindings, i + 1, name)
    }
}

/// The first slot of the pair (symbol, env) at or after index `i`, if any.
pub open spec fn find_slot_from(slots: Seq<Slot>, i: int, symbol: usize, env: usize) -> Option<
    (u32, TypeKind),
>
    decreases slots.len() - i,
{
    if i < 0 || i >= slots.len() {
        None
    } else if slots[i].symbol == symbol && slots[i].env == env {
        Some((slots[i].offset, slots[i].kind))
    } else {
        find_slot_from(slots, i + 1, symbol, env)
    }
}

impl Directory {
    /// What a name resolves to in this directory.
    pub open spec fn spec_resolve_name(self, name: Seq<char>) -> Option<(usize, usize)> {
        find_binding_from(self.bindings@, 0, name)
    }

    /// What a (symbol-index, environment-index) pair resolves to: its
    /// storage offset and its kind.
    pub open spec fn spec_resolve_slot(self, symbol: usize, env: usize) -> Option<(u32, TypeKind)> {
        find_slot_from(self.slots@, 0, symbol, env)
    }

    /// The resolved kind of an expression over the already type-checked
    /// tree.  Literals carry their kind; an identifier is looked up; the
    /// kind of a cast is its target; an aggregate falls outside the
    /// primitive descriptor set and resolves to the nil kind.  `None`
    /// arises only when an identifier is unbound, which signals a defect in
    /// the upstream pass.
    pub open spec fn spec_type_of(self, e: Expression) -> Option<TypeKind> {
        match e.node {
            ExpressionNode::Int(_, kind) => Some(kind),
            ExpressionNode::Float(_) => Some(TypeKind::F32),
            ExpressionNode::Char(_) => Some(TypeKind::Char),
            ExpressionNode::Str(_) => Some(TypeKind::Str),
            ExpressionNode::Bool(_) => Some(TypeKind::Bool),
            ExpressionNode::Identifier(name) => match self.spec_resolve_name(name@) {
                Some((symbol, env)) => match self.spec_resolve_slot(symbol, env) {
                    Some((_, kind)) => Some(kind),
                    None => None,
                },
                None => None,
            },
            ExpressionNode::Cast(_, kind) => Some(kind),
            ExpressionNode::SetForm(_) => Some(TypeKind::Nil),
        }
    }

    /// Resolve a name to its (symbol-index, environment-index) pair.
    pub fn resolve_name(&self, name: &String) -> (r: Option<(usize, usize)>)
        ensures
            r == self.spec_resolve_name(name@),
    {
        let mut i: usize = 0;
        while i < self.bindings.len()
            invariant
                i <= self.bindings@.len(),
                self.spec_resolve_name(name@) == find_binding_from(self.bindings@, i as int, name@),
            decreases self.bindings@.len() - i,
        {
            if self.bindings[i].name == *name {
                return Some((self.bindings[i].symbol, self.bindings[i].env));
            }
            i = i + 1;
        }
        None
    }

    /// Resolve a pair to its storage offset and kind.
    pub fn resolve_slot(&self, symbol: usize, env: usize) -> (r: Option<(u32, TypeKind)>)
        ensures
            r == self.spec_resolve_slot(symbol, env),
    {
        let mut i: usize = 0;
        while i < self.slots.len()
            invariant
                i <= self.slots@.len(),
                self.spec_resolve_slot(symbol, env) == find_slot_from(
                    self.slots@,
                    i as int,
                    symbol,
                    env,
                ),
            decreases self.slots@.len() - i,
        {
            if self.slots[i].symbol == symbol && self.slots[i].env == env {
                return Some((self.slots[i].offset, self.slots[i].kind));
            }
            i = i + 1;
        }
        None
    }

    /// Resolve a pair to its storage offset alone.
    pub fn resolve_offset(&self, symbol: usize, env: usize) -> (r: Option<u32>)
        ensures
            r == match self.spec_resolve_slot(symbol, env) {
                Some((offset, _)) => Some(offset),
                None => None::<u32>,
            },
    {
        match self.resolve_slot(symbol, env) {
            Some((offset, _)) => Some(offset),
            None => None,
        }
    }

    /// Resolve a pair to its kind alone.
    pub fn resolve_type(&self, symbol: usize, env: usize) -> (r: Option<TypeKind>)
        ensures
            r == match self.spec_resolve_slot(symbol, env) {
                Some((_, kind)) => Some(kind),
                None => None::<TypeKind>,
            },
    {
        match self.resolve_slot(symbol, env) {
            Some((_, kind)) => Some(kind),
            None => None,
        }
    }

    /// The resolved kind of an expression; agrees with
    /// [`Self::spec_type_of`].
    pub fn type_of(&self, e: &Expression) -> (r: Option<TypeKind>)
        ensures
            r == self.spec_type_of(*e),
    {
        match &e.node {
            ExpressionNode::Int(_, kind) => Some(*kind),
            ExpressionNode::Float(_) => Some(TypeKind::F32),
            ExpressionNode::Char(_) => Some(TypeKind::Char),
            ExpressionNode::Str(_) => Some(TypeKind::Str),
            ExpressionNode::Bool(_) => Some(TypeKind::Bool),
            ExpressionNode::Identifier(name) => match self.resolve_name(name) {
                Some((symbol, env)) => self.resolve_type(symbol, env),
                None => None,
            },
            ExpressionNode::Cast(_, kind) => Some(*kind),
            ExpressionNode::SetForm(_) => Some(TypeKind::Nil),
        }
    }
}

} // verus!
