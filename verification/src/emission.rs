//! What the emitter writes, as mathematics.
//!
//! These specification functions give, for every AST node, the exact byte
//! sequence appended to the bytecode sink together with the error, if any,
//! that stops compilation.  When an error comes back the first component
//! holds the bytes appended before the failure; no partial bytecode is
//! considered valid once an error is raised.  The executable compiler is
//! proved to match these functions byte for byte.

use crate::ast::{Expression, ExpressionNode, Statement, StatementNode};
use crate::directory::Directory;
use crate::encoding::le_bytes;
use crate::errors::{CompileError, TypeFault};
use crate::instruction::Instruction;
use crate::types::TypeKind;
use vstd::prelude::*;

verus! {

/// The conversion opcode a cast emits, chosen by (source kind, destination
/// kind); or the fault when no rule exists.  The destination is classified
/// first, floating point before integer — the fallback ordering matters and
/// is part of the contract.
pub open spec fn conv_instruction(src: TypeKind, dst: TypeKind) -> Result<Instruction, TypeFault> {
    if dst.is_float() {
        if src.is_integer() {
            Ok(Instruction::ConvIF)
        } else if src.is_float() {
            Ok(Instruction::ConvFF)
        } else {
            Err(TypeFault::CastFrom(src))
        }
    } else if dst.is_integer() {
        if src.is_float() {
            Ok(Instruction::ConvFI)
        } else if src.is_integer() {
            Ok(Instruction::ConvII)
        } else {
            Err(TypeFault::CastFrom(src))
        }
    } else {
        Err(TypeFault::CastTo(dst))
    }
}

/// Executable conversion choice; agrees with [`conv_instruction`].
pub fn conv_for_cast(src: TypeKind, dst: TypeKind) -> (r: Result<Instruction, TypeFault>)
    ensures
        r == conv_instruction(src, dst),
{
    if dst.is_float() {
        if src.is_integer() {
            Ok(Instruction::ConvIF)
        } else if src.is_float() {
            Ok(Instruction::ConvFF)
        } else {
            Err(TypeFault::CastFrom(src))
        }
    } else if dst.is_integer() {
        if src.is_float() {
            Ok(Instruction::ConvFI)
        } else if src.is_integer() {
            Ok(Instruction::ConvII)
        } else {
            Err(TypeFault::CastFrom(src))
        }
    } else {
        Err(TypeFault::CastTo(dst))
    }
}

/// The bytes a binding inserts to coerce its initializer to the declared
/// kind, applied only when the two kinds differ.  The matrix is
/// deliberately partial: an integer destination accepts any integer
/// source, a floating destination accepts the narrower integer sources
/// (8/32/64-bit widths), and every other mismatched pairing is silently
/// left uncoerced.
pub open spec fn coercion_code(src: TypeKind, dst: TypeKind) -> Seq<u8> {
    if src == dst {
        Seq::empty()
    } else if dst.is_integer() && src.is_integer() {
        seq![Instruction::ConvII.opcode(), src.byte_size(), dst.byte_size()]
    } else if dst.is_float() && src.is_integer() && src.byte_size() < 16 {
        seq![Instruction::ConvIF.opcode(), src.byte_size(), dst.byte_size()]
    } else {
        Seq::empty()
    }
}

/// The bytes one expression appends, and the error that stops it, if any.
///
/// Every successful literal or dereference leaves exactly one value on the
/// evaluation stack.  A failed cast still carries the bytes of its inner
/// expression, which were appended before the fault was found; the fault —
/// whether the source kind cannot be cast from or the target kind cannot be
/// cast to — is reported at the cast expression's own position.
pub open spec fn expr_code(e: Expression, dir: Directory) -> (Seq<u8>, Option<CompileError>)
    decreases e,
{
    match e.node {
        ExpressionNode::Int(value, kind) => (
            seq![Instruction::Push.opcode(), kind.byte_size()] + le_bytes(
                value as nat,
                kind.byte_size() as nat,
            ),
            None,
        ),
        ExpressionNode::Float(bits) => (
            seq![Instruction::Push.opcode(), 4u8] + le_bytes(bits as nat, 4),
            None,
        ),
        ExpressionNode::Char(c) => (seq![Instruction::Push.opcode(), 1u8, c as u8], None),
        ExpressionNode::Str(bytes) => if bytes@.len() <= 255 {
            (seq![Instruction::Push.opcode(), bytes@.len() as u8] + bytes@, None)
        } else {
            (Seq::empty(), Some(CompileError::TypeError(TypeFault::OverlongString, e.pos)))
        },
        ExpressionNode::Bool(b) => (
            seq![Instruction::Push.opcode(), 1u8, if b {
                    1u8
                } else {
                    0u8
                }],
            None,
        ),
        ExpressionNode::Identifier(name) => match dir.spec_resolve_name(name@) {
            Some((symbol, env)) => match dir.spec_resolve_slot(symbol, env) {
                Some((offset, kind)) => (
                    seq![Instruction::PushDeref.opcode(), kind.byte_size()] + le_bytes(
                        offset as nat,
                        4,
                    ),
                    None,
                ),
                None => (Seq::empty(), Some(CompileError::LookupError(e.pos))),
            },
            None => (Seq::empty(), Some(CompileError::LookupError(e.pos))),
        },
        ExpressionNode::Cast(inner, dst) => match dir.spec_type_of(*inner) {
            None => (Seq::empty(), Some(CompileError::LookupError((*inner).pos))),
            Some(src) => {
                let (inner_code, inner_err) = expr_code(*inner, dir);
                if inner_err is Some {
                    (inner_code, inner_err)
                } else {
                    match conv_instruction(src, dst) {
                        Ok(instruction) => (
                            inner_code + seq![
                                instruction.opcode(),
                                src.byte_size(),
                                dst.byte_size(),
                            ],
                            None,
                        ),
                        Err(fault) => (inner_code, Some(CompileError::TypeError(fault, e.pos))),
                    }
                }
            },
        },
        ExpressionNode::SetForm(_) => (Seq::empty(), None),
    }
}

/// The bytes a binding appends: the initializer, the coercion if one is
/// called for, then `Pop` with a size byte — the declared kind's size, or
/// the initializer's own size when the declared kind is nil — and the
/// 4-byte storage offset of the target.  A target that is not an
/// identifier appends nothing.
pub open spec fn assign_code(
    declared: TypeKind,
    left: Expression,
    right: Expression,
    dir: Directory,
) -> (Seq<u8>, Option<CompileError>) {
    match left.node {
        ExpressionNode::Identifier(name) => {
            let (right_code, right_err) = expr_code(right, dir);
            if right_err is Some {
                (right_code, right_err)
            } else {
                match dir.spec_type_of(right) {
                    None => (right_code, Some(CompileError::LookupError(right.pos))),
                    Some(right_kind) => {
                        let coercion = coercion_code(right_kind, declared);
                        let pop_size = if declared is Nil {
                            right_kind.byte_size()
                        } else {
                            declared.byte_size()
                        };
                        let prefix = right_code + coercion + seq![
                            Instruction::Pop.opcode(),
                            pop_size,
                        ];
                        match dir.spec_resolve_name(name@) {
                            Some((symbol, env)) => match dir.spec_resolve_slot(symbol, env) {
                                Some((offset, _)) => (prefix + le_bytes(offset as nat, 4), None),
                                None => (prefix, Some(CompileError::LookupError(left.pos))),
                            },
                            None => (prefix, Some(CompileError::LookupError(left.pos))),
                        }
                    },
                }
            }
        },
        _ => (Seq::empty(), None),
    }
}

/// The bytes one statement appends.  An expression statement delegates to
/// [`expr_code`] and leaves its stack value unconsumed; a binding with an
/// identifier target delegates to [`assign_code`]; a binding with a
/// destructuring set-pattern target fails as unimplemented; every other
/// form appends nothing.
pub open spec fn stmt_code(s: Statement, dir: Directory) -> (Seq<u8>, Option<CompileError>) {
    match s.node {
        StatementNode::Expression(e) => expr_code(e, dir),
        StatementNode::Constant(declared, left, right) => if left.node is Identifier {
            assign_code(declared, left, right, dir)
        } else if left.node is SetForm {
            (Seq::empty(), Some(CompileError::UnimplementedError(s.pos)))
        } else {
            (Seq::empty(), None)
        },
        StatementNode::Variable(declared, left, initializer) => if left.node is Identifier {
            match initializer {
                Some(right) => assign_code(declared, left, right, dir),
                None => (Seq::empty(), None),
            }
        } else if left.node is SetForm {
            (Seq::empty(), Some(CompileError::UnimplementedError(s.pos)))
        } else {
            (Seq::empty(), None)
        },
        StatementNode::Other => (Seq::empty(), None),
    }
}

/// The bytes the statements from index `i` on append; compilation stops at
/// the first error.
pub open spec fn stmts_code_from(stmts: Seq<Statement>, i: int, dir: Directory) -> (
    Seq<u8>,
    Option<CompileError>,
)
    decreases stmts.len() - i,
{
    if i < 0 || i >= stmts.len() {
        (Seq::empty(), None)
    } else {
        let (first_code, first_err) = stmt_code(stmts[i], dir);
        if first_err is Some {
            (first_code, first_err)
        } else {
            let (rest_code, rest_err) = stmts_code_from(stmts, i + 1, dir);
            (first_code + rest_code, rest_err)
        }
    }
}

/// The bytes a whole statement list appends.
pub open spec fn stmts_code(stmts: Seq<Statement>, dir: Directory) -> (
    Seq<u8>,
    Option<CompileError>,
) {
    stmts_code_from(stmts, 0, dir)
}

/// A complete program: every statement in order, terminated by exactly one
/// `Halt` — which is appended only when no statement failed.
pub open spec fn program_code(stmts: Seq<Statement>, dir: Directory) -> (
    Seq<u8>,
    Option<CompileError>,
) {
    let (code, err) = stmts_code(stmts, dir);
    if err is Some {
        (code, err)
    } else {
        (code.push(Instruction::Halt.opcode()), None)
    }
}

} // verus!
