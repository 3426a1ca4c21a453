//! Properties of the emitter, stated and proved once for all inputs.

use crate::ast::{Expression, ExpressionNode, Pos, Statement, StatementNode};
use crate::directory::Directory;
use crate::emission::{expr_code, stmt_code};
use crate::encoding::{le_bytes, le_value, lemma_le_bytes_len, lemma_le_round_trip};
use crate::errors::{CompileError, TypeFault};
use crate::instruction::Instruction;
use crate::types::TypeKind;
use vstd::arithmetic::power2::pow2;
use vstd::prelude::*;

verus! {

/// Round trip: for any integer literal of value `value` and declared kind
/// of width `w`, emitting and then decoding the `Push` payload recovers
/// exactly `value` using `w` bytes.
pub proof fn lemma_int_literal_round_trip(value: u128, kind: TypeKind, pos: Pos, dir: Directory)
    requires
        kind.is_integer(),
        (value as nat) < pow2(8 * kind.byte_size() as nat),
    ensures
        ({
            let (code, err) = expr_code(
                (Expression { node: ExpressionNode::Int(value, kind), pos }),
                dir,
            );
            &&& err is None
            &&& code.len() == 2 + kind.byte_size()
            &&& code[0] == Instruction::Push.opcode()
            &&& code[1] == kind.byte_size()
            &&& le_value(code.skip(2)) == value
        }),
{
    let e = Expression { node: ExpressionNode::Int(value, kind), pos };
    let w = kind.byte_size() as nat;
    lemma_le_bytes_len(value as nat, w);
    lemma_le_round_trip(value as nat, w);
    assert(expr_code(e, dir).0.skip(2) =~= le_bytes(value as nat, w));
}

/// Casting between two integer kinds emits exactly one `ConvII`, with the
/// operand pair (source size, destination size) in that order, after the
/// inner expression's own code.
pub proof fn lemma_cast_between_integer_kinds(
    inner: Expression,
    src: TypeKind,
    dst: TypeKind,
    pos: Pos,
    dir: Directory,
)
    requires
        dir.spec_type_of(inner) == Some(src),
        src.is_integer(),
        dst.is_integer(),
        expr_code(inner, dir).1 is None,
    ensures
        ({
            let (code, err) = expr_code(
                (Expression { node: ExpressionNode::Cast(Box::new(inner), dst), pos }),
                dir,
            );
            &&& err is None
            &&& code == expr_code(inner, dir).0 + seq![
                Instruction::ConvII.opcode(),
                src.byte_size(),
                dst.byte_size(),
            ]
        }),
{
}

/// Casting an integer kind to a floating kind emits exactly one `ConvIF`,
/// with the same operand ordering.
pub proof fn lemma_cast_integer_to_float(
    inner: Expression,
    src: TypeKind,
    dst: TypeKind,
    pos: Pos,
    dir: Directory,
)
    requires
        dir.spec_type_of(inner) == Some(src),
        src.is_integer(),
        dst.is_float(),
        expr_code(inner, dir).1 is None,
    ensures
        ({
            let (code, err) = expr_code(
                (Expression { node: ExpressionNode::Cast(Box::new(inner), dst), pos }),
                dir,
            );
            &&& err is None
            &&& code == expr_code(inner, dir).0 + seq![
                Instruction::ConvIF.opcode(),
                src.byte_size(),
                dst.byte_size(),
            ]
        }),
{
}

/// Casting an expression of a kind outside the numeric families — nil among
/// them — to a numeric kind fails with a `TypeError` naming the source
/// kind, reported at the cast expression's own position.
pub proof fn lemma_cast_from_non_numeric(
    inner: Expression,
    src: TypeKind,
    dst: TypeKind,
    pos: Pos,
    dir: Directory,
)
    requires
        dir.spec_type_of(inner) == Some(src),
        !src.is_integer() && !src.is_float(),
        dst.is_integer() || dst.is_float(),
        expr_code(inner, dir).1 is None,
    ensures
        ({
            let (code, err) = expr_code(
                (Expression { node: ExpressionNode::Cast(Box::new(inner), dst), pos }),
                dir,
            );
            &&& err == Some(CompileError::TypeError(TypeFault::CastFrom(src), pos))
            &&& code == expr_code(inner, dir).0
        }),
{
}

/// Casting any value to a kind outside the numeric families — nil and
/// string among them — fails with a `TypeError` naming the target kind,
/// reported at the cast expression's own position, not the inner
/// expression's.
pub proof fn lemma_cast_to_non_numeric(
    inner: Expression,
    src: TypeKind,
    dst: TypeKind,
    pos: Pos,
    dir: Directory,
)
    requires
        dir.spec_type_of(inner) == Some(src),
        !dst.is_integer() && !dst.is_float(),
        expr_code(inner, dir).1 is None,
    ensures
        ({
            let (code, err) = expr_code(
                (Expression { node: ExpressionNode::Cast(Box::new(inner), dst), pos }),
                dir,
            );
            &&& err == Some(CompileError::TypeError(TypeFault::CastTo(dst), pos))
            &&& code == expr_code(inner, dir).0
        }),
{
}

/// The one-byte length field bounds string literals: one of up to 255
/// bytes encodes as `Push`, its length, then its bytes, and a longer one
/// is rejected with a `TypeError` before anything is appended.
pub proof fn lemma_string_literal_boundary(e: Expression, dir: Directory)
    requires
        e.node is Str,
    ensures
        ({
            let bytes = e.node->Str_0;
            let (code, err) = expr_code(e, dir);
            &&& bytes@.len() <= 255 ==> {
                &&& err is None
                &&& code == seq![Instruction::Push.opcode(), bytes@.len() as u8] + bytes@
            }
            &&& bytes@.len() > 255 ==> {
                &&& err == Some(
                    CompileError::TypeError(TypeFault::OverlongString, e.pos),
                )
                &&& code == Seq::<u8>::empty()
            }
        }),
{
}

/// A binding whose target is a destructuring set pattern always fails with
/// `UnimplementedError` at the statement's position, whatever the
/// right-hand expression, and appends nothing.
pub proof fn lemma_set_pattern_binding_unimplemented(s: Statement, dir: Directory)
    requires
        ({
            ||| (s.node matches StatementNode::Constant(_, left, _) && left.node is SetForm)
            ||| (s.node matches StatementNode::Variable(_, left, _) && left.node is SetForm)
        }),
    ensures
        stmt_code(s, dir).0 == Seq::<u8>::empty(),
        stmt_code(s, dir).1 == Some(CompileError::UnimplementedError(s.pos)),
{
}

} // verus!
