use wu::ast::{Expression, ExpressionNode, Pos, Statement, StatementNode};
use wu::compiler::Compiler;
use wu::directory::{Binding, Directory, Slot};
use wu::encoding::read_le_bytes;
use wu::types::TypeKind;

fn pos(line: usize, col: usize) -> Pos {
    Pos { line, col }
}

fn expr(node: ExpressionNode) -> Expression {
    Expression { node, pos: pos(1, 1) }
}

fn empty_directory() -> Directory {
    Directory { bindings: Vec::new(), slots: Vec::new() }
}

fn compiler() -> Compiler {
    Compiler::new(empty_directory())
}

#[test]
fn empty_program_is_just_halt() {
    let mut c = compiler();
    let ast: Vec<Statement> = Vec::new();
    assert!(c.compile(&ast).is_ok());
    assert_eq!(c.bytecode, vec![7]);
}

#[test]
fn int_literal_pushes_little_endian_payload() {
    let mut c = compiler();
    let e = expr(ExpressionNode::Int(5, TypeKind::I32));
    assert!(c.compile_expression(&e).is_ok());
    assert_eq!(c.bytecode, vec![0, 4, 5, 0, 0, 0]);
}

#[test]
fn int_literal_width_follows_kind() {
    let mut c = compiler();
    let e = expr(ExpressionNode::Int(258, TypeKind::I64));
    assert!(c.compile_expression(&e).is_ok());
    assert_eq!(c.bytecode, vec![0, 8, 2, 1, 0, 0, 0, 0, 0, 0]);
}

#[test]
fn int_literal_round_trips_through_payload() {
    let mut c = compiler();
    let value: u128 = 0xDEADBEEF;
    let e = expr(ExpressionNode::Int(value, TypeKind::U64));
    assert!(c.compile_expression(&e).is_ok());
    assert_eq!(c.bytecode[0], 0);
    assert_eq!(c.bytecode[1], 8);
    let payload: Vec<u8> = c.bytecode[2..].to_vec();
    assert_eq!(payload.len(), 8);
    assert_eq!(read_le_bytes(&payload), value);
}

#[test]
fn widest_int_literal_round_trips() {
    let mut c = compiler();
    let value = u128::MAX - 7;
    let e = expr(ExpressionNode::Int(value, TypeKind::U128));
    assert!(c.compile_expression(&e).is_ok());
    let payload: Vec<u8> = c.bytecode[2..].to_vec();
    assert_eq!(payload.len(), 16);
    assert_eq!(read_le_bytes(&payload), value);
}

#[test]
fn float_literal_pushes_its_bit_pattern() {
    let mut c = compiler();
    let bits = 3.5f32.to_bits();
    let e = expr(ExpressionNode::Float(bits));
    assert!(c.compile_expression(&e).is_ok());
    let mut expected = vec![0, 4];
    expected.extend(bits.to_le_bytes());
    assert_eq!(c.bytecode, expected);
}

#[test]
fn char_literal_is_one_byte() {
    let mut c = compiler();
    let e = expr(ExpressionNode::Char('A'));
    assert!(c.compile_expression(&e).is_ok());
    assert_eq!(c.bytecode, vec![0, 1, 65]);
}

#[test]
fn char_literal_code_point_is_truncated() {
    let mut c = compiler();
    let e = expr(ExpressionNode::Char('\u{0141}'));
    assert!(c.compile_expression(&e).is_ok());
    assert_eq!(c.bytecode, vec![0, 1, 0x41]);
}

#[test]
fn bool_literals_push_one_and_zero() {
    let mut c = compiler();
    assert!(c.compile_expression(&expr(ExpressionNode::Bool(true))).is_ok());
    assert!(c.compile_expression(&expr(ExpressionNode::Bool(false))).is_ok());
    assert_eq!(c.bytecode, vec![0, 1, 1, 0, 1, 0]);
}

#[test]
fn string_literal_pushes_length_then_bytes() {
    let mut c = compiler();
    let e = expr(ExpressionNode::Str(b"hi".to_vec()));
    assert!(c.compile_expression(&e).is_ok());
    assert_eq!(c.bytecode, vec![0, 2, 104, 105]);
}

#[test]
fn identifier_pushes_deref_of_resolved_slot() {
    let dir = Directory {
        bindings: vec![Binding { name: "x".to_string(), symbol: 3, env: 1 }],
        slots: vec![Slot { symbol: 3, env: 1, offset: 9, kind: TypeKind::I64 }],
    };
    let mut c = Compiler::new(dir);
    let e = expr(ExpressionNode::Identifier("x".to_string()));
    assert!(c.compile_expression(&e).is_ok());
    assert_eq!(c.bytecode, vec![1, 8, 9, 0, 0, 0]);
}

#[test]
fn first_binding_of_a_name_wins() {
    let dir = Directory {
        bindings: vec![
            Binding { name: "x".to_string(), symbol: 0, env: 0 },
            Binding { name: "x".to_string(), symbol: 1, env: 0 },
        ],
        slots: vec![
            Slot { symbol: 0, env: 0, offset: 0, kind: TypeKind::U08 },
            Slot { symbol: 1, env: 0, offset: 8, kind: TypeKind::U32 },
        ],
    };
    let mut c = Compiler::new(dir);
    let e = expr(ExpressionNode::Identifier("x".to_string()));
    assert!(c.compile_expression(&e).is_ok());
    assert_eq!(c.bytecode, vec![1, 1, 0, 0, 0, 0]);
}

#[test]
fn set_expression_is_silently_skipped() {
    let mut c = compiler();
    let e = expr(ExpressionNode::SetForm(vec![expr(ExpressionNode::Bool(true))]));
    assert!(c.compile_expression(&e).is_ok());
    assert_eq!(c.bytecode, Vec::<u8>::new());
}

#[test]
fn expression_statement_leaves_value_unconsumed() {
    let mut c = compiler();
    let ast = vec![Statement {
        node: StatementNode::Expression(expr(ExpressionNode::Int(1, TypeKind::I08))),
        pos: pos(1, 1),
    }];
    assert!(c.compile(&ast).is_ok());
    assert_eq!(c.bytecode, vec![0, 1, 1, 7]);
}
