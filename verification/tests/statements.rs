use wu::ast::{Expression, ExpressionNode, Pos, Statement, StatementNode};
use wu::compiler::Compiler;
use wu::directory::{Binding, Directory, Slot};
use wu::errors::{CompileError, TypeFault};
use wu::types::TypeKind;

fn pos(line: usize, col: usize) -> Pos {
    Pos { line, col }
}

fn expr_at(node: ExpressionNode, p: Pos) -> Expression {
    Expression { node, pos: p }
}

fn ident(name: &str) -> Expression {
    expr_at(ExpressionNode::Identifier(name.to_string()), pos(1, 1))
}

fn int_lit(value: u128, kind: TypeKind) -> Expression {
    expr_at(ExpressionNode::Int(value, kind), pos(1, 5))
}

fn one_slot_directory(name: &str, offset: u32, kind: TypeKind) -> Directory {
    Directory {
        bindings: vec![Binding { name: name.to_string(), symbol: 0, env: 0 }],
        slots: vec![Slot { symbol: 0, env: 0, offset, kind }],
    }
}

fn variable(declared: TypeKind, left: Expression, right: Option<Expression>) -> Statement {
    Statement { node: StatementNode::Variable(declared, left, right), pos: pos(1, 1) }
}

#[test]
fn matching_kinds_assign_without_coercion() {
    let mut c = Compiler::new(one_slot_directory("x", 0, TypeKind::I32));
    let ast = vec![variable(TypeKind::I32, ident("x"), Some(int_lit(5, TypeKind::I32)))];
    assert!(c.compile(&ast).is_ok());
    assert_eq!(c.bytecode, vec![0, 4, 5, 0, 0, 0, 2, 4, 0, 0, 0, 0, 7]);
}

#[test]
fn integer_initializer_coerces_to_float_binding() {
    let mut c = Compiler::new(one_slot_directory("y", 4, TypeKind::F32));
    let ast = vec![variable(TypeKind::F32, ident("y"), Some(int_lit(3, TypeKind::I32)))];
    assert!(c.compile(&ast).is_ok());
    assert_eq!(c.bytecode, vec![0, 4, 3, 0, 0, 0, 4, 4, 4, 2, 4, 4, 0, 0, 0, 7]);
}

#[test]
fn signed_initializer_coerces_between_integer_kinds() {
    let mut c = Compiler::new(one_slot_directory("n", 2, TypeKind::U64));
    let ast = vec![variable(TypeKind::U64, ident("n"), Some(int_lit(9, TypeKind::I08)))];
    assert!(c.compile(&ast).is_ok());
    assert_eq!(c.bytecode, vec![0, 1, 9, 3, 1, 8, 2, 8, 2, 0, 0, 0, 7]);
}

#[test]
fn unsigned_initializer_coerces_between_integer_kinds() {
    let mut c = Compiler::new(one_slot_directory("u", 0, TypeKind::U32));
    let ast = vec![variable(TypeKind::U32, ident("u"), Some(int_lit(1, TypeKind::U08)))];
    assert!(c.compile(&ast).is_ok());
    assert_eq!(c.bytecode, vec![0, 1, 1, 3, 1, 4, 2, 4, 0, 0, 0, 0, 7]);
}

#[test]
fn unsigned_initializer_coerces_to_float_binding() {
    let mut c = Compiler::new(one_slot_directory("f", 0, TypeKind::F32));
    let ast = vec![variable(TypeKind::F32, ident("f"), Some(int_lit(2, TypeKind::U08)))];
    assert!(c.compile(&ast).is_ok());
    assert_eq!(c.bytecode, vec![0, 1, 2, 4, 1, 4, 2, 4, 0, 0, 0, 0, 7]);
}

#[test]
fn widest_integer_initializer_is_not_coerced_to_float() {
    let mut c = Compiler::new(one_slot_directory("w", 0, TypeKind::F64));
    let ast = vec![variable(TypeKind::F64, ident("w"), Some(int_lit(6, TypeKind::I128)))];
    assert!(c.compile(&ast).is_ok());
    let mut expected = vec![0, 16];
    expected.extend([6, 0, 0, 0, 0, 0, 0, 0, 0, 0, 0, 0, 0, 0, 0, 0]);
    expected.extend([2, 8, 0, 0, 0, 0, 7]);
    assert_eq!(c.bytecode, expected);
}

#[test]
fn unsigned_widest_initializer_is_not_coerced_to_float() {
    let mut c = Compiler::new(one_slot_directory("w", 0, TypeKind::F64));
    let ast = vec![variable(TypeKind::F64, ident("w"), Some(int_lit(6, TypeKind::U128)))];
    assert!(c.compile(&ast).is_ok());
    let mut expected = vec![0, 16];
    expected.extend([6, 0, 0, 0, 0, 0, 0, 0, 0, 0, 0, 0, 0, 0, 0, 0]);
    expected.extend([2, 8, 0, 0, 0, 0, 7]);
    assert_eq!(c.bytecode, expected);
}

#[test]
fn other_statement_kind_is_skipped() {
    let mut c = Compiler::new(one_slot_directory("x", 0, TypeKind::I32));
    let ast = vec![Statement { node: StatementNode::Other, pos: pos(4, 1) }];
    assert!(c.compile(&ast).is_ok());
    assert_eq!(c.bytecode, vec![7]);
}

#[test]
fn nil_declared_kind_pops_the_initializer_size() {
    let mut c = Compiler::new(one_slot_directory("z", 1, TypeKind::Nil));
    let ast = vec![variable(TypeKind::Nil, ident("z"), Some(int_lit(8, TypeKind::I32)))];
    assert!(c.compile(&ast).is_ok());
    assert_eq!(c.bytecode, vec![0, 4, 8, 0, 0, 0, 2, 4, 1, 0, 0, 0, 7]);
}

#[test]
fn constant_binding_assigns_like_a_variable() {
    let mut c = Compiler::new(one_slot_directory("k", 0, TypeKind::I32));
    let ast = vec![Statement {
        node: StatementNode::Constant(TypeKind::I32, ident("k"), int_lit(2, TypeKind::I32)),
        pos: pos(1, 1),
    }];
    assert!(c.compile(&ast).is_ok());
    assert_eq!(c.bytecode, vec![0, 4, 2, 0, 0, 0, 2, 4, 0, 0, 0, 0, 7]);
}

#[test]
fn uninitialized_variable_emits_nothing() {
    let mut c = Compiler::new(one_slot_directory("x", 0, TypeKind::I32));
    let ast = vec![variable(TypeKind::I32, ident("x"), None)];
    assert!(c.compile(&ast).is_ok());
    assert_eq!(c.bytecode, vec![7]);
}

#[test]
fn non_identifier_binding_target_is_skipped() {
    let mut c = Compiler::new(one_slot_directory("x", 0, TypeKind::I32));
    let ast = vec![variable(TypeKind::I32, int_lit(1, TypeKind::I32), Some(int_lit(2, TypeKind::I32)))];
    assert!(c.compile(&ast).is_ok());
    assert_eq!(c.bytecode, vec![7]);
}

#[test]
fn set_pattern_variable_binding_is_unimplemented() {
    let mut c = Compiler::new(one_slot_directory("x", 0, TypeKind::I32));
    let target = expr_at(ExpressionNode::SetForm(vec![ident("x")]), pos(2, 1));
    let stmt_pos = pos(2, 1);
    let ast = vec![Statement {
        node: StatementNode::Variable(TypeKind::I32, target, Some(int_lit(1, TypeKind::I32))),
        pos: stmt_pos,
    }];
    let err = c.compile(&ast).unwrap_err();
    assert_eq!(err, CompileError::UnimplementedError(stmt_pos));
    assert_eq!(err.message(), "set declaration compilation is unimplemented");
    assert_eq!(c.bytecode, Vec::<u8>::new());
}

#[test]
fn set_pattern_constant_binding_is_unimplemented() {
    let mut c = Compiler::new(one_slot_directory("x", 0, TypeKind::I32));
    let target = expr_at(ExpressionNode::SetForm(Vec::new()), pos(3, 1));
    let stmt_pos = pos(3, 2);
    let ast = vec![Statement {
        node: StatementNode::Constant(TypeKind::I32, target, int_lit(1, TypeKind::I32)),
        pos: stmt_pos,
    }];
    let err = c.compile(&ast).unwrap_err();
    assert_eq!(err, CompileError::UnimplementedError(stmt_pos));
}

#[test]
fn unresolved_assignment_target_is_a_lookup_error() {
    let mut c = Compiler::new(Directory { bindings: Vec::new(), slots: Vec::new() });
    let left_pos = pos(6, 1);
    let left = expr_at(ExpressionNode::Identifier("gone".to_string()), left_pos);
    let ast = vec![variable(TypeKind::I32, left, Some(int_lit(1, TypeKind::I32)))];
    let err = c.compile(&ast).unwrap_err();
    assert_eq!(err, CompileError::LookupError(left_pos));
}

#[test]
fn compilation_stops_at_the_first_error() {
    let mut c = Compiler::new(one_slot_directory("x", 0, TypeKind::I32));
    let bad_pos = pos(1, 1);
    let bad = Statement {
        node: StatementNode::Variable(
            TypeKind::I32,
            expr_at(ExpressionNode::SetForm(Vec::new()), bad_pos),
            None,
        ),
        pos: bad_pos,
    };
    let good = variable(TypeKind::I32, ident("x"), Some(int_lit(5, TypeKind::I32)));
    let err = c.compile(&vec![bad, good]).unwrap_err();
    assert_eq!(err, CompileError::UnimplementedError(bad_pos));
    assert!(!c.bytecode.contains(&7));
}

#[test]
fn two_statements_emit_in_order_then_halt() {
    let mut c = Compiler::new(one_slot_directory("x", 0, TypeKind::I08));
    let first = variable(TypeKind::I08, ident("x"), Some(int_lit(1, TypeKind::I08)));
    let second = Statement {
        node: StatementNode::Expression(ident("x")),
        pos: pos(2, 1),
    };
    assert!(c.compile(&vec![first, second]).is_ok());
    assert_eq!(c.bytecode, vec![0, 1, 1, 2, 1, 0, 0, 0, 0, 1, 1, 0, 0, 0, 0, 7]);
}
