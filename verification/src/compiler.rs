//! The executable code generator.
//!
//! A [`Compiler`] owns the append-only bytecode sink and a read-only
//! [`Directory`] snapshot.  Each method is proved to append exactly the
//! bytes that the specification functions in [`crate::emission`] give for
//! its input, and to return exactly the error they give, if any.

use crate::ast::{Expression, ExpressionNode, Statement, StatementNode};
use crate::directory::Directory;
use crate::emission::{
    assign_code, conv_for_cast, expr_code, program_code, stmt_code, stmts_code, stmts_code_from,
};
use crate::encoding::push_le_bytes;
use crate::errors::{CompileError, TypeFault};
use crate::instruction::Instruction;
use crate::types::TypeKind;
use vstd::prelude::*;

verus! {

/// The code generator: an append-only byte sink and the directory built by
/// the upstream semantic pass.
pub struct Compiler {
    pub bytecode: Vec<u8>,
    pub directory: Directory,
}

impl Compiler {
    /// A fresh compiler with an empty sink.
    pub fn new(directory: Directory) -> (compiler: Compiler)
        ensures
            compiler.bytecode@ == Seq::<u8>::empty(),
            compiler.directory == directory,
    {
        Compiler { bytecode: Vec::new(), directory }
    }

    /// Append one opcode byte.
    fn emit(&mut self, code: Instruction)
        ensures
            final(self).bytecode@ == old(self).bytecode@.push(code.opcode()),
            final(self).directory == old(self).directory,
    {
        let byte = code.opcode();
        self.bytecode.push(byte);
    }

    /// Append one raw byte.
    fn emit_byte(&mut self, byte: u8)
        ensures
            final(self).bytecode@ == old(self).bytecode@.push(byte),
            final(self).directory == old(self).directory,
    {
        self.bytecode.push(byte);
    }

    /// Append a raw byte sequence.
    fn emit_bytes(&mut self, bytes: &Vec<u8>)
        ensures
            final(self).bytecode@ == old(self).bytecode@ + bytes@,
            final(self).directory == old(self).directory,
    {
        let ghost orig = self.bytecode@;
        let mut i: usize = 0;
        while i < bytes.len()
            invariant
                i <= bytes@.len(),
                self.bytecode@ == orig + bytes@.take(i as int),
                self.directory == old(self).directory,
            decreases bytes@.len() - i,
        {
            self.bytecode.push(bytes[i]);
            proof {
                assert(orig + bytes@.take(i as int) + seq![bytes@[i as int]] =~= orig + bytes@.take(
                    i + 1,
                ));
            }
            i = i + 1;
        }
        proof {
            assert(bytes@.take(bytes@.len() as int) =~= bytes@);
        }
    }

    /// Append the `width` little-endian bytes of `value`.
    fn emit_value(&mut self, value: u128, width: u8)
        ensures
            final(self).bytecode@ == old(self).bytecode@ + crate::encoding::le_bytes(
                value as nat,
                width as nat,
            ),
            final(self).directory == old(self).directory,
    {
        push_le_bytes(&mut self.bytecode, value, width);
    }

    /// Lower one expression: append the instructions that leave its value
    /// on the evaluation stack, exactly as [`expr_code`] states, or stop
    /// with the error it states.
    #[verifier::rlimit(60)]
    pub fn compile_expression(&mut self, expression: &Expression) -> (r: Result<(), CompileError>)
        ensures
            ({
                let (code, err) = expr_code(*expression, old(self).directory);
                &&& final(self).directory == old(self).directory
                &&& final(self).bytecode@ == old(self).bytecode@ + code
                &&& match r {
                    Ok(()) => err is None,
                    Err(e) => Some(e) == err,
                }
            }),
        decreases *expression,
    {
        let ghost spec_result = expr_code(*expression, self.directory);
        match &expression.node {
            ExpressionNode::Int(value, kind) => {
                self.emit(Instruction::Push);
                self.emit_byte(kind.byte_size());
                self.emit_value(*value, kind.byte_size());
                proof {
                    assert(self.bytecode@ =~= old(self).bytecode@ + spec_result.0);
                }
                Ok(())
            },
            ExpressionNode::Float(bits) => {
                self.emit(Instruction::Push);
                self.emit_byte(4);
                self.emit_value(*bits as u128, 4);
                proof {
                    assert(self.bytecode@ =~= old(self).bytecode@ + spec_result.0);
                }
                Ok(())
            },
            ExpressionNode::Char(c) => {
                self.emit(Instruction::Push);
                self.emit_byte(1);
                self.emit_byte(#[verifier::truncate] (*c as u8));
                proof {
                    assert(self.bytecode@ =~= old(self).bytecode@ + spec_result.0);
                }
                Ok(())
            },
            ExpressionNode::Str(bytes) => {
                if bytes.len() <= 255 {
                    self.emit(Instruction::Push);
                    self.emit_byte(bytes.len() as u8);
                    self.emit_bytes(bytes);
                    proof {
                        assert(self.bytecode@ =~= old(self).bytecode@ + spec_result.0);
                    }
                    Ok(())
                } else {
                    proof {
                        assert(self.bytecode@ =~= old(self).bytecode@ + spec_result.0);
                    }
                    Err(CompileError::TypeError(TypeFault::OverlongString, expression.pos))
                }
            },
            ExpressionNode::Bool(b) => {
                self.emit(Instruction::Push);
                self.emit_byte(1);
                self.emit_byte(if *b {
                    1
                } else {
                    0
                });
                proof {
                    assert(self.bytecode@ =~= old(self).bytecode@ + spec_result.0);
                }
                Ok(())
            },
            ExpressionNode::Identifier(name) => {
                match self.directory.resolve_name(name) {
                    Some((symbol, env)) => match self.directory.resolve_slot(symbol, env) {
                        Some((offset, kind)) => {
                            self.emit(Instruction::PushDeref);
                            self.emit_byte(kind.byte_size());
                            self.emit_value(offset as u128, 4);
                            proof {
                                assert(self.bytecode@ =~= old(self).bytecode@ + spec_result.0);
                            }
                            Ok(())
                        },
                        None => {
                            proof {
                                assert(self.bytecode@ =~= old(self).bytecode@ + spec_result.0);
                            }
                            Err(CompileError::LookupError(expression.pos))
                        },
                    },
                    None => {
                        proof {
                            assert(self.bytecode@ =~= old(self).bytecode@ + spec_result.0);
                        }
                        Err(CompileError::LookupError(expression.pos))
                    },
                }
            },
            ExpressionNode::Cast(inner, dst) => {
                let inner_ref: &Expression = &**inner;
                match self.directory.type_of(inner_ref) {
                    None => {
                        proof {
                            assert(self.bytecode@ =~= old(self).bytecode@ + spec_result.0);
                        }
                        Err(CompileError::LookupError(inner_ref.pos))
                    },
                    Some(src) => {
                        match self.compile_expression(inner_ref) {
                            Err(e) => Err(e),
                            Ok(()) => {
                                match conv_for_cast(src, *dst) {
                                    Ok(instruction) => {
                                        self.emit(instruction);
                                        self.emit_byte(src.byte_size());
                                        self.emit_byte(dst.byte_size());
                                        proof {
                                            assert(self.bytecode@ =~= old(self).bytecode@
                                                + spec_result.0);
                                        }
                                        Ok(())
                                    },
                                    Err(fault) => Err(
                                        CompileError::TypeError(fault, expression.pos),
                                    ),
                                }
                            },
                        }
                    },
                }
            },
            ExpressionNode::SetForm(_) => {
                proof {
                    assert(self.bytecode@ =~= old(self).bytecode@ + spec_result.0);
                }
                Ok(())
            },
        }
    }

    /// Lower one binding: evaluate the initializer, insert the coercion
    /// the partial matrix calls for, and store the result at the target's
    /// resolved offset, exactly as [`assign_code`] states.
    pub fn assign(&mut self, declared: TypeKind, left: &Expression, right: &Expression) -> (r:
        Result<(), CompileError>)
        ensures
            ({
                let (code, err) = assign_code(declared, *left, *right, old(self).directory);
                &&& final(self).directory == old(self).directory
                &&& final(self).bytecode@ == old(self).bytecode@ + code
                &&& match r {
                    Ok(()) => err is None,
                    Err(e) => Some(e) == err,
                }
            }),
    {
        let ghost spec_result = assign_code(declared, *left, *right, self.directory);
        match &left.node {
            ExpressionNode::Identifier(name) => {
                match self.compile_expression(right) {
                    Err(e) => Err(e),
                    Ok(()) => {
                        let right_kind = match self.directory.type_of(right) {
                            Some(kind) => kind,
                            None => {
                                return Err(CompileError::LookupError(right.pos));
                            },
                        };
                        if right_kind != declared {
                            if declared.is_integer() && right_kind.is_integer() {
                                self.emit(Instruction::ConvII);
                                self.emit_byte(right_kind.byte_size());
                                self.emit_byte(declared.byte_size());
                            } else if declared.is_float() && right_kind.is_integer()
                                && right_kind.byte_size() < 16 {
                                self.emit(Instruction::ConvIF);
                                self.emit_byte(right_kind.byte_size());
                                self.emit_byte(declared.byte_size());
                            }
                        }
                        self.emit(Instruction::Pop);
                        if !matches!(declared, TypeKind::Nil) {
                            self.emit_byte(declared.byte_size());
                        } else {
                            self.emit_byte(right_kind.byte_size());
                        }
                        match self.directory.resolve_name(name) {
                            Some((symbol, env)) => match self.directory.resolve_offset(
                                symbol,
                                env,
                            ) {
                                Some(offset) => {
                                    self.emit_value(offset as u128, 4);
                                    proof {
                                        assert(self.bytecode@ =~= old(self).bytecode@
                                            + spec_result.0);
                                    }
                                    Ok(())
                                },
                                None => {
                                    proof {
                                        assert(self.bytecode@ =~= old(self).bytecode@
                                            + spec_result.0);
                                    }
                                    Err(CompileError::LookupError(left.pos))
                                },
                            },
                            None => {
                                proof {
                                    assert(self.bytecode@ =~= old(self).bytecode@ + spec_result.0);
                                }
                                Err(CompileError::LookupError(left.pos))
                            },
                        }
                    },
                }
            },
            _ => {
                proof {
                    assert(self.bytecode@ =~= old(self).bytecode@ + spec_result.0);
                }
                Ok(())
            },
        }
    }

    /// Lower one statement, exactly as [`stmt_code`] states.
    pub fn compile_statement(&mut self, statement: &Statement) -> (r: Result<(), CompileError>)
        ensures
            ({
                let (code, err) = stmt_code(*statement, old(self).directory);
                &&& final(self).directory == old(self).directory
                &&& final(self).bytecode@ == old(self).bytecode@ + code
                &&& match r {
                    Ok(()) => err is None,
                    Err(e) => Some(e) == err,
                }
            }),
    {
        let ghost spec_result = stmt_code(*statement, self.directory);
        match &statement.node {
            StatementNode::Expression(e) => self.compile_expression(e),
            StatementNode::Constant(declared, left, right) => {
                if matches!(left.node, ExpressionNode::Identifier(_)) {
                    self.assign(*declared, left, right)
                } else if matches!(left.node, ExpressionNode::SetForm(_)) {
                    proof {
                        assert(self.bytecode@ =~= old(self).bytecode@ + spec_result.0);
                    }
                    Err(CompileError::UnimplementedError(statement.pos))
                } else {
                    proof {
                        assert(self.bytecode@ =~= old(self).bytecode@ + spec_result.0);
                    }
                    Ok(())
                }
            },
            StatementNode::Variable(declared, left, initializer) => {
                if matches!(left.node, ExpressionNode::Identifier(_)) {
                    match initializer {
                        Some(right) => self.assign(*declared, left, right),
                        None => {
                            proof {
                                assert(self.bytecode@ =~= old(self).bytecode@ + spec_result.0);
                            }
                            Ok(())
                        },
                    }
                } else if matches!(left.node, ExpressionNode::SetForm(_)) {
                    proof {
                        assert(self.bytecode@ =~= old(self).bytecode@ + spec_result.0);
                    }
                    Err(CompileError::UnimplementedError(statement.pos))
                } else {
                    proof {
                        assert(self.bytecode@ =~= old(self).bytecode@ + spec_result.0);
                    }
                    Ok(())
                }
            },
            StatementNode::Other => {
                proof {
                    assert(self.bytecode@ =~= old(self).bytecode@ + spec_result.0);
                }
                Ok(())
            },
        }
    }

    /// Lower a whole program: every statement in order, then the single
    /// terminating `Halt`, exactly as [`program_code`] states.  On an error
    /// the sink holds the bytes appended before the failure and no `Halt`
    /// is written; the partial bytecode is not valid output.
    pub fn compile(&mut self, ast: &Vec<Statement>) -> (r: Result<(), CompileError>)
        ensures
            ({
                let (code, err) = program_code(ast@, old(self).directory);
                &&& final(self).directory == old(self).directory
                &&& final(self).bytecode@ == old(self).bytecode@ + code
                &&& match r {
                    Ok(()) => err is None,
                    Err(e) => Some(e) == err,
                }
            }),
    {
        let ghost orig = old(self).bytecode@;
        let ghost dir = old(self).directory;
        let ghost mut emitted: Seq<u8> = Seq::empty();
        proof {
            assert(emitted + stmts_code_from(ast@, 0, dir).0 =~= stmts_code_from(ast@, 0, dir).0);
            assert(orig + emitted =~= orig);
        }
        let mut i: usize = 0;
        while i < ast.len()
            invariant
                i <= ast@.len(),
                orig == old(self).bytecode@,
                dir == old(self).directory,
                self.directory == dir,
                self.bytecode@ == orig + emitted,
                stmts_code(ast@, dir).0 == emitted + stmts_code_from(ast@, i as int, dir).0,
                stmts_code(ast@, dir).1 == stmts_code_from(ast@, i as int, dir).1,
            decreases ast@.len() - i,
        {
            let statement = &ast[i];
            let ghost step = stmt_code(ast@[i as int], dir);
            match self.compile_statement(statement) {
                Err(e) => {
                    proof {
                        assert(self.bytecode@ =~= orig + (emitted + step.0));
                        assert(program_code(ast@, dir).0 =~= emitted + step.0);
                    }
                    return Err(e);
                },
                Ok(()) => {
                    proof {
                        assert(stmts_code_from(ast@, i as int, dir).0 =~= step.0
                            + stmts_code_from(ast@, i + 1, dir).0);
                        emitted = emitted + step.0;
                        assert(stmts_code(ast@, dir).0 =~= emitted + stmts_code_from(
                            ast@,
                            i + 1,
                            dir,
                        ).0);
                    }
                },
            }
            i = i + 1;
        }
        proof {
            assert(stmts_code_from(ast@, i as int, dir).0 =~= Seq::<u8>::empty());
            assert(stmts_code(ast@, dir).0 =~= emitted);
        }
        self.emit(Instruction::Halt);
        proof {
            assert(self.bytecode@ =~= orig + program_code(ast@, dir).0);
        }
        Ok(())
    }
}

} // verus!
