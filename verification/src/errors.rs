//! Errors raised during code generation.
//!
//! `TypeError` and `UnimplementedError` are user-facing diagnostics: they
//! carry enough context to be rendered against the source lines,
//! and compilation of the unit stops as soon as one is raised — no partial
//! bytecode is valid once an error came back.  `LookupError` is a defect
//! class: it signals that the upstream semantic pass broke its contract by
//! leaving a name unresolved, which cannot happen for a program that passed
//! semantic analysis.

use crate::ast::Pos;
use crate::types::TypeKind;
use vstd::prelude::*;
use vstd::string::StringExecFns;

verus! {

/// Why a cast or a literal has no defined encoding.
#[derive(Clone, Copy, Debug, PartialEq, Eq, Structural)]
pub enum TypeFault {
    /// No conversion rule leads out of this kind.
    CastFrom(TypeKind),
    /// No conversion rule leads into this kind.
    CastTo(TypeKind),
    /// A string literal longer than 255 bytes cannot carry its length in
    /// the one-byte length field.
    OverlongString,
}

/// One code-generation error, with the source position it is reported at.
#[derive(Clone, Copy, Debug, PartialEq, Eq, Structural)]
pub enum CompileError {
    /// A cast or coercion has no defined rule, or a literal cannot be
    /// encoded.
    TypeError(TypeFault, Pos),
    /// A recognized but unsupported syntactic form: a destructuring
    /// binding target.
    UnimplementedError(Pos),
    /// A name or symbol reference was absent from the directory; an
    /// upstream contract violation, fatal for the compilation unit.
    LookupError(Pos),
}

impl CompileError {
    /// The diagnostic text for this error.
    pub open spec fn spec_message(self) -> Seq<char> {
        match self {
            CompileError::TypeError(TypeFault::CastFrom(kind), _) => "can't cast from `"@
                + kind.spec_name() + "`"@,
            CompileError::TypeError(TypeFault::CastTo(kind), _) => "can't cast to `"@
                + kind.spec_name() + "`"@,
            CompileError::TypeError(TypeFault::OverlongString, _) => "string literal is longer than 255 bytes"@,
            CompileError::UnimplementedError(_) => "set declaration compilation is unimplemented"@,
            CompileError::LookupError(_) => "unresolved name"@,
        }
    }

    /// Render the diagnostic text; agrees with [`Self::spec_message`].
    pub fn message(&self) -> (text: String)
        ensures
            text@ == self.spec_message(),
    {
        let mut text = String::new();
        match self {
            CompileError::TypeError(TypeFault::CastFrom(kind), _) => {
                text.append("can't cast from `");
                text.append(kind.name());
                text.append("`");
            },
            CompileError::TypeError(TypeFault::CastTo(kind), _) => {
                text.append("can't cast to `");
                text.append(kind.name());
                text.append("`");
            },
            CompileError::TypeError(TypeFault::OverlongString, _) => {
                text.append("string literal is longer than 255 bytes");
            },
            CompileError::UnimplementedError(_) => {
                text.append("set declaration compilation is unimplemented");
            },
            CompileError::LookupError(_) => {
                text.append("unresolved name");
            },
        }
        proof {
            assert(text@ =~= self.spec_message());
        }
        text
    }

    /// The source position the error is reported at.
    pub fn pos(&self) -> (pos: Pos)
        ensures
            pos == self.spec_pos(),
    {
        match self {
            CompileError::TypeError(_, pos) => *pos,
            CompileError::UnimplementedError(pos) => *pos,
            CompileError::LookupError(pos) => *pos,
        }
    }

    /// The source position carried by this error.
    pub open spec fn spec_pos(self) -> Pos {
        match self {
            CompileError::TypeError(_, pos) => pos,
            CompileError::UnimplementedError(pos) => pos,
            CompileError::LookupError(pos) => pos,
        }
    }
}

} // verus!
