//! The closed set of primitive type descriptors.
//!
//! Every descriptor has a fixed byte size, used both for operand-length
//! encoding and for coercion decisions, and a name used in diagnostics.

use vstd::prelude::*;

verus! {

/// One primitive type descriptor: signed and unsigned integers at several
/// widths, two floating-point widths, boolean, character, string, and the
/// nil/void kind.
#[derive(Clone, Copy, Debug, PartialEq, Eq, Structural)]
pub enum TypeKind {
    I08,
    I32,
    I64,
    I128,
    U08,
    U32,
    U64,
    U128,
    F32,
    F64,
    Bool,
    Char,
    Str,
    Nil,
}

impl TypeKind {
    /// The fixed byte size of a value of this kind on the evaluation stack.
    ///
    /// Characters occupy a single byte (their code point is truncated to
    /// 8 bits), and the string and nil kinds have no fixed-width stack
    /// footprint, so their size is zero.
    pub open spec fn spec_byte_size(self) -> u8 {
        match self {
            TypeKind::I08 => 1,
            TypeKind::I32 => 4,
            TypeKind::I64 => 8,
            TypeKind::I128 => 16,
            TypeKind::U08 => 1,
            TypeKind::U32 => 4,
            TypeKind::U64 => 8,
            TypeKind::U128 => 16,
            TypeKind::F32 => 4,
            TypeKind::F64 => 8,
            TypeKind::Bool => 1,
            TypeKind::Char => 1,
            TypeKind::Str => 0,
            TypeKind::Nil => 0,
        }
    }

    /// Executable byte size; agrees with [`Self::spec_byte_size`].
    #[verifier::when_used_as_spec(spec_byte_size)]
    pub fn byte_size(self) -> (size: u8)
        ensures
            size == self.spec_byte_size(),
    {
        match self {
            TypeKind::I08 => 1,
            TypeKind::I32 => 4,
            TypeKind::I64 => 8,
            TypeKind::I128 => 16,
            TypeKind::U08 => 1,
            TypeKind::U32 => 4,
            TypeKind::U64 => 8,
            TypeKind::U128 => 16,
            TypeKind::F32 => 4,
            TypeKind::F64 => 8,
            TypeKind::Bool => 1,
            TypeKind::Char => 1,
            TypeKind::Str => 0,
            TypeKind::Nil => 0,
        }
    }

    /// Whether this kind belongs to the integer family (signed or unsigned).
    pub open spec fn spec_is_integer(self) -> bool {
        match self {
            TypeKind::I08
            | TypeKind::I32
            | TypeKind::I64
            | TypeKind::I128
            | TypeKind::U08
            | TypeKind::U32
            | TypeKind::U64
            | TypeKind::U128 => true,
            _ => false,
        }
    }

    /// Executable integer-family test; agrees with [`Self::spec_is_integer`].
    #[verifier::when_used_as_spec(spec_is_integer)]
    pub fn is_integer(self) -> (r: bool)
        ensures
            r == self.spec_is_integer(),
    {
        match self {
            TypeKind::I08
            | TypeKind::I32
            | TypeKind::I64
            | TypeKind::I128
            | TypeKind::U08
            | TypeKind::U32
            | TypeKind::U64
            | TypeKind::U128 => true,
            _ => false,
        }
    }

    /// Whether this kind is one of the two floating-point widths.
    pub open spec fn spec_is_float(self) -> bool {
        match self {
            TypeKind::F32 | TypeKind::F64 => true,
            _ => false,
        }
    }

    /// Executable floating-point test; agrees with [`Self::spec_is_float`].
    #[verifier::when_used_as_spec(spec_is_float)]
    pub fn is_float(self) -> (r: bool)
        ensures
            r == self.spec_is_float(),
    {
        match self {
            TypeKind::F32 | TypeKind::F64 => true,
            _ => false,
        }
    }

    /// The name of the kind as it appears in diagnostics.
    pub open spec fn spec_name(self) -> Seq<char> {
        match self {
            TypeKind::I08 => "i8"@,
            TypeKind::I32 => "i32"@,
            TypeKind::I64 => "i64"@,
            TypeKind::I128 => "i128"@,
            TypeKind::U08 => "u8"@,
            TypeKind::U32 => "u32"@,
            TypeKind::U64 => "u64"@,
            TypeKind::U128 => "u128"@,
            TypeKind::F32 => "f32"@,
            TypeKind::F64 => "f64"@,
            TypeKind::Bool => "bool"@,
            TypeKind::Char => "char"@,
            TypeKind::Str => "string"@,
            TypeKind::Nil => "nil"@,
        }
    }

    /// Executable kind name; agrees with [`Self::spec_name`].
    pub fn name(self) -> (name: &'static str)
        ensures
            name@ == self.spec_name(),
    {
        match self {
            TypeKind::I08 => "i8",
            TypeKind::I32 => "i32",
            TypeKind::I64 => "i64",
            TypeKind::I128 => "i128",
            TypeKind::U08 => "u8",
            TypeKind::U32 => "u32",
            TypeKind::U64 => "u64",
            TypeKind::U128 => "u128",
            TypeKind::F32 => "f32",
            TypeKind::F64 => "f64",
            TypeKind::Bool => "bool",
            TypeKind::Char => "char",
            TypeKind::Str => "string",
            TypeKind::Nil => "nil",
        }
    }
}

} // verus!
