//! The numeric type lattice and storage widths.

use crate::text::{decimal, push_char, push_decimal, push_text};
use vstd::prelude::*;

verus! {

/// The type of a value: four numeric kinds and `Char` (the numeric ones),
/// `Bool`, a fixed-length string of the given byte length, and an array of
/// `size` elements of type `of`.
#[derive(Debug, PartialEq, Eq)]
pub enum Type {
    Int32,
    Int64,
    Flt32,
    Flt64,
    Char,
    Bool,
    String(usize),
    Array { of: Box<Type>, size: usize },
}

impl Clone for Type {
    fn clone(&self) -> (r: Self)
        ensures
            r == *self,
        decreases self,
    {
        match self {
            Type::Int32 => Type::Int32,
            Type::Int64 => Type::Int64,
            Type::Flt32 => Type::Flt32,
            Type::Flt64 => Type::Flt64,
            Type::Char => Type::Char,
            Type::Bool => Type::Bool,
            Type::String(n) => Type::String(*n),
            Type::Array { of, size } => Type::Array { of: Box::new((**of).clone()), size: *size },
        }
    }
}

impl Type {
    /// Whether arithmetic is defined on values of this type.
    pub open spec fn numeric(self) -> bool {
        self is Int32 || self is Int64 || self is Flt32 || self is Flt64 || self is Char
    }

    /// Rank of a numeric type in the promotion order
    /// `Flt64 > Flt32 > Int64 > Int32 > Char`.
    pub open spec fn rank(self) -> nat {
        match self {
            Type::Flt64 => 4,
            Type::Flt32 => 3,
            Type::Int64 => 2,
            Type::Int32 => 1,
            _ => 0,
        }
    }

    /// The common type of two operands: none unless both are numeric,
    /// otherwise the one of higher rank.
    pub open spec fn join(self, other: Type) -> Option<Type> {
        if !self.numeric() || !other.numeric() {
            None
        } else if self.rank() >= other.rank() {
            Some(self)
        } else {
            Some(other)
        }
    }

    /// Storage width in bytes.
    pub open spec fn width(self) -> nat
        decreases self,
    {
        match self {
            Type::Int32 => 4,
            Type::Int64 => 8,
            Type::Flt32 => 4,
            Type::Flt64 => 8,
            Type::Bool => 1,
            Type::Char => 1,
            Type::String(n) => n as nat,
            Type::Array { of, size } => of.width() * (size as nat),
        }
    }

    /// Every width met while computing this type's width fits in a `usize`.
    pub open spec fn width_fits(self) -> bool
        decreases self,
    {
        &&& self.width() <= usize::MAX
        &&& match self {
            Type::Array { of, .. } => of.width_fits(),
            _ => true,
        }
    }

    /// The type's name: `i32`, `i64`, `f32`, `f64`, `char`, `bool`,
    /// `string`, and `[size]` followed by the element type for an array.
    pub open spec fn text(self) -> Seq<char>
        decreases self,
    {
        match self {
            Type::Int32 => "i32"@,
            Type::Int64 => "i64"@,
            Type::Flt32 => "f32"@,
            Type::Flt64 => "f64"@,
            Type::Bool => "bool"@,
            Type::Char => "char"@,
            Type::String(_) => "string"@,
            Type::Array { of, size } => seq!['['] + decimal(size as nat) + seq![']'] + of.text(),
        }
    }

    /// Appends the type's name to `out`.
    pub fn write_text(&self, out: &mut String)
        ensures
            final(out)@ == old(out)@ + self.text(),
        decreases self,
    {
        match self {
            Type::Int32 => push_text(out, "i32"),
            Type::Int64 => push_text(out, "i64"),
            Type::Flt32 => push_text(out, "f32"),
            Type::Flt64 => push_text(out, "f64"),
            Type::Bool => push_text(out, "bool"),
            Type::Char => push_text(out, "char"),
            Type::String(_) => push_text(out, "string"),
            Type::Array { of, size } => {
                push_char(out, '[');
                push_decimal(out, *size);
                push_char(out, ']');
                (**of).write_text(out);
                assert(final(out)@ =~= old(out)@ + self.text());
            },
        }
    }

    pub fn to_string(&self) -> (r: String)
        ensures
            r@ == self.text(),
    {
        let mut out = String::new();
        self.write_text(&mut out);
        assert(out@ =~= self.text());
        out
    }

    /// The join is defined on every pair of numeric types and does not depend
    /// on their order; a type that is not numeric joins with nothing.
    pub proof fn upcast_symmetric(x: Type, y: Type)
        ensures
            x.numeric() && y.numeric() ==> x.join(y) is Some && x.join(y) == y.join(x),
            !x.numeric() ==> x.join(Type::Int32) is None,
    {
    }

    pub fn is_numeric(&self) -> (r: bool)
        ensures
            r == self.numeric(),
    {
        match self {
            Type::Int32 | Type::Int64 | Type::Flt32 | Type::Flt64 | Type::Char => true,
            _ => false,
        }
    }

    /// The widest of the two types when both are numeric, `None` otherwise.
    pub fn upcast(&self, other: &Type) -> (r: Option<Type>)
        ensures
            r == self.join(*other),
    {
        if !self.is_numeric() || !other.is_numeric() {
            None
        } else {
            match (self, other) {
                (Type::Flt64, _) | (_, Type::Flt64) => Some(Type::Flt64),
                (Type::Flt32, _) | (_, Type::Flt32) => Some(Type::Flt32),
                (Type::Int64, _) | (_, Type::Int64) => Some(Type::Int64),
                (Type::Int32, _) | (_, Type::Int32) => Some(Type::Int32),
                _ => Some(Type::Char),
            }
        }
    }

    pub fn get_width(&self) -> (r: usize)
        requires
            self.width_fits(),
        ensures
            r == self.width(),
        decreases self,
    {
        match self {
            Type::Int32 => 4,
            Type::Int64 => 8,
            Type::Flt32 => 4,
            Type::Flt64 => 8,
            Type::Bool => 1,
            Type::Char => 1,
            Type::String(n) => *n,
            Type::Array { of, size } => {
                let w = of.get_width();
                w * *size
            },
        }
    }
}

} // verus!
