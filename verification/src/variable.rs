//! Variables: named operands with a declared type.

use vstd::prelude::*;

verus! {

/// A width in bits.
pub type BitSize = u16;

/// The declared type of a variable or of an unknown value.
#[derive(Debug, PartialEq, Eq, Hash, Clone, Copy, Structural)]
pub enum Type {
    /// An immediate value of the given width.
    Immediate(BitSize),
    /// A memory region, with the widths of its addresses and of its cells.
    Memory { addr_size: BitSize, elem_size: BitSize },
    /// A type that is not known.
    Unknown,
}

impl Type {
    /// The width of a value of this type: that of an immediate, and none for
    /// every other type.
    pub open spec fn spec_bitsize(&self) -> Option<BitSize> {
        match *self {
            Type::Immediate(bits) => Some(bits),
            _ => None,
        }
    }

    /// The width of a value of this type, where the type has one.
    #[verifier::when_used_as_spec(spec_bitsize)]
    pub fn bitsize(&self) -> (bits: Option<BitSize>)
        ensures
            bits == self.spec_bitsize(),
    {
        match self {
            Type::Immediate(bits) => Some(*bits),
            _ => None,
        }
    }
}

/// A named operand. It has no identity beyond its fields: two variables with
/// equal fields are the same variable.
#[derive(Debug, Eq, Hash)]
pub struct Variable {
    pub name: String,
    pub type_: Type,
    pub is_temp: bool,
}

/// The mathematical value of a variable.
pub struct SpecVariable {
    pub name: Seq<char>,
    pub type_: Type,
    pub is_temp: bool,
}

impl SpecVariable {
    /// The declared width of the variable, where its type has one.
    pub open spec fn bitsize(self) -> Option<BitSize> {
        self.type_.spec_bitsize()
    }
}

impl View for Variable {
    type V = SpecVariable;

    open spec fn view(&self) -> SpecVariable {
        SpecVariable { name: self.name@, type_: self.type_, is_temp: self.is_temp }
    }
}

impl Clone for Variable {
    fn clone(&self) -> (copy: Self)
        ensures
            copy@ == self@,
    {
        Variable { name: self.name.clone(), type_: self.type_, is_temp: self.is_temp }
    }
}

impl PartialEq for Variable {
    fn eq(&self, other: &Self) -> (equal: bool) {
        self.name == other.name && self.type_ == other.type_ && self.is_temp == other.is_temp
    }
}

impl vstd::std_specs::cmp::PartialEqSpecImpl for Variable {
    open spec fn obeys_eq_spec() -> bool {
        true
    }

    open spec fn eq_spec(&self, other: &Self) -> bool {
        self@ == other@
    }
}

impl Variable {
    /// The declared width of the variable, where its type has one.
    pub fn bitsize(&self) -> (bits: Option<BitSize>)
        ensures
            bits == self@.bitsize(),
    {
        self.type_.bitsize()
    }
}

} // verus!
