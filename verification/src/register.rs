//! Generic typed-register abstraction.
//!
//! Every control or filter register is described by a struct whose fields are
//! the documented semantic bit-fields. A `RegisterLayout` packs such a struct
//! losslessly into the 64-bit word written to the hardware and unpacks a word
//! read back, and can check that every numeric field fits its bit-width.

use vstd::prelude::*;

verus! {

/// A typed register layout: bit-exact conversion to and from a raw 64-bit
/// register value, plus validation of field widths.
pub trait RegisterLayout: Sized {
    /// The packed 64-bit word this layout denotes.
    spec fn encode_spec(&self) -> u64;

    /// The layout denoted by a raw 64-bit word (reserved bits ignored).
    spec fn decode_spec(value: u64) -> Self;

    /// Every numeric field fits its documented bit-width.
    spec fn valid(&self) -> bool;

    /// Pack this layout into the raw register word.
    fn to_msr_value(&self) -> (r: u64)
        ensures
            r == self.encode_spec(),
    ;

    /// Unpack a raw register word into a layout.
    fn from_msr_value(value: u64) -> (r: Self)
        ensures
            r == Self::decode_spec(value),
    ;

    /// Check field widths; reports the first violation.
    fn validate(&self) -> (r: Result<(), &'static str>)
        ensures
            r is Ok <==> self.valid(),
    ;
}

/// A hardware register: an MSR address paired with a typed layout.
#[derive(Debug, Clone, Copy)]
pub struct Register<T: RegisterLayout> {
    /// MSR address.
    pub address: u64,
    /// Typed register layout.
    pub layout: T,
}

impl<T: RegisterLayout> Register<T> {
    /// Pair an address with a layout.
    pub fn new(address: u64, layout: T) -> (r: Self)
        ensures
            r.address == address,
            r.layout == layout,
    {
        Self { address, layout }
    }

    /// A register at the given address with an all-clear layout.
    pub fn with_address(address: u64) -> (r: Self)
        ensures
            r.address == address,
            r.layout == T::decode_spec(0),
    {
        Self { address, layout: T::from_msr_value(0) }
    }

    /// Check the layout's field widths.
    pub fn validate(&self) -> (r: Result<(), &'static str>)
        ensures
            r is Ok <==> self.layout.valid(),
    {
        self.layout.validate()
    }

    /// The raw word to write for this register.
    pub fn to_msr_value(&self) -> (r: u64)
        ensures
            r == self.layout.encode_spec(),
    {
        self.layout.to_msr_value()
    }

    /// Replace the layout with one unpacked from a raw word.
    pub fn from_msr_value(&mut self, value: u64)
        ensures
            final(self).address == old(self).address,
            final(self).layout == T::decode_spec(value),
    {
        self.layout = T::from_msr_value(value);
    }
}

} // verus!
