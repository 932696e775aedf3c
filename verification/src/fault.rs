//! What ends a run for good.
use crate::text::{characters, decimal_text, push_decimal};
use vstd::prelude::*;

verus! {

/// A fatal error of the machine. There is no recovery from one: the state it
/// was raised in is kept as it was, so that trying again raises it again.
#[derive(Clone, Copy, Debug, PartialEq, Eq, Structural)]
pub enum Fault {
    /// A fetch, a read or a write at an address outside the memory. The
    /// address is reported as it was asked for, never wrapped into range.
    OutOfBounds { address: usize },
    /// A word was to be decoded whose opcode bits name no operation.
    InvalidOpcode { word: u16 },
}

impl Fault {
    /// The fault in words. For an access outside the memory they name the
    /// address.
    pub open spec fn text(self) -> Seq<char> {
        match self {
            Fault::OutOfBounds { address } =>
                "Adress out of bounds. Tried to access memory at index: "@ + decimal_text(
                    address as nat,
                ),
            Fault::InvalidOpcode { word } => "Wrong value passed to CODE"@,
        }
    }

    /// The fault in words.
    pub fn message(&self) -> (message: Vec<char>)
        ensures
            message@ == self.text(),
    {
        match *self {
            Fault::OutOfBounds { address } => {
                let mut message = characters(
                    "Adress out of bounds. Tried to access memory at index: ",
                );
                push_decimal(&mut message, address);
                message
            },
            Fault::InvalidOpcode { word } => characters("Wrong value passed to CODE"),
        }
    }
}

} // verus!
