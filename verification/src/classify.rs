//! Three-way classification of bytes drained from the buffer: a
//! start-of-message marker, an end-of-message marker, or general data. The
//! category-specific handling belongs to the driving loop; this module only
//! decides the category.

use vstd::prelude::*;

verus! {

/// The byte value that marks the start of a message.
pub const START_OF_MESSAGE: u8 = 0x01;

/// The byte value that marks the end of a message.
pub const END_OF_MESSAGE: u8 = 0x02;

/// The category of a received byte.
#[derive(Clone, Copy, Debug, PartialEq, Eq, Structural)]
pub enum ByteClass {
    StartOfMessage,
    EndOfMessage,
    Data,
}

/// The category a byte value falls under.
pub open spec fn classification(byte: u8) -> ByteClass {
    if byte == START_OF_MESSAGE {
        ByteClass::StartOfMessage
    } else if byte == END_OF_MESSAGE {
        ByteClass::EndOfMessage
    } else {
        ByteClass::Data
    }
}

/// Classifies one byte taken from the buffer.
pub fn process_uart_byte(byte: u8) -> (result: ByteClass)
    ensures
        result == classification(byte),
{
    match byte {
        START_OF_MESSAGE => ByteClass::StartOfMessage,
        END_OF_MESSAGE => ByteClass::EndOfMessage,
        _ => ByteClass::Data,
    }
}

} // verus!
