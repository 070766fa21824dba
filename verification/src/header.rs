//! The one-byte header that starts every message.
use crate::{MessageType, Parameter};
use vstd::prelude::*;

verus! {

/// The message-type field of a header byte: bits 7 to 4, which is the
/// quotient of the byte by 16.
pub open spec fn type_bits(byte: u8) -> MessageType {
    byte / 16
}

/// The parameter field of a header byte: bits 3 to 0, which is the remainder
/// of the byte by 16.
pub open spec fn parameter_bits(byte: u8) -> Parameter {
    byte % 16
}

/// The header byte that carries `message_type` in its high half and
/// `parameter` in its low half.
pub open spec fn pack(message_type: MessageType, parameter: Parameter) -> u8 {
    (message_type << 4) | parameter
}

/// A message type and a parameter, as carried by one header byte.
pub struct Header(MessageType, Parameter);

impl Header {
    /// What `new` returns. Contracts write it as `Header::new(..)`.
    pub closed spec fn spec_new(message_type: MessageType, parameter: Parameter) -> Header {
        Header(message_type, parameter)
    }

    /// What `message_type` returns. Contracts write it as `.message_type()`.
    pub closed spec fn spec_message_type(&self) -> MessageType {
        self.0
    }

    /// What `parameter` returns. Contracts write it as `.parameter()`.
    pub closed spec fn spec_parameter(&self) -> Parameter {
        self.1
    }

    /// What `from_byte` returns. Contracts write it as `Header::from_byte(..)`.
    pub closed spec fn spec_from_byte(byte: u8) -> Header {
        Header(type_bits(byte), parameter_bits(byte))
    }

    /// What `to_byte` returns. Contracts write it as `.to_byte()`.
    pub closed spec fn spec_to_byte(self) -> u8 {
        pack(self.0, self.1)
    }

    /// Both fields fit in four bits.
    pub open spec fn well_formed(&self) -> bool {
        self.message_type() <= 0xF && self.parameter() <= 0xF
    }

    /// Construct a Header from a message type and parameter.
    #[verifier::when_used_as_spec(spec_new)]
    pub fn new(message_type: MessageType, parameter: Parameter) -> (header: Header)
        ensures
            header == Header::new(message_type, parameter),
            header.message_type() == message_type,
            header.parameter() == parameter,
    {
        Header(message_type, parameter)
    }

    /// Returns the message type specified in this header.
    #[verifier::when_used_as_spec(spec_message_type)]
    pub fn message_type(&self) -> (message_type: MessageType)
        ensures
            message_type == self.message_type(),
    {
        self.0
    }

    /// Returns the parameter contained in this header.
    #[verifier::when_used_as_spec(spec_parameter)]
    pub fn parameter(&self) -> (parameter: Parameter)
        ensures
            parameter == self.parameter(),
    {
        self.1
    }

    /// Construct a header by splitting a single byte. Every byte gives a
    /// well-formed header.
    #[verifier::when_used_as_spec(spec_from_byte)]
    pub fn from_byte(byte: u8) -> (header: Header)
        ensures
            header == Header::from_byte(byte),
            header.message_type() == type_bits(byte),
            header.parameter() == parameter_bits(byte),
            header.well_formed(),
    {
        proof {
            lemma_fields_of_byte(byte);
        }
        Header((byte >> 4) & 0xF, byte & 0xF)
    }

    /// Convert a Header to its byte representation: the message type shifted
    /// into the high half, the parameter laid over the low half. Nothing is
    /// clamped: bits of the message type above the fourth are shifted out,
    /// and bits of the parameter above the fourth land in the high half.
    #[verifier::when_used_as_spec(spec_to_byte)]
    pub fn to_byte(self) -> (byte: u8)
        ensures
            byte == self.to_byte(),
            byte == pack(self.message_type(), self.parameter()),
            self.well_formed() ==> byte == 16 * self.message_type() + self.parameter(),
    {
        proof {
            if self.well_formed() {
                lemma_pack_value(self.0, self.1);
            }
        }
        self.0 << 4 | self.1
    }

    /// The header made by `new` holds the two values it was given.
    pub proof fn lemma_new(message_type: MessageType, parameter: Parameter)
        ensures
            Header::new(message_type, parameter).message_type() == message_type,
            Header::new(message_type, parameter).parameter() == parameter,
    {
    }

    /// The header made by `from_byte` holds the two fields of the byte.
    pub proof fn lemma_from_byte(byte: u8)
        ensures
            Header::from_byte(byte).message_type() == type_bits(byte),
            Header::from_byte(byte).parameter() == parameter_bits(byte),
            Header::from_byte(byte).well_formed(),
    {
        lemma_fields_of_byte(byte);
    }

    /// The byte of a header is its two fields packed.
    pub proof fn lemma_to_byte(self)
        ensures
            self.to_byte() == pack(self.message_type(), self.parameter()),
    {
    }

    /// Two headers with the same fields are the same header.
    pub proof fn lemma_same_fields(self, other: Header)
        requires
            self.message_type() == other.message_type(),
            self.parameter() == other.parameter(),
        ensures
            self == other,
    {
    }
}

impl From<u8> for Header {
    /// Construct a header by splitting a single byte.
    fn from(v: u8) -> (header: Header)
        ensures
            header.message_type() == type_bits(v),
            header.parameter() == parameter_bits(v),
            header.well_formed(),
    {
        Header::from_byte(v)
    }
}

impl vstd::std_specs::convert::FromSpecImpl<u8> for Header {
    open spec fn obeys_from_spec() -> bool {
        true
    }

    open spec fn from_spec(v: u8) -> Header {
        Header::from_byte(v)
    }
}

impl From<Header> for u8 {
    /// Convert a Header to its byte representation.
    fn from(v: Header) -> (byte: u8)
        ensures
            byte == pack(v.message_type(), v.parameter()),
    {
        v.to_byte()
    }
}

impl vstd::std_specs::convert::FromSpecImpl<Header> for u8 {
    open spec fn obeys_from_spec() -> bool {
        true
    }

    open spec fn from_spec(v: Header) -> u8 {
        v.to_byte()
    }
}

/// The two fields of a header byte are what shifting and masking take out of
/// it, and each fits in four bits.
pub proof fn lemma_fields_of_byte(byte: u8)
    ensures
        type_bits(byte) == (byte >> 4) & 0xF,
        parameter_bits(byte) == byte & 0xF,
        type_bits(byte) <= 0xF,
        parameter_bits(byte) <= 0xF,
{
    assert((byte >> 4) & 0xF == byte / 16) by (bit_vector);
    assert(byte & 0xF == byte % 16) by (bit_vector);
}

/// Packing two 4-bit fields puts the message type in the sixteens and the
/// parameter in the units.
pub proof fn lemma_pack_value(message_type: MessageType, parameter: Parameter)
    requires
        message_type <= 0xF,
        parameter <= 0xF,
    ensures
        pack(message_type, parameter) == 16 * message_type + parameter,
{
    assert(message_type <= 0xF && parameter <= 0xF ==> (message_type << 4) | parameter == 16
        * message_type + parameter) by (bit_vector);
}

/// Unpacking a packed byte gives back both fields, provided each fits in
/// four bits.
pub proof fn lemma_unpack_pack(message_type: MessageType, parameter: Parameter)
    requires
        message_type <= 0xF,
        parameter <= 0xF,
    ensures
        type_bits(pack(message_type, parameter)) == message_type,
        parameter_bits(pack(message_type, parameter)) == parameter,
        Header::from_byte(Header::new(message_type, parameter).to_byte()).message_type()
            == message_type,
        Header::from_byte(Header::new(message_type, parameter).to_byte()).parameter()
            == parameter,
{
    lemma_pack_value(message_type, parameter);
}

/// Packing the two fields of a byte gives the byte back.
pub proof fn lemma_pack_unpack(byte: u8)
    ensures
        pack(type_bits(byte), parameter_bits(byte)) == byte,
        Header::from_byte(byte).to_byte() == byte,
{
    lemma_pack_value(type_bits(byte), parameter_bits(byte));
}

} // verus!
