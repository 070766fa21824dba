//! Facts about the wire format: how encoding and decoding undo each other,
//! and which buffers are rejected.
use crate::error::DecodeError;
use crate::header::{
    lemma_fields_of_byte, lemma_pack_unpack, lemma_unpack_pack, pack, parameter_bits, type_bits,
    Header,
};
use crate::message::MessageView;
use crate::message_type;
use crate::{MessageType, Parameter};
use vstd::prelude::*;

verus! {

/// Decoding the encoding of a message gives the message back, provided its
/// parameter fits in the four bits of the header.
pub proof fn lemma_decode_encode(message: MessageView)
    requires
        message.well_formed(),
    ensures
        MessageView::decode(message.encode()) == Ok::<MessageView, DecodeError>(message),
{
    let bytes = message.encode();
    lemma_unpack_pack(message.message_type(), message.parameter());
    assert(bytes[0] == pack(message.message_type(), message.parameter()));
    if let Some(payload) = message.data() {
        assert(bytes.skip(1) =~= payload);
    }
}

/// A message whose parameter does not fit in four bits never comes back from
/// its own encoding: whatever the decoder makes of the bytes has a parameter
/// of four bits.
pub proof fn lemma_wide_parameter_is_lost(message: MessageView)
    requires
        !message.well_formed(),
    ensures
        MessageView::decode(message.encode()) != Ok::<MessageView, DecodeError>(message),
{
    lemma_fields_of_byte(message.encode()[0]);
}

/// Encoding a decoded message gives back the bytes that were read: the whole
/// buffer for a message with a payload, its header byte alone for a message
/// without one. Every decoded message is well formed.
pub proof fn lemma_encode_decode(bytes: Seq<u8>)
    requires
        MessageView::decode(bytes) is Ok,
    ensures
        ({
            let message = MessageView::decode(bytes)->Ok_0;
            &&& message.well_formed()
            &&& message.message_type() == type_bits(bytes[0])
            &&& message_type::carries_payload(message.message_type()) ==> message.encode()
                == bytes
            &&& !message_type::carries_payload(message.message_type()) ==> message.encode()
                == bytes.take(1)
        }),
{
    let message = MessageView::decode(bytes)->Ok_0;
    lemma_fields_of_byte(bytes[0]);
    lemma_pack_unpack(bytes[0]);
    if message.data() is Some {
        assert(seq![bytes[0]] + bytes.skip(1) =~= bytes);
    } else {
        assert(seq![bytes[0]] =~= bytes.take(1));
    }
}

/// A buffer decodes to a message exactly when it is not empty and the message
/// has the type and the parameter that the header byte holds and, for a type
/// that carries a payload, all the bytes after the header as its payload.
pub proof fn lemma_decode_is(bytes: Seq<u8>, message: MessageView)
    ensures
        MessageView::decode(bytes) == Ok::<MessageView, DecodeError>(message) <==> ({
            &&& bytes.len() > 0
            &&& message.message_type() == type_bits(bytes[0])
            &&& message.parameter() == parameter_bits(bytes[0])
            &&& message_type::carries_payload(type_bits(bytes[0])) ==> message.data() == Some(
                bytes.skip(1),
            )
            &&& !message_type::carries_payload(type_bits(bytes[0])) ==> message.data() is None
        }),
{
}

/// Decoding fails for want of input exactly on the empty buffer, and for the
/// message type exactly on a buffer whose header byte holds a type that is
/// none of the supported codes.
pub proof fn lemma_decode_errors(bytes: Seq<u8>)
    ensures
        MessageView::decode(bytes) == Err::<MessageView, DecodeError>(DecodeError::UnexpectedEof)
            <==> bytes.len() == 0,
        MessageView::decode(bytes) == Err::<MessageView, DecodeError>(
            DecodeError::InvalidMessageType,
        ) <==> bytes.len() > 0 && !message_type::is_supported(type_bits(bytes[0])),
{
}

/// A header that carries an unsupported message type is rejected whatever
/// its parameter and whatever bytes follow it. The deprecated codes 0x2, 0x3,
/// 0x8 and 0x9 are among the unsupported ones.
pub proof fn lemma_unsupported_rejected(code: MessageType, parameter: Parameter, rest: Seq<u8>)
    requires
        code <= 0xF,
        parameter <= 0xF,
        !message_type::is_supported(code),
    ensures
        MessageView::decode(seq![pack(code, parameter)] + rest) == Err::<MessageView, DecodeError>(
            DecodeError::InvalidMessageType,
        ),
        !message_type::is_supported(0x2),
        !message_type::is_supported(0x3),
        !message_type::is_supported(0x8),
        !message_type::is_supported(0x9),
{
    lemma_unpack_pack(code, parameter);
    let bytes = seq![pack(code, parameter)] + rest;
    assert(bytes[0] == pack(code, parameter));
}

/// The first byte of an encoding is the byte of the message's header, and
/// what follows it is the payload and nothing else. Where the message is
/// well formed, splitting that first byte gives the message's header back.
pub proof fn lemma_encode_layout(message: MessageView)
    ensures
        message.encode().len() >= 1,
        message.encode()[0] == message.header().to_byte(),
        message.data() matches Some(payload) ==> message.encode().skip(1) == payload,
        message.data() is None ==> message.encode().len() == 1,
        message.well_formed() ==> Header::from_byte(message.encode()[0]) == message.header(),
{
    let first = message.encode()[0];
    Header::lemma_new(message.message_type(), message.parameter());
    message.header().lemma_to_byte();
    if message.well_formed() {
        lemma_unpack_pack(message.message_type(), message.parameter());
        Header::lemma_from_byte(first);
        Header::from_byte(first).lemma_same_fields(message.header());
    }
}

} // verus!
