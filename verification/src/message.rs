//! Typed messages and their mapping to and from bytes.
use crate::error::DecodeError;
use crate::header::{lemma_pack_value, pack, parameter_bits, type_bits, Header};
use crate::message_type;
use crate::report_type;
use crate::{MessageType, Parameter};
use vstd::prelude::*;

verus! {

/// HID protocol messages. Deprecated messages are unsupported.
#[derive(Debug, Eq, PartialEq)]
pub enum Message {
    Handshake(Parameter),
    HidControl(Parameter),
    GetReport(Parameter, Box<[u8]>),
    SetReport(Parameter, Box<[u8]>),
    GetProtocol(Parameter),
    SetProtocol(Parameter),
    Data(Parameter, Box<[u8]>),
}

/// A message as a mathematical value: the variant, its parameter and, where
/// the variant carries one, its payload as a sequence of bytes.
pub enum MessageView {
    Handshake(Parameter),
    HidControl(Parameter),
    GetReport(Parameter, Seq<u8>),
    SetReport(Parameter, Seq<u8>),
    GetProtocol(Parameter),
    SetProtocol(Parameter),
    Data(Parameter, Seq<u8>),
}

impl View for Message {
    type V = MessageView;

    open spec fn view(&self) -> MessageView {
        match *self {
            Message::Handshake(p) => MessageView::Handshake(p),
            Message::HidControl(p) => MessageView::HidControl(p),
            Message::GetReport(p, data) => MessageView::GetReport(p, data@),
            Message::SetReport(p, data) => MessageView::SetReport(p, data@),
            Message::GetProtocol(p) => MessageView::GetProtocol(p),
            Message::SetProtocol(p) => MessageView::SetProtocol(p),
            Message::Data(p, data) => MessageView::Data(p, data@),
        }
    }
}

impl MessageView {
    /// The parameter, whatever the variant.
    pub open spec fn parameter(self) -> Parameter {
        match self {
            MessageView::Handshake(p) => p,
            MessageView::HidControl(p) => p,
            MessageView::GetReport(p, _) => p,
            MessageView::SetReport(p, _) => p,
            MessageView::GetProtocol(p) => p,
            MessageView::SetProtocol(p) => p,
            MessageView::Data(p, _) => p,
        }
    }

    /// The wire code of the variant.
    pub open spec fn message_type(self) -> MessageType {
        match self {
            MessageView::Handshake(_) => message_type::HANDSHAKE,
            MessageView::HidControl(_) => message_type::HID_CONTROL,
            MessageView::GetReport(_, _) => message_type::GET_REPORT,
            MessageView::SetReport(_, _) => message_type::SET_REPORT,
            MessageView::GetProtocol(_) => message_type::GET_PROTOCOL,
            MessageView::SetProtocol(_) => message_type::SET_PROTOCOL,
            MessageView::Data(_, _) => message_type::DATA,
        }
    }

    /// The payload, for the variants that carry one.
    pub open spec fn data(self) -> Option<Seq<u8>> {
        match self {
            MessageView::GetReport(_, data) => Some(data),
            MessageView::SetReport(_, data) => Some(data),
            MessageView::Data(_, data) => Some(data),
            _ => None,
        }
    }

    /// The header made of the variant's wire code and its parameter.
    pub open spec fn header(self) -> Header {
        Header::new(self.message_type(), self.parameter())
    }

    /// The parameter fits in the four bits the header byte has for it. Only
    /// such a message survives a trip over the wire unchanged.
    pub open spec fn well_formed(self) -> bool {
        self.parameter() <= 0xF
    }

    /// The bytes a peer expects for this message: the header byte, then the
    /// payload if the variant carries one.
    pub open spec fn encode(self) -> Seq<u8> {
        let header = seq![pack(self.message_type(), self.parameter())];
        match self.data() {
            Some(payload) => header + payload,
            None => header,
        }
    }

    /// The message with wire code `code`, parameter `parameter` and, if the
    /// code is one that carries a payload, payload `payload`.
    pub open spec fn from_parts(code: MessageType, parameter: Parameter, payload: Seq<u8>) -> Result<
        MessageView,
        DecodeError,
    > {
        if code == message_type::HANDSHAKE {
            Ok(MessageView::Handshake(parameter))
        } else if code == message_type::HID_CONTROL {
            Ok(MessageView::HidControl(parameter))
        } else if code == message_type::GET_REPORT {
            Ok(MessageView::GetReport(parameter, payload))
        } else if code == message_type::SET_REPORT {
            Ok(MessageView::SetReport(parameter, payload))
        } else if code == message_type::GET_PROTOCOL {
            Ok(MessageView::GetProtocol(parameter))
        } else if code == message_type::SET_PROTOCOL {
            Ok(MessageView::SetProtocol(parameter))
        } else if code == message_type::DATA {
            Ok(MessageView::Data(parameter, payload))
        } else {
            Err(DecodeError::InvalidMessageType)
        }
    }

    /// What a buffer means: its first byte is the header, and all bytes after
    /// it are the payload of a message that carries one. They are ignored by
    /// a message that carries none.
    pub open spec fn decode(bytes: Seq<u8>) -> Result<MessageView, DecodeError> {
        if bytes.len() == 0 {
            Err(DecodeError::UnexpectedEof)
        } else {
            MessageView::from_parts(type_bits(bytes[0]), parameter_bits(bytes[0]), bytes.skip(1))
        }
    }
}

/// `Vec::into_boxed_slice`: the box holds the elements of the vector, in the
/// same order. Taken on trust, not proved.
#[verifier::external_body]
fn into_boxed_slice(bytes: Vec<u8>) -> (boxed: Box<[u8]>)
    ensures
        boxed@ == bytes@,
{
    bytes.into_boxed_slice()
}

/// An owned copy of `bytes`.
fn boxed_copy(bytes: &[u8]) -> (boxed: Box<[u8]>)
    ensures
        boxed@ == bytes@,
{
    into_boxed_slice(vstd::slice::slice_to_vec(bytes))
}

impl Clone for Message {
    /// A message with the same variant, parameter and payload bytes.
    fn clone(&self) -> (copy: Message)
        ensures
            copy@ == self@,
    {
        match self {
            Message::Handshake(p) => Message::Handshake(*p),
            Message::HidControl(p) => Message::HidControl(*p),
            Message::GetReport(p, data) => Message::GetReport(*p, boxed_copy(data)),
            Message::SetReport(p, data) => Message::SetReport(*p, boxed_copy(data)),
            Message::GetProtocol(p) => Message::GetProtocol(*p),
            Message::SetProtocol(p) => Message::SetProtocol(*p),
            Message::Data(p, data) => Message::Data(*p, boxed_copy(data)),
        }
    }
}

impl Message {
    /// Construct a new Message for a report other than an input, output, or feature report.
    pub fn new_data_other(data: Box<[u8]>) -> (message: Message)
        ensures
            message == Message::Data(report_type::OTHER, data),
            message@ == MessageView::Data(0, data@),
    {
        Self::Data(report_type::OTHER, data)
    }

    /// Construct a new Message for an input report.
    pub fn new_data_input(data: Box<[u8]>) -> (message: Message)
        ensures
            message == Message::Data(report_type::INPUT, data),
            message@ == MessageView::Data(1, data@),
    {
        Self::Data(report_type::INPUT, data)
    }

    /// Construct a new Message for an output report.
    pub fn new_data_output(data: Box<[u8]>) -> (message: Message)
        ensures
            message == Message::Data(report_type::OUTPUT, data),
            message@ == MessageView::Data(2, data@),
    {
        Self::Data(report_type::OUTPUT, data)
    }

    /// Construct a new Message for a feature report.
    pub fn new_data_feature(data: Box<[u8]>) -> (message: Message)
        ensures
            message == Message::Data(report_type::FEATURE, data),
            message@ == MessageView::Data(3, data@),
    {
        Self::Data(report_type::FEATURE, data)
    }

    /// The parameter of this message, whatever its variant.
    pub fn parameter(&self) -> (parameter: Parameter)
        ensures
            parameter == self@.parameter(),
    {
        match self {
            Self::Handshake(parameter)
            | Self::HidControl(parameter)
            | Self::GetProtocol(parameter)
            | Self::SetProtocol(parameter)
            | Self::GetReport(parameter, _)
            | Self::SetReport(parameter, _)
            | Self::Data(parameter, _) => *parameter,
        }
    }

    /// Message type code
    pub fn message_type(&self) -> (code: MessageType)
        ensures
            code == self@.message_type(),
    {
        match self {
            Message::Handshake(..) => message_type::HANDSHAKE,
            Message::HidControl(..) => message_type::HID_CONTROL,
            Message::GetReport(..) => message_type::GET_REPORT,
            Message::SetReport(..) => message_type::SET_REPORT,
            Message::GetProtocol(..) => message_type::GET_PROTOCOL,
            Message::SetProtocol(..) => message_type::SET_PROTOCOL,
            Message::Data(..) => message_type::DATA,
        }
    }

    /// The header that starts this message on the wire.
    pub fn header(&self) -> (header: Header)
        ensures
            header == self@.header(),
            header.message_type() == self@.message_type(),
            header.parameter() == self@.parameter(),
            header.well_formed() <==> self@.well_formed(),
    {
        Header::new(self.message_type(), self.parameter())
    }

    /// Return this message's data, if it exists.
    pub fn data<'a>(&'a self) -> (data: Option<&'a [u8]>)
        ensures
            (match data {
                Some(bytes) => self@.data() == Some(bytes@),
                None => self@.data() is None,
            }),
    {
        match self {
            Self::GetReport(_, data) | Self::SetReport(_, data) | Self::Data(_, data) => Some(data),
            _ => None,
        }
    }

    /// Decode one message from `data`: the first byte is the header, the rest
    /// the payload. Fails on an empty buffer and on a message type that is not
    /// supported; bytes after the header of a message without a payload are
    /// ignored.
    pub fn read_from(data: &[u8]) -> (result: Result<Message, DecodeError>)
        ensures
            (match result {
                Ok(message) => MessageView::decode(data@) == Ok::<MessageView, DecodeError>(
                    message@,
                ),
                Err(error) => MessageView::decode(data@) == Err::<MessageView, DecodeError>(error),
            }),
            result == Err::<Message, DecodeError>(DecodeError::UnexpectedEof) <==> data@.len() == 0,
            result == Err::<Message, DecodeError>(DecodeError::InvalidMessageType) <==> data@.len()
                > 0 && !message_type::is_supported(type_bits(data@[0])),
            result is Ok <==> data@.len() > 0 && message_type::is_supported(type_bits(data@[0])),
            result matches Ok(message) ==> message@.well_formed(),
    {
        if data.len() < 1 {
            return Err(DecodeError::UnexpectedEof);
        }
        let header = Header::from_byte(data[0]);
        let rest = vstd::slice::slice_subrange(data, 1, data.len());
        assert(rest@ == data@.skip(1));
        Ok(
            match header.message_type() {
                message_type::HANDSHAKE => Message::Handshake(header.parameter()),
                message_type::HID_CONTROL => Message::HidControl(header.parameter()),
                message_type::GET_REPORT => Message::GetReport(header.parameter(), boxed_copy(rest)),
                message_type::SET_REPORT => Message::SetReport(header.parameter(), boxed_copy(rest)),
                message_type::GET_PROTOCOL => Message::GetProtocol(header.parameter()),
                message_type::SET_PROTOCOL => Message::SetProtocol(header.parameter()),
                message_type::DATA => Message::Data(header.parameter(), boxed_copy(rest)),
                _ => {
                    return Err(DecodeError::InvalidMessageType);
                },
            },
        )
    }

    /// The bytes of this message as a peer expects them: the header byte, then
    /// the payload if there is one.
    pub fn as_bytes(&self) -> (bytes: Box<[u8]>)
        ensures
            bytes@ == self@.encode(),
            bytes@.len() >= 1,
            self@.well_formed() ==> bytes@[0] == 16 * self@.message_type() + self@.parameter(),
            (match self@.data() {
                Some(payload) => bytes@.skip(1) == payload,
                None => bytes@.len() == 1,
            }),
    {
        proof {
            if self@.well_formed() {
                lemma_pack_value(self@.message_type(), self@.parameter());
            }
        }
        let mut bytes: Vec<u8> = Vec::new();
        bytes.push(self.header().to_byte());
        if let Some(data) = self.data() {
            bytes.extend_from_slice(data);
        }
        into_boxed_slice(bytes)
    }
}

} // verus!
