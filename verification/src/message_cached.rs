use oze_canopen::canopen::{RxMessage, RxMessageParsed, RxMessageToStringFormat, RxMessageType};
use oze_canopen::proto::emcy::Emcy;
use oze_canopen::proto::nmt::{NmtCommand, NmtCommandSpecifier};
use oze_canopen::proto::sdo::{SdoRequest, SdoResponse};
use oze_canopen::BinRead;
use std::io::Cursor;
use tokio::time::Instant;
use vstd::prelude::*;

verus! {

/// Decoded server-to-client service-data response of the CANopen stack.
#[verifier::external_type_specification]
#[verifier::external_body]
pub struct ExSdoResponse(SdoResponse);

/// Decoded client-to-server service-data request of the CANopen stack.
#[verifier::external_type_specification]
#[verifier::external_body]
pub struct ExSdoRequest(SdoRequest);

/// `SdoResponse::clone` is the derived clone: the copy equals the value cloned.
pub assume_specification[ <SdoResponse as Clone>::clone ](s: &SdoResponse) -> (r: SdoResponse)
    ensures
        r == *s,
;

/// `SdoRequest::clone` is the derived clone: the copy equals the value cloned.
pub assume_specification[ <SdoRequest as Clone>::clone ](s: &SdoRequest) -> (r: SdoRequest)
    ensures
        r == *s,
;

/// Protocol-level category of a frame, derived from its COB identifier.
#[derive(Debug, Clone, Copy, PartialEq, Eq, Structural)]
pub enum MessageType {
    SdoTx,
    SdoRx,
    Pdo,
    Sync,
    Nmt,
    Lss,
    Guarding,
    Emcy,
    Unknown,
}

/// Textual form in which a payload is shown.
#[derive(Debug, Clone, Copy, PartialEq, Eq, Structural)]
pub enum DataFormat {
    Binary,
    Hex,
    Ascii,
}

/// One raw frame as received from the bus.
#[derive(Debug, Clone, Copy)]
pub struct Frame {
    /// Nanoseconds between the monitor's start and the frame's arrival.
    pub timestamp: u64,
    pub cob_id: u16,
    pub data: [u8; 8],
    /// Declared payload length; only the first `min(dlc, 8)` bytes are shown.
    pub dlc: usize,
}

/// A frame together with what its identifier says about it.
#[derive(Debug, Clone, Copy)]
pub struct ParsedFrame {
    pub parsed_type: MessageType,
    pub parsed_node_id: Option<u8>,
    pub msg: Frame,
}

/// What a network-management command asks of a node.
#[derive(Debug, Clone, Copy, PartialEq, Eq, Structural)]
pub enum NmtKind {
    StartRemoteNode,
    StopRemoteNode,
    EnterPreOperational,
    ResetNode,
    ResetCommunication,
}

/// A decoded network-management command.
#[derive(Debug, Clone, Copy, PartialEq, Eq, Structural)]
pub struct NmtRecord {
    pub command_specifier: NmtKind,
    /// The node addressed; 0 addresses all nodes.
    pub node_id: u8,
}

/// A decoded emergency record.
#[derive(Debug, Clone, Copy)]
pub struct EmcyRecord {
    /// Error class, one of the codes that `is_emcy_code` lists.
    pub code: u8,
    pub vendor_code: u8,
    pub error_register: u8,
    pub data: [u8; 5],
}

/// Decoded sub-payload of a frame, for the envelope types that carry one.
#[derive(Debug)]
pub enum RxMessageAdditional {
    SdoTx(SdoResponse),
    SdoRx(SdoRequest),
    Nmt(NmtRecord),
    Emcy(EmcyRecord),
    Absent,
}

/// A classified frame with its renderings, computed once at creation.
#[derive(Debug)]
pub struct MessageCached {
    pub index: u64,
    pub msg: ParsedFrame,
    pub additional: RxMessageAdditional,
    pub cob_str: String,
    pub hex_str: String,
    pub bin_str: String,
    pub ascii_str: String,
}

/// The type tag that a COB identifier implies.
pub open spec fn type_of_cob(cob_id: u16) -> MessageType {
    if cob_id <= 0x7F {
        MessageType::Nmt
    } else if cob_id == 0x80 {
        MessageType::Sync
    } else if cob_id <= 0xFF {
        MessageType::Emcy
    } else if cob_id <= 0x57F {
        MessageType::Pdo
    } else if cob_id <= 0x5FF {
        MessageType::SdoTx
    } else if cob_id <= 0x67F {
        MessageType::SdoRx
    } else if cob_id <= 0x6FF {
        MessageType::Unknown
    } else if cob_id <= 0x77F {
        MessageType::Guarding
    } else if cob_id <= 0x7FF {
        MessageType::Lss
    } else {
        MessageType::Unknown
    }
}

/// The node identifier that a COB identifier implies, if any.
pub open spec fn node_of_cob(cob_id: u16) -> Option<u8> {
    if cob_id <= 0x80 {
        None
    } else if cob_id <= 0x67F {
        Some((cob_id % 0x80) as u8)
    } else if 0x700 <= cob_id <= 0x77F {
        Some((cob_id - 0x700) as u8)
    } else {
        None
    }
}

/// Upper-case hexadecimal digit of a value below 16.
pub open spec fn hex_digit(v: int) -> char {
    seq!['0', '1', '2', '3', '4', '5', '6', '7', '8', '9', 'A', 'B', 'C', 'D', 'E', 'F'][v]
}

/// Two hexadecimal digits of a byte.
pub open spec fn hex_byte(b: u8) -> Seq<char> {
    seq![hex_digit(b as int / 16), hex_digit(b as int % 16)]
}

/// Binary digit of `b` at the place worth `weight`.
pub open spec fn bin_digit(b: u8, weight: int) -> char {
    if (b as int / weight) % 2 == 1 {
        '1'
    } else {
        '0'
    }
}

/// Eight binary digits of a byte, most significant first.
pub open spec fn bin_byte(b: u8) -> Seq<char> {
    seq![
        bin_digit(b, 128),
        bin_digit(b, 64),
        bin_digit(b, 32),
        bin_digit(b, 16),
        bin_digit(b, 8),
        bin_digit(b, 4),
        bin_digit(b, 2),
        bin_digit(b, 1),
    ]
}

/// Hexadecimal byte pairs separated by single spaces.
pub open spec fn hex_dump(bytes: Seq<u8>) -> Seq<char>
    decreases bytes.len(),
{
    if bytes.len() == 0 {
        Seq::empty()
    } else if bytes.len() == 1 {
        hex_byte(bytes[0])
    } else {
        hex_dump(bytes.drop_last()) + seq![' '] + hex_byte(bytes.last())
    }
}

/// Binary octets separated by single spaces.
pub open spec fn bin_dump(bytes: Seq<u8>) -> Seq<char>
    decreases bytes.len(),
{
    if bytes.len() == 0 {
        Seq::empty()
    } else if bytes.len() == 1 {
        bin_byte(bytes[0])
    } else {
        bin_dump(bytes.drop_last()) + seq![' '] + bin_byte(bytes.last())
    }
}

/// Text that stands for one byte in the ASCII projection: printable bytes
/// stand for themselves, quotes and the backslash are escaped with a
/// backslash, every other byte is a dot.
pub open spec fn ascii_piece(b: u8) -> Seq<char> {
    if b == 0x22 || b == 0x27 || b == 0x5C {
        seq!['\\', b as char]
    } else if 0x20 <= b <= 0x7E {
        seq![b as char]
    } else {
        seq!['.']
    }
}

/// ASCII projection of a payload: the piece of the byte at position `i` is
/// inserted at offset `i` of the text built from the bytes before it.
pub open spec fn ascii_dump(bytes: Seq<u8>) -> Seq<char>
    decreases bytes.len(),
{
    if bytes.len() == 0 {
        Seq::empty()
    } else {
        let before = ascii_dump(bytes.drop_last());
        let at = bytes.len() - 1;
        before.take(at) + ascii_piece(bytes.last()) + before.skip(at)
    }
}

/// Identifier rendering: upper-case hexadecimal, padded to three digits.
pub open spec fn cob_text(cob_id: u16) -> Seq<char> {
    let c = cob_id as int;
    let low = seq![hex_digit(c / 256 % 16), hex_digit(c / 16 % 16), hex_digit(c % 16)];
    if c < 0x1000 {
        low
    } else {
        seq![hex_digit(c / 4096)] + low
    }
}

/// Whether the payload bytes decode as a service-data response.
pub uninterp spec fn sdo_response_decodes(data: Seq<u8>) -> bool;

/// Whether the payload bytes decode as a service-data request.
pub uninterp spec fn sdo_request_decodes(data: Seq<u8>) -> bool;

/// The command that a command-specifier byte stands for.
pub open spec fn nmt_kind(code: u8) -> Option<NmtKind> {
    if code == 0x01 {
        Some(NmtKind::StartRemoteNode)
    } else if code == 0x02 {
        Some(NmtKind::StopRemoteNode)
    } else if code == 0x80 {
        Some(NmtKind::EnterPreOperational)
    } else if code == 0x81 {
        Some(NmtKind::ResetNode)
    } else if code == 0x82 {
        Some(NmtKind::ResetCommunication)
    } else {
        None
    }
}

/// The network-management command in a payload: the specifier byte, then
/// the node addressed. An unknown specifier decodes to nothing.
pub open spec fn nmt_record(data: Seq<u8>) -> Option<NmtRecord> {
    match nmt_kind(data[0]) {
        Some(command_specifier) => Some(NmtRecord { command_specifier, node_id: data[1] }),
        None => None,
    }
}

/// The error classes that an emergency record may carry.
pub open spec fn is_emcy_code(code: u8) -> bool {
    ||| code == 0x00
    ||| code == 0x10
    ||| 0x20 <= code <= 0x23
    ||| 0x30 <= code <= 0x33
    ||| 0x40 <= code <= 0x42
    ||| code == 0x50
    ||| 0x60 <= code <= 0x63
    ||| code == 0x70
    ||| 0x80 <= code <= 0x82
    ||| code == 0x90
    ||| code == 0xF0
    ||| code == 0xFF
}

/// Whether `record` is what a payload decodes to as an emergency record:
/// the error class, the vendor code, the error register, then five bytes of
/// data. An unknown error class decodes to nothing.
pub open spec fn emcy_decoded(data: Seq<u8>, record: Option<EmcyRecord>) -> bool {
    match record {
        Some(e) => {
            &&& is_emcy_code(data[0])
            &&& e.code == data[0]
            &&& e.vendor_code == data[1]
            &&& e.error_register == data[2]
            &&& e.data@ == data.subrange(3, 8)
        },
        None => !is_emcy_code(data[0]),
    }
}

impl Frame {
    /// The bytes of the payload that the declared length covers.
    pub open spec fn payload(&self) -> Seq<u8> {
        if self.dlc < 8 {
            self.data@.take(self.dlc as int)
        } else {
            self.data@
        }
    }
}

/// The rendering of a frame's payload in `format`.
pub open spec fn rendered(frame: Frame, format: DataFormat) -> Seq<char> {
    match format {
        DataFormat::Hex => hex_dump(frame.payload()),
        DataFormat::Binary => bin_dump(frame.payload()),
        DataFormat::Ascii => ascii_dump(frame.payload()),
    }
}

/// Calls `RxMessageParsed::parse_type`, which maps the identifier ranges
/// to type tags as `type_of_cob` spells out.
#[verifier::external_body]
fn parse_type(cob_id: u16) -> (t: MessageType)
    ensures
        t == type_of_cob(cob_id),
{
    match RxMessageParsed::parse_type(cob_id) {
        RxMessageType::SdoTx => MessageType::SdoTx,
        RxMessageType::SdoRx => MessageType::SdoRx,
        RxMessageType::Pdo => MessageType::Pdo,
        RxMessageType::Sync => MessageType::Sync,
        RxMessageType::Nmt => MessageType::Nmt,
        RxMessageType::Lss => MessageType::Lss,
        RxMessageType::Guarding => MessageType::Guarding,
        RxMessageType::Emcy => MessageType::Emcy,
        RxMessageType::Unknown => MessageType::Unknown,
    }
}

/// Calls `RxMessageParsed::parse_node_id`, which strips the function code
/// from the identifier as `node_of_cob` spells out.
#[verifier::external_body]
fn parse_node_id(cob_id: u16) -> (n: Option<u8>)
    ensures
        n == node_of_cob(cob_id),
{
    RxMessageParsed::parse_node_id(cob_id)
}

/// Calls `RxMessage::cob_id_to_string`, which formats the identifier in
/// upper-case hexadecimal with at least three digits.
#[verifier::external_body]
fn render_cob_id(frame: &Frame) -> (s: String)
    ensures
        s@ == cob_text(frame.cob_id),
{
    let msg = RxMessage { timestamp: Instant::now(), cob_id: frame.cob_id, data: frame.data, dlc: frame.dlc };
    msg.cob_id_to_string()
}

/// Calls `RxMessage::data_to_string`, which renders the bytes below the
/// declared length: hexadecimal pairs or binary octets joined by spaces, or
/// the ASCII projection.
#[verifier::external_body]
fn render_data(frame: &Frame, format: DataFormat) -> (s: String)
    ensures
        s@ == rendered(*frame, format),
{
    let msg = RxMessage { timestamp: Instant::now(), cob_id: frame.cob_id, data: frame.data, dlc: frame.dlc };
    match format {
        DataFormat::Binary => msg.data_to_string(RxMessageToStringFormat::Binary),
        DataFormat::Hex => msg.data_to_string(RxMessageToStringFormat::Hex),
        DataFormat::Ascii => msg.data_to_string(RxMessageToStringFormat::Ascii),
    }
}

/// Calls `SdoResponse::read` on the eight payload bytes; whether it
/// succeeds depends on those bytes alone.
#[verifier::external_body]
fn decode_sdo_response(data: &[u8; 8]) -> (r: Option<SdoResponse>)
    ensures
        r.is_some() == sdo_response_decodes(data@),
{
    SdoResponse::read(&mut Cursor::new(*data)).ok()
}

/// Calls `SdoRequest::read` on the eight payload bytes; whether it succeeds
/// depends on those bytes alone.
#[verifier::external_body]
fn decode_sdo_request(data: &[u8; 8]) -> (r: Option<SdoRequest>)
    ensures
        r.is_some() == sdo_request_decodes(data@),
{
    SdoRequest::read(&mut Cursor::new(*data)).ok()
}

/// Calls `NmtCommand::read` on the eight payload bytes, which reads the
/// specifier byte and the node byte and fails on a specifier that is none
/// of the five commands.
#[verifier::external_body]
fn decode_nmt(data: &[u8; 8]) -> (r: Option<NmtRecord>)
    ensures
        r == nmt_record(data@),
{
    NmtCommand::read(&mut Cursor::new(*data)).ok().map(|n| NmtRecord {
        command_specifier: match n.command_specifier {
            NmtCommandSpecifier::StartRemoteNode => NmtKind::StartRemoteNode,
            NmtCommandSpecifier::StopRemoteNode => NmtKind::StopRemoteNode,
            NmtCommandSpecifier::EnterPreOperational => NmtKind::EnterPreOperational,
            NmtCommandSpecifier::ResetNode => NmtKind::ResetNode,
            NmtCommandSpecifier::ResetCommunication => NmtKind::ResetCommunication,
        },
        node_id: n.node_id,
    })
}

/// Calls `Emcy::read` on the eight payload bytes, which reads the error
/// class, the vendor code, the error register and five data bytes and fails
/// on an error class that is not listed.
#[verifier::external_body]
fn decode_emcy(data: &[u8; 8]) -> (r: Option<EmcyRecord>)
    ensures
        emcy_decoded(data@, r),
{
    Emcy::read(&mut Cursor::new(*data)).ok().map(|e| EmcyRecord {
        code: e.code as u8,
        vendor_code: e.vendor_code,
        error_register: e.error_register,
        data: e.data,
    })
}

impl Clone for RxMessageAdditional {
    fn clone(&self) -> (r: Self)
        ensures
            r == *self,
    {
        match self {
            RxMessageAdditional::SdoTx(s) => RxMessageAdditional::SdoTx(s.clone()),
            RxMessageAdditional::SdoRx(s) => RxMessageAdditional::SdoRx(s.clone()),
            RxMessageAdditional::Nmt(n) => RxMessageAdditional::Nmt(*n),
            RxMessageAdditional::Emcy(e) => RxMessageAdditional::Emcy(*e),
            RxMessageAdditional::Absent => RxMessageAdditional::Absent,
        }
    }
}

impl Clone for MessageCached {
    fn clone(&self) -> (r: Self)
        ensures
            r == *self,
    {
        MessageCached {
            index: self.index,
            msg: self.msg,
            additional: self.additional.clone(),
            cob_str: self.cob_str.clone(),
            hex_str: self.hex_str.clone(),
            bin_str: self.bin_str.clone(),
            ascii_str: self.ascii_str.clone(),
        }
    }
}

impl RxMessageAdditional {
    /// Whether `self` is the sub-payload of a frame of type `t` with the
    /// bytes `data`: the record of the type where the bytes decode as one,
    /// and nothing for the other types and for bytes that do not decode.
    pub open spec fn decodes(&self, t: MessageType, data: Seq<u8>) -> bool {
        match t {
            MessageType::SdoTx => if sdo_response_decodes(data) {
                *self is SdoTx
            } else {
                *self is Absent
            },
            MessageType::SdoRx => if sdo_request_decodes(data) {
                *self is SdoRx
            } else {
                *self is Absent
            },
            MessageType::Nmt => *self == match nmt_record(data) {
                Some(record) => RxMessageAdditional::Nmt(record),
                None => RxMessageAdditional::Absent,
            },
            MessageType::Emcy => match *self {
                RxMessageAdditional::Emcy(record) => emcy_decoded(data, Some(record)),
                RxMessageAdditional::Absent => emcy_decoded(data, None),
                _ => false,
            },
            _ => *self is Absent,
        }
    }
}

impl MessageCached {
    /// Whether `self` is the record that classification makes of `frame`
    /// under sequence index `index`.
    pub open spec fn classifies(&self, index: u64, frame: Frame) -> bool {
        &&& self.index == index
        &&& self.msg.msg == frame
        &&& self.msg.parsed_type == type_of_cob(frame.cob_id)
        &&& self.msg.parsed_node_id == node_of_cob(frame.cob_id)
        &&& self.cob_str@ == cob_text(frame.cob_id)
        &&& self.hex_str@ == rendered(frame, DataFormat::Hex)
        &&& self.bin_str@ == rendered(frame, DataFormat::Binary)
        &&& self.ascii_str@ == rendered(frame, DataFormat::Ascii)
        &&& self.additional.decodes(type_of_cob(frame.cob_id), frame.data@)
    }

    /// Classifies one raw frame. The envelope is always classified; a
    /// sub-payload that does not decode leaves `additional` empty.
    pub fn new(index: u64, msg: Frame) -> (m: Self)
        ensures
            m.classifies(index, msg),
    {
        let parsed_type = parse_type(msg.cob_id);
        let parsed_node_id = parse_node_id(msg.cob_id);
        let additional = match parsed_type {
            MessageType::SdoTx => match decode_sdo_response(&msg.data) {
                Some(s) => RxMessageAdditional::SdoTx(s),
                None => RxMessageAdditional::Absent,
            },
            MessageType::SdoRx => match decode_sdo_request(&msg.data) {
                Some(d) => RxMessageAdditional::SdoRx(d),
                None => RxMessageAdditional::Absent,
            },
            MessageType::Nmt => match decode_nmt(&msg.data) {
                Some(d) => RxMessageAdditional::Nmt(d),
                None => RxMessageAdditional::Absent,
            },
            MessageType::Emcy => match decode_emcy(&msg.data) {
                Some(d) => RxMessageAdditional::Emcy(d),
                None => RxMessageAdditional::Absent,
            },
            MessageType::Guarding
            | MessageType::Lss
            | MessageType::Pdo
            | MessageType::Sync
            | MessageType::Unknown => RxMessageAdditional::Absent,
        };
        MessageCached {
            index,
            msg: ParsedFrame { parsed_type, parsed_node_id, msg },
            additional,
            cob_str: render_cob_id(&msg),
            hex_str: render_data(&msg, DataFormat::Hex),
            bin_str: render_data(&msg, DataFormat::Binary),
            ascii_str: render_data(&msg, DataFormat::Ascii),
        }
    }

    /// The cached rendering for `format`.
    pub fn get_by_format(&self, format: DataFormat) -> (s: &str)
        ensures
            format == DataFormat::Binary ==> s@ == self.bin_str@,
            format == DataFormat::Hex ==> s@ == self.hex_str@,
            format == DataFormat::Ascii ==> s@ == self.ascii_str@,
    {
        match format {
            DataFormat::Binary => self.bin_str.as_str(),
            DataFormat::Ascii => self.ascii_str.as_str(),
            DataFormat::Hex => self.hex_str.as_str(),
        }
    }

    /// Arrival time of the frame, in nanoseconds since the monitor started.
    pub fn get_timestamp(&self) -> (t: u64)
        ensures
            t == self.msg.msg.timestamp,
    {
        self.msg.msg.timestamp
    }
}

} // verus!
