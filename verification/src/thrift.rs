//! The Thrift binary protocol, as far as the response handlers need it: the envelope
//! that begins every message, and the end of what follows it.

use bytes::BytesMut;
use fbthrift_git::binary_protocol::BinaryProtocolDeserializer;
use fbthrift_git::binary_protocol::BinaryProtocolSerializer;
use fbthrift_git::ApplicationException;
use fbthrift_git::Deserialize;
use fbthrift_git::MessageType;
use fbthrift_git::ProtocolError;
use fbthrift_git::ProtocolReader;
use fbthrift_git::ProtocolWriter;
use crate::io_error::io_error_is_other;
use crate::io_error::io_error_text;
use crate::io_error::other_io_error;
use std::io::Cursor;
use vstd::prelude::*;
use vstd::string::StringExecFns;
use vstd::utf8::decode_utf8;
use vstd::utf8::valid_utf8;
use vstd::utf8::encode_utf8;

verus! {

/// The type tag of a message.
#[derive(Clone, Copy, Debug, PartialEq, Eq, Structural)]
pub enum MessageKind {
    InvalidMessageType,
    Call,
    Reply,
    Exception,
    Oneway,
}

impl MessageKind {
    /// The number of this tag on the wire.
    pub open spec fn code(self) -> u8 {
        match self {
            MessageKind::InvalidMessageType => 0,
            MessageKind::Call => 1,
            MessageKind::Reply => 2,
            MessageKind::Exception => 3,
            MessageKind::Oneway => 4,
        }
    }

    /// The name under which this tag is shown.
    pub open spec fn name(self) -> Seq<char> {
        match self {
            MessageKind::InvalidMessageType => "InvalidMessageType"@,
            MessageKind::Call => "Call"@,
            MessageKind::Reply => "Reply"@,
            MessageKind::Exception => "Exception"@,
            MessageKind::Oneway => "Oneway"@,
        }
    }

    /// The name under which this tag is shown.
    pub fn to_string(&self) -> (text: String)
        ensures
            text@ == self.name(),
    {
        match self {
            MessageKind::InvalidMessageType => String::from_str("InvalidMessageType"),
            MessageKind::Call => String::from_str("Call"),
            MessageKind::Reply => String::from_str("Reply"),
            MessageKind::Exception => String::from_str("Exception"),
            MessageKind::Oneway => String::from_str("Oneway"),
        }
    }
}

/// The envelope of a message, as contracts speak of it.
pub struct EnvelopeView {
    pub name: Seq<u8>,
    pub kind: MessageKind,
    pub seqid: u32,
    pub end: usize,
}

/// The envelope that begins a message: the method's name, the type tag, the sequence
/// id, and the offset at which the envelope ends.
#[derive(Debug)]
pub struct Envelope {
    pub name: Vec<u8>,
    pub kind: MessageKind,
    pub seqid: u32,
    pub end: usize,
}

impl View for Envelope {
    type V = EnvelopeView;

    open spec fn view(&self) -> EnvelopeView {
        EnvelopeView { name: self.name@, kind: self.kind, seqid: self.seqid, end: self.end }
    }
}

/// What a handler has to read after the envelope of a message to find where the
/// message ends.
#[derive(Clone, Copy, Debug, PartialEq, Eq)]
pub enum Body<M> {
    /// No length can be given yet: the bytes end before the envelope does.
    Incomplete,
    /// The message ends with its envelope, at this offset.
    Nothing(usize),
    /// The result of this method follows, from this offset.
    Result(M, usize),
    /// An application exception follows, from this offset.
    Exception(usize),
}

/// Why the binary protocol could not read an envelope.
#[derive(Clone, Copy, Debug, PartialEq, Eq, Structural)]
pub enum EnvelopeFault {
    /// The bytes ended where a number was expected.
    EndOfBytes,
    /// The length of the name is more than the bytes that follow it.
    BadLength,
    /// The first bytes are not the version of the protocol.
    BadVersion,
    /// The type tag is none that the protocol has.
    BadMessageType,
    /// Anything else.
    Other,
}

/// An envelope that could not be read, as contracts speak of it.
pub struct UnreadView {
    pub fault: EnvelopeFault,
    pub text: Seq<char>,
}

/// An envelope that could not be read: why, and the protocol's words for it.
#[derive(Debug)]
pub struct Unread {
    pub fault: EnvelopeFault,
    pub text: String,
}

impl View for Unread {
    type V = UnreadView;

    open spec fn view(&self) -> UnreadView {
        UnreadView { fault: self.fault, text: self.text@ }
    }
}

/// What reading an envelope gave, as contracts speak of it.
pub open spec fn envelope_result_view(result: Result<Envelope, Unread>) -> Result<
    EnvelopeView,
    UnreadView,
> {
    match result {
        Ok(envelope) => Ok(envelope@),
        Err(unread) => Err(unread@),
    }
}

#[verifier::external_type_specification]
#[verifier::external_body]
pub struct ExAnyhowError(anyhow::Error);

/// What the binary protocol reads as the envelope at the start of `bytes`, or why it
/// reads none.
pub uninterp spec fn message_begin(bytes: Seq<u8>) -> Result<EnvelopeView, UnreadView>;

/// Which of the protocol's complaints an error is.
pub uninterp spec fn fault_of(error: anyhow::Error) -> EnvelopeFault;

/// The text that an error displays.
pub uninterp spec fn anyhow_text(error: anyhow::Error) -> Seq<char>;

/// The bytes of an envelope: the version of the protocol with the type tag in its last
/// byte, the length of the name and the name, and the sequence id.
pub open spec fn envelope_bytes(name: Seq<u8>, kind: MessageKind, seqid: u32) -> Seq<u8> {
    seq![0x80u8, 0x01u8, 0x00u8, kind.code()] + big_endian(name.len() as u32) + name
        + big_endian(seqid)
}

/// The offset at which the application exception that begins at `start` in `bytes`
/// ends, where the binary protocol can read one there.
pub uninterp spec fn application_exception_end(bytes: Seq<u8>, start: usize) -> Option<usize>;

/// The four bytes of a number, most significant first.
pub open spec fn big_endian(value: u32) -> Seq<u8> {
    seq![
        (value / 0x100_0000) as u8,
        (value / 0x1_0000 % 0x100) as u8,
        (value / 0x100 % 0x100) as u8,
        (value % 0x100) as u8,
    ]
}

/// The bytes that the binary protocol writes to begin a message: the version of the
/// protocol with the type tag in its last byte, the length of the name and the name,
/// and the sequence id.
pub open spec fn message_begin_bytes(name: Seq<char>, kind: MessageKind, seqid: u32) -> Seq<
    u8,
> {
    envelope_bytes(encode_utf8(name), kind, seqid)
}

/// The text that `String::from_utf8_lossy` makes of `bytes`.
pub uninterp spec fn utf8_lossy_text(bytes: Seq<u8>) -> Seq<char>;

/// The text that the `Debug` format makes of a byte vector.
pub uninterp spec fn bytes_debug_text(bytes: Seq<u8>) -> Seq<char>;

/// An envelope that was read.
pub open spec fn was_read(envelope: EnvelopeView) -> Result<EnvelopeView, UnreadView> {
    Ok(envelope)
}

/// An envelope that was not read, for this reason and with these words.
pub open spec fn was_not_read(fault: EnvelopeFault, text: Seq<char>) -> Result<
    EnvelopeView,
    UnreadView,
> {
    Err(UnreadView { fault, text })
}

/// Calls `read_message_begin` of fbthrift's `BinaryProtocolDeserializer` on a cursor at
/// the start of `bytes`. On success the envelope is handed back together with the
/// cursor's position: the envelope is the twelve bytes of its numbers and its name,
/// and these are the bytes read. On failure the protocol's error is handed back.
#[verifier::external_body]
fn read_message_begin(bytes: &[u8]) -> (result: Result<Envelope, anyhow::Error>)
    ensures
        result matches Ok(envelope) ==> message_begin(bytes@) == was_read(envelope@),
        result matches Err(error) ==> message_begin(bytes@) == was_not_read(
            fault_of(error),
            anyhow_text(error),
        ),
        result matches Ok(envelope) ==> envelope.end == 12 + envelope.name@.len(),
        result matches Ok(envelope) ==> envelope.end <= bytes@.len(),
        result matches Ok(envelope) ==> bytes@.take(envelope.end as int) == envelope_bytes(
            envelope.name@,
            envelope.kind,
            envelope.seqid,
        ),
{
    let mut des = BinaryProtocolDeserializer::new(Cursor::new(bytes));
    let (name, message_type, seqid) = des.read_message_begin(|v| v.to_vec())?;
    let kind = match message_type {
        MessageType::InvalidMessageType => MessageKind::InvalidMessageType,
        MessageType::Call => MessageKind::Call,
        MessageType::Reply => MessageKind::Reply,
        MessageType::Exception => MessageKind::Exception,
        MessageType::Oneway => MessageKind::Oneway,
    };
    Ok(Envelope { name, kind, seqid, end: des.into_inner().position() as usize })
}

/// Tells which of the complaints of fbthrift's `ProtocolError` an error is.
#[verifier::external_body]
fn protocol_fault(error: &anyhow::Error) -> (fault: EnvelopeFault)
    ensures
        fault == fault_of(*error),
{
    match error.downcast_ref::<ProtocolError>() {
        Some(ProtocolError::EOF) => EnvelopeFault::EndOfBytes,
        Some(ProtocolError::InvalidDataLength) => EnvelopeFault::BadLength,
        Some(ProtocolError::BadVersion) => EnvelopeFault::BadVersion,
        Some(ProtocolError::InvalidMessageType(_)) => EnvelopeFault::BadMessageType,
        _ => EnvelopeFault::Other,
    }
}

/// Calls `to_string` on an error: the text that it displays.
#[verifier::external_body]
fn anyhow_to_string(error: &anyhow::Error) -> (text: String)
    ensures
        text@ == anyhow_text(*error),
{
    error.to_string()
}

/// Reads the envelope at the start of `bytes`.
pub fn read_envelope(bytes: &[u8]) -> (result: Result<Envelope, Unread>)
    ensures
        envelope_result_view(result) == message_begin(bytes@),
        result matches Ok(envelope) ==> envelope.end == 12 + envelope.name@.len(),
        result matches Ok(envelope) ==> envelope.end <= bytes@.len(),
        result matches Ok(envelope) ==> bytes@.take(envelope.end as int) == envelope_bytes(
            envelope.name@,
            envelope.kind,
            envelope.seqid,
        ),
{
    match read_message_begin(bytes) {
        Ok(envelope) => Ok(envelope),
        Err(error) => Err(
            Unread { fault: protocol_fault(&error), text: anyhow_to_string(&error) },
        ),
    }
}

/// Does a failure to read the envelope at the start of `bytes` show that there is none,
/// however many bytes follow? A wrong version and a wrong type tag do, and so does a
/// name of negative length. Bytes that end too early show nothing of the kind.
pub open spec fn envelope_is_malformed(unread: UnreadView, bytes: Seq<u8>) -> bool {
    match unread.fault {
        EnvelopeFault::EndOfBytes => false,
        EnvelopeFault::BadLength => bytes.len() >= 8 && bytes[4] >= 0x80,
        _ => true,
    }
}

/// Does a failure to read the envelope at the start of `bytes` show that there is none?
pub fn is_malformed(unread: &Unread, bytes: &[u8]) -> (malformed: bool)
    ensures
        malformed == envelope_is_malformed(unread@, bytes@),
{
    match unread.fault {
        EnvelopeFault::EndOfBytes => false,
        EnvelopeFault::BadLength => bytes.len() >= 8 && bytes[4] >= 0x80,
        _ => true,
    }
}

/// What a handler is to say of bytes, as contracts speak of it: an answer, or the text
/// of the error with which it rejects them.
pub type Expected<T> = Result<Option<T>, Seq<char>>;

/// Does `answer` say what `expected` asks for? An error is of the kind `Other` and
/// carries the expected text.
pub open spec fn parse_answer_matches(
    answer: Result<Option<usize>, std::io::Error>,
    expected: Expected<usize>,
) -> bool {
    match expected {
        Ok(found) => answer == Ok::<Option<usize>, std::io::Error>(found),
        Err(text) => answer matches Err(error) && io_error_is_other(error) && io_error_text(error)
            == text,
    }
}

/// Does `body` say what `expected` asks for? An error is of the kind `Other` and
/// carries the expected text.
pub open spec fn body_matches<M>(
    body: Result<Body<M>, std::io::Error>,
    expected: Result<Body<M>, Seq<char>>,
) -> bool {
    match expected {
        Ok(found) => body == Ok::<Body<M>, std::io::Error>(found),
        Err(text) => body matches Err(error) && io_error_is_other(error) && io_error_text(error)
            == text,
    }
}

/// The text with which a message under a name that is not expected is rejected.
pub open spec fn unexpected_name_text(name: Seq<u8>) -> Seq<char> {
    "Unexpected name "@ + bytes_debug_text(name)
}

/// Rejects a name with an error that shows it.
pub fn reject_name(name: &Vec<u8>) -> (error: std::io::Error)
    ensures
        io_error_is_other(error),
        io_error_text(error) == unexpected_name_text(name@),
{
    other_io_error(String::from_str("Unexpected name ").concat(bytes_debug(name).as_str()))
}

/// Calls `read_message_end` of fbthrift's `BinaryProtocolDeserializer` on a cursor at
/// `start`. The binary protocol has nothing at the end of a message: the call succeeds
/// and the cursor stays where it was.
#[verifier::external_body]
pub(crate) fn read_message_end(bytes: &[u8], start: usize) -> (end: Option<usize>)
    ensures
        end == Some(start),
{
    let mut cursor = Cursor::new(bytes);
    cursor.set_position(start as u64);
    let mut des = BinaryProtocolDeserializer::new(cursor);
    match des.read_message_end() {
        Ok(()) => Some(des.into_inner().position() as usize),
        Err(_) => None,
    }
}

/// Calls fbthrift's `Deserialize::read` for `ApplicationException` on a cursor at
/// `start`. Where it succeeds the cursor's position is handed back, which has not
/// moved back and, for a start within `bytes`, lies within them. The call allocates
/// as the sizes on the wire ask; that is taken to succeed.
#[verifier::external_body]
pub(crate) fn read_application_exception(bytes: &[u8], start: usize) -> (end: Option<usize>)
    ensures
        end == application_exception_end(bytes@, start),
        end matches Some(offset) ==> start <= bytes@.len() ==> start <= offset <= bytes@.len(),
{
    let mut cursor = Cursor::new(bytes);
    cursor.set_position(start as u64);
    let mut des = BinaryProtocolDeserializer::new(cursor);
    match ApplicationException::read(&mut des) {
        Ok(_) => Some(des.into_inner().position() as usize),
        Err(_) => None,
    }
}

/// Calls `write_message_begin` of fbthrift's `BinaryProtocolSerializer` on an empty
/// buffer and hands back what it wrote: the version and the type tag in four bytes,
/// the name after its length, and the sequence id, every number with its most
/// significant byte first. The length of the name has to fit the protocol's signed
/// length field.
#[verifier::external_body]
pub(crate) fn write_message_begin(name: &str, kind: MessageKind, seqid: u32) -> (bytes: Vec<u8>)
    requires
        encode_utf8(name@).len() <= i32::MAX,
    ensures
        bytes@ == message_begin_bytes(name@, kind, seqid),
{
    let message_type = match kind {
        MessageKind::InvalidMessageType => MessageType::InvalidMessageType,
        MessageKind::Call => MessageType::Call,
        MessageKind::Reply => MessageType::Reply,
        MessageKind::Exception => MessageType::Exception,
        MessageKind::Oneway => MessageType::Oneway,
    };
    let mut ser = BinaryProtocolSerializer::<BytesMut>::with_buffer(BytesMut::new());
    ser.write_message_begin(name, message_type, seqid);
    ser.finish().to_vec()
}

/// Calls `write_message_end` of fbthrift's `BinaryProtocolSerializer` on an empty
/// buffer and hands back what it wrote: the binary protocol writes nothing there.
#[verifier::external_body]
pub(crate) fn write_message_end() -> (bytes: Vec<u8>)
    ensures
        bytes@ == Seq::<u8>::empty(),
{
    let mut ser = BinaryProtocolSerializer::<BytesMut>::with_buffer(BytesMut::new());
    ser.write_message_end();
    ser.finish().to_vec()
}

/// Calls `String::from_utf8_lossy`. Of valid UTF-8 nothing is lost: the text is what
/// the bytes encode.
#[verifier::external_body]
pub(crate) fn utf8_lossy(bytes: &[u8]) -> (text: String)
    ensures
        text@ == utf8_lossy_text(bytes@),
        valid_utf8(bytes@) ==> text@ == decode_utf8(bytes@),
{
    String::from_utf8_lossy(bytes).to_string()
}

/// Formats a byte vector with `{:?}`.
#[verifier::external_body]
pub(crate) fn bytes_debug(bytes: &Vec<u8>) -> (text: String)
    ensures
        text@ == bytes_debug_text(bytes@),
{
    format!("{:?}", bytes)
}

/// Are the two slices the same bytes?
pub fn same_bytes(left: &[u8], right: &[u8]) -> (same: bool)
    ensures
        same == (left@ == right@),
{
    if left.len() != right.len() {
        return false;
    }
    let mut index: usize = 0;
    while index < left.len()
        invariant
            left@.len() == right@.len(),
            index <= left@.len(),
            forall|i: int| 0 <= i < index ==> left@[i] == right@[i],
        decreases left@.len() - index,
    {
        if left[index] != right[index] {
            return false;
        }
        index += 1;
    }
    assert(left@ =~= right@);
    true
}

} // verus!
