use vstd::prelude::*;
use vstd::slice::slice_subrange;
use up_rust::UMessage;
use vstd::string::*;
use crate::text::{append_decimal, decimal};

verus! {

/// Capacity, in bytes, of the buffer that carries one serialized message.
pub const MAX_UMESSAGE_SIZE: usize = 4096;

/// `up_rust::UMessage`, carried through as an opaque value.
#[verifier::external_type_specification]
#[verifier::external_body]
pub struct ExUMessage(UMessage);

/// `protobuf::Error`, carried through as an opaque value.
#[verifier::external_type_specification]
#[verifier::external_body]
pub struct ExProtobufError(protobuf::Error);

/// The protobuf wire form of a message, or the error of the encoder where it
/// refuses the message.
pub uninterp spec fn umessage_encoding(message: UMessage) -> Result<Seq<u8>, protobuf::Error>;

/// The message that a protobuf decoder reads from the given bytes, or the
/// decoder's error where they are not the wire form of a message.
pub uninterp spec fn umessage_decoding(bytes: Seq<u8>) -> Result<UMessage, protobuf::Error>;

/// Whether two messages are equal field by field, as `PartialEq` compares them.
pub uninterp spec fn same_umessage(a: UMessage, b: UMessage) -> bool;

/// The text that `Display` writes for a protobuf error.
pub uninterp spec fn protobuf_error_display(e: protobuf::Error) -> Seq<char>;

/// Whether the message is, up to equality, one that decoding some bytes
/// gives. Every message built by setting its fields is; one whose unknown
/// fields were edited by hand may not be (a length-delimited unknown value
/// under the number of a known message field is read back as that field).
pub open spec fn in_wire_form(message: UMessage) -> bool {
    exists|bytes: Seq<u8>| #[trigger]
        umessage_decoding(bytes) matches Ok(d) && same_umessage(d, message)
}

/// Encodes a message with `protobuf::Message::write_to_bytes`.
/// Trusted: the result is the encoder's result; and, as the documentation of
/// `write_to_bytes` says, `parse_from_bytes` reverses it: the bytes of a
/// message in wire form decode to a message equal to it. Decoding sorts
/// fields by tag, so this holds of every message in wire form; of others
/// nothing is said.
#[verifier::external_body]
pub(crate) fn encode_umessage(message: &UMessage) -> (res: Result<Vec<u8>, protobuf::Error>)
    ensures
        match res {
            Ok(bytes) => umessage_encoding(*message) == Ok::<Seq<u8>, protobuf::Error>(bytes@),
            Err(e) => umessage_encoding(*message) == Err::<Seq<u8>, protobuf::Error>(e),
        },
        in_wire_form(*message) ==> (res matches Ok(bytes) ==> (umessage_decoding(bytes@) matches Ok(
            back,
        ) && same_umessage(back, *message))),
{
    protobuf::Message::write_to_bytes(message)
}

/// Decodes a message with `protobuf::Message::parse_from_bytes`.
/// Trusted: the result is the decoder's result.
#[verifier::external_body]
pub(crate) fn decode_umessage(bytes: &[u8]) -> (res: Result<UMessage, protobuf::Error>)
    ensures
        res == umessage_decoding(bytes@),
{
    <UMessage as protobuf::Message>::parse_from_bytes(bytes)
}

/// Compares two messages with `PartialEq::eq`.
/// Trusted: the result is the comparison's.
#[verifier::external_body]
fn umessages_equal(a: &UMessage, b: &UMessage) -> (res: bool)
    ensures
        res == same_umessage(*a, *b),
{
    a == b
}

/// The text of a protobuf error, as its `Display` writes it.
#[verifier::external_body]
pub(crate) fn protobuf_error_text(e: &protobuf::Error) -> (res: String)
    ensures
        res@ == protobuf_error_display(*e),
{
    e.to_string()
}

/// Why a message could not be moved into or out of a zero-copy buffer.
#[derive(Debug)]
pub enum ZeroCopyError {
    /// The encoder refused the message.
    Serialize(protobuf::Error),
    /// The encoded message is longer than the buffer.
    TooLarge { size: usize },
    /// The buffered bytes are not the wire form of a message.
    Deserialize(protobuf::Error),
}

/// The text that describes a failure to move a message into or out of a
/// buffer.
pub open spec fn zero_copy_error_text(error: ZeroCopyError) -> Seq<char> {
    match error {
        ZeroCopyError::Serialize(e) => "Failed to serialize UMessage: "@ + protobuf_error_display(e),
        ZeroCopyError::TooLarge { size } => "UMessage too large: "@ + decimal(size as nat)
            + " bytes (max: "@ + decimal(MAX_UMESSAGE_SIZE as nat) + ")"@,
        ZeroCopyError::Deserialize(e) => "Failed to deserialize UMessage: "@
            + protobuf_error_display(e),
    }
}

impl ZeroCopyError {
    /// The text that describes the failure.
    pub fn text(&self) -> (res: String)
        ensures
            res@ == zero_copy_error_text(*self),
    {
        match self {
            ZeroCopyError::Serialize(e) => {
                let mut res = String::from_str("Failed to serialize UMessage: ");
                let detail = protobuf_error_text(e);
                res.append(detail.as_str());
                res
            },
            ZeroCopyError::TooLarge { size } => {
                let mut res = String::from_str("UMessage too large: ");
                append_decimal(&mut res, *size);
                res.append(" bytes (max: ");
                append_decimal(&mut res, MAX_UMESSAGE_SIZE);
                res.append(")");
                res
            },
            ZeroCopyError::Deserialize(e) => {
                let mut res = String::from_str("Failed to deserialize UMessage: ");
                let detail = protobuf_error_text(e);
                res.append(detail.as_str());
                res
            },
        }
    }
}

/// A serialized message in a fixed-size buffer, laid out for shared memory.
#[derive(Debug)]
pub struct UMessageZeroCopy {
    data_length: u32,
    data: [u8; 4096],
}

impl View for UMessageZeroCopy {
    type V = Seq<u8>;

    closed spec fn view(&self) -> Seq<u8> {
        self.data@.take(self.data_length as int)
    }
}

impl UMessageZeroCopy {
    #[verifier::type_invariant]
    closed spec fn fits(&self) -> bool {
        self.data_length <= MAX_UMESSAGE_SIZE
    }

    /// Copies serialized bytes into a fresh buffer.
    pub fn from_serialized(bytes: &[u8]) -> (res: Result<Self, ZeroCopyError>)
        ensures
            bytes@.len() <= MAX_UMESSAGE_SIZE <==> res is Ok,
            res matches Ok(z) ==> z@ == bytes@,
            res matches Err(e) ==> e == (ZeroCopyError::TooLarge { size: bytes@.len() as usize }),
    {
        let n = bytes.len();
        if n > MAX_UMESSAGE_SIZE {
            return Err(ZeroCopyError::TooLarge { size: n });
        }
        let mut data = [0u8; 4096];
        let mut i: usize = 0;
        while i < n
            invariant
                n == bytes@.len(),
                n <= MAX_UMESSAGE_SIZE,
                i <= n,
                data@.len() == MAX_UMESSAGE_SIZE,
                forall|j: int| 0 <= j < i ==> data@[j] == bytes@[j],
            decreases n - i,
        {
            data[i] = bytes[i];
            i = i + 1;
        }
        let z = UMessageZeroCopy { data_length: n as u32, data };
        assert(z@ =~= bytes@);
        Ok(z)
    }

    /// Serializes a message into a fresh buffer. The buffer holds the
    /// message's encoding, which decodes to a message equal to the one given
    /// where that message is in wire form.
    pub fn new(message: UMessage) -> (res: Result<Self, ZeroCopyError>)
        ensures
            umessage_encoding(message) matches Err(e) ==> res == Err::<Self, ZeroCopyError>(
                ZeroCopyError::Serialize(e),
            ),
            umessage_encoding(message) matches Ok(bytes) ==> {
                &&& (res is Ok <==> bytes.len() <= MAX_UMESSAGE_SIZE)
                &&& res matches Ok(z) ==> z@ == bytes
                &&& bytes.len() > MAX_UMESSAGE_SIZE ==> res == Err::<Self, ZeroCopyError>(
                    ZeroCopyError::TooLarge { size: bytes.len() as usize },
                )
            },
            in_wire_form(message) ==> (res matches Ok(z) ==> (umessage_decoding(z@) matches Ok(
                back,
            ) && same_umessage(back, message))),
    {
        match encode_umessage(&message) {
            Err(e) => Err(ZeroCopyError::Serialize(e)),
            Ok(bytes) => Self::from_serialized(bytes.as_slice()),
        }
    }

    /// Deserializes the message held in the buffer.
    pub fn to_umessage(&self) -> (res: Result<UMessage, ZeroCopyError>)
        ensures
            res == decoded(self@),
    {
        match decode_umessage(self.as_bytes()) {
            Ok(m) => Ok(m),
            Err(e) => Err(ZeroCopyError::Deserialize(e)),
        }
    }

    /// Whether the buffer holds the given message: its bytes decode to a
    /// message equal to it.
    pub fn holds(&self, message: &UMessage) -> (res: bool)
        ensures
            res <==> (umessage_decoding(self@) matches Ok(m) && same_umessage(m, *message)),
    {
        match decode_umessage(self.as_bytes()) {
            Ok(m) => umessages_equal(&m, message),
            Err(_) => false,
        }
    }

    /// The serialized message held in the buffer.
    pub fn as_bytes(&self) -> (res: &[u8])
        ensures
            res@ == self@,
    {
        proof { use_type_invariant(self); }
        let s = slice_subrange(self.data.as_slice(), 0, self.data_length as usize);
        s
    }

    /// The length of the serialized message.
    pub fn len(&self) -> (res: usize)
        ensures
            res == self@.len(),
            res <= MAX_UMESSAGE_SIZE,
    {
        proof { use_type_invariant(self); }
        self.data_length as usize
    }

    /// Whether the buffer holds no bytes.
    pub fn is_empty(&self) -> (res: bool)
        ensures
            res <==> self@.len() == 0,
    {
        proof { use_type_invariant(self); }
        self.data_length == 0
    }
}

/// What deserializing the given bytes gives: the decoded message, or the
/// decoder's error.
pub open spec fn decoded(bytes: Seq<u8>) -> Result<UMessage, ZeroCopyError> {
    match umessage_decoding(bytes) {
        Ok(m) => Ok(m),
        Err(e) => Err(ZeroCopyError::Deserialize(e)),
    }
}

/// `to_umessage` undoes `new`: a buffer whose bytes decode to a message
/// equal to the one serialized, as `new` states of every buffer it returns
/// for a message in wire form, deserializes to a message equal to it.
pub proof fn lemma_new_then_to_umessage(message: UMessage, z: UMessageZeroCopy)
    requires
        umessage_decoding(z@) matches Ok(back) && same_umessage(back, message),
    ensures
        decoded(z@) matches Ok(m) && same_umessage(m, message),
{
}

} // verus!
