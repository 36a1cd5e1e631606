use vstd::prelude::*;
use iceoryx2_bb_container::vec::FixedSizeVec;
use up_rust::UMessage;
use crate::status::{Status, StatusCode};
use crate::umessage::{protobuf_error_display, protobuf_error_text};

verus! {

/// Capacity, in bytes, of the serialized attributes that a header carries.
pub const MAX_FEASIBLE_UATTRIBUTES_SERIALIZED_LENGTH: usize = 1000;

/// The uProtocol major version that this transport writes into each header.
pub const UPROTOCOL_MAJOR_VERSION: u8 = 1;

/// `iceoryx2_bb_container::vec::FixedSizeVec`, a vector of fixed capacity;
/// its contents are known through `attribute_bytes`.
#[verifier::external_type_specification]
#[verifier::external_body]
#[verifier::reject_recursive_types(T)]
pub struct ExFixedSizeVec<T, const CAPACITY: usize>(FixedSizeVec<T, CAPACITY>);

/// The bytes held by a fixed-capacity byte vector, in order.
pub uninterp spec fn attribute_bytes(v: FixedSizeVec<u8, 1000>) -> Seq<u8>;

/// The protobuf wire form of a message's attributes, or the error of the
/// encoder where it refuses them.
pub uninterp spec fn attributes_encoding(message: UMessage) -> Result<Seq<u8>, protobuf::Error>;

/// `FixedSizeVec::new`. Trusted: the new vector is empty.
#[verifier::external_body]
fn fixed_vec_new() -> (res: FixedSizeVec<u8, 1000>)
    ensures
        attribute_bytes(res) == Seq::<u8>::empty(),
{
    FixedSizeVec::new()
}

/// `FixedSizeVec::push`. Trusted: below the capacity the byte is appended and
/// `true` returned; at the capacity the vector is left as it was and `false`
/// returned.
#[verifier::external_body]
fn fixed_vec_push(v: &mut FixedSizeVec<u8, 1000>, byte: u8) -> (res: bool)
    ensures
        res == (attribute_bytes(*old(v)).len() < 1000),
        res ==> attribute_bytes(*final(v)) == attribute_bytes(*old(v)).push(byte),
        !res ==> attribute_bytes(*final(v)) == attribute_bytes(*old(v)),
{
    v.push(byte)
}

/// `FixedSizeVec::as_slice`. Trusted: the slice holds the vector's bytes.
#[verifier::external_body]
fn fixed_vec_as_slice(v: &FixedSizeVec<u8, 1000>) -> (res: &[u8])
    ensures
        res@ == attribute_bytes(*v),
{
    v.as_slice()
}

/// Encodes the attributes of a message with `protobuf::Message::write_to_bytes`.
/// Trusted: the result is the encoder's result.
#[verifier::external_body]
fn encode_attributes(message: &UMessage) -> (res: Result<Vec<u8>, protobuf::Error>)
    ensures
        match res {
            Ok(bytes) => attributes_encoding(*message) == Ok::<Seq<u8>, protobuf::Error>(bytes@),
            Err(e) => attributes_encoding(*message) == Err::<Seq<u8>, protobuf::Error>(e),
        },
{
    protobuf::Message::write_to_bytes(&*message.attributes)
}

/// The first `n` bytes, where `n` is at most the header's capacity.
pub open spec fn truncated_attributes(bytes: Seq<u8>) -> Seq<u8> {
    if bytes.len() <= MAX_FEASIBLE_UATTRIBUTES_SERIALIZED_LENGTH {
        bytes
    } else {
        bytes.take(MAX_FEASIBLE_UATTRIBUTES_SERIALIZED_LENGTH as int)
    }
}

/// The attributes that a header keeps are the leading bytes of the
/// serialized attributes, as many as the header holds.
pub proof fn lemma_truncated_attributes(bytes: Seq<u8>)
    ensures
        truncated_attributes(bytes).is_prefix_of(bytes),
        truncated_attributes(bytes).len() == if bytes.len() <= MAX_FEASIBLE_UATTRIBUTES_SERIALIZED_LENGTH {
            bytes.len()
        } else {
            MAX_FEASIBLE_UATTRIBUTES_SERIALIZED_LENGTH as nat
        },
{
    if bytes.len() > MAX_FEASIBLE_UATTRIBUTES_SERIALIZED_LENGTH {
        assert(bytes.take(1000) =~= bytes.subrange(0, 1000));
    } else {
        assert(bytes =~= bytes.subrange(0, bytes.len() as int));
    }
}

/// The user header that accompanies each sample: the protocol version and
/// the serialized attributes of the message.
#[derive(Debug)]
pub struct UProtocolHeader {
    pub uprotocol_major_version: u8,
    pub uattributes_serialized: FixedSizeVec<u8, 1000>,
}

impl UProtocolHeader {
    /// A header with version zero and no attributes.
    pub fn new() -> (res: UProtocolHeader)
        ensures
            res.uprotocol_major_version == 0,
            attribute_bytes(res.uattributes_serialized) == Seq::<u8>::empty(),
    {
        UProtocolHeader { uprotocol_major_version: 0, uattributes_serialized: fixed_vec_new() }
    }

    /// The serialized attributes that the header carries.
    pub fn attributes(&self) -> (res: &[u8])
        ensures
            res@ == attribute_bytes(self.uattributes_serialized),
    {
        fixed_vec_as_slice(&self.uattributes_serialized)
    }

    /// Replaces the header's attributes by as many leading bytes of
    /// `serialized` as fit; the rest are dropped.
    pub fn store_attributes(&mut self, serialized: &[u8])
        ensures
            final(self).uprotocol_major_version == old(self).uprotocol_major_version,
            attribute_bytes(final(self).uattributes_serialized) == truncated_attributes(serialized@),
    {
        let mut fixed = fixed_vec_new();
        let n = serialized.len();
        let mut i: usize = 0;
        while i < n
            invariant
                n == serialized@.len(),
                i <= n,
                attribute_bytes(fixed) == truncated_attributes(serialized@.take(i as int)),
            decreases n - i,
        {
            let ghost before = attribute_bytes(fixed);
            let _pushed = fixed_vec_push(&mut fixed, serialized[i]);
            proof {
                let prefix = serialized@.take(i as int);
                let next = serialized@.take(i + 1);
                assert(next == prefix.push(serialized@[i as int]));
                if next.len() <= MAX_FEASIBLE_UATTRIBUTES_SERIALIZED_LENGTH {
                    assert(before == prefix);
                } else {
                    assert(next.take(1000) == serialized@.take(1000));
                    if prefix.len() <= MAX_FEASIBLE_UATTRIBUTES_SERIALIZED_LENGTH {
                        assert(prefix.len() == 1000);
                        assert(prefix == serialized@.take(1000));
                    } else {
                        assert(prefix.take(1000) == serialized@.take(1000));
                    }
                }
            }
            i = i + 1;
        }
        proof {
            assert(serialized@.take(n as int) == serialized@);
        }
        self.uattributes_serialized = fixed;
    }
}

impl Default for UProtocolHeader {
    fn default() -> (res: UProtocolHeader)
        ensures
            res.uprotocol_major_version == 0,
            attribute_bytes(res.uattributes_serialized) == Seq::<u8>::empty(),
    {
        UProtocolHeader::new()
    }
}

/// Fills a sample's user header from a message: the protocol version, then
/// the serialized attributes of the message, cut to the header's capacity.
/// Where the attributes cannot be serialized the version is still written
/// and the attributes are left as they were.
pub fn set_samples_user_header(user_header: &mut UProtocolHeader, message: &UMessage) -> (res:
    Result<(), Status>)
    ensures
        final(user_header).uprotocol_major_version == UPROTOCOL_MAJOR_VERSION,
        res is Ok <==> attributes_encoding(*message) is Ok,
        attributes_encoding(*message) matches Ok(bytes) ==> attribute_bytes(
            final(user_header).uattributes_serialized,
        ) == truncated_attributes(bytes),
        attributes_encoding(*message) matches Err(e) ==> {
            &&& attribute_bytes(final(user_header).uattributes_serialized) == attribute_bytes(
                old(user_header).uattributes_serialized,
            )
            &&& res->Err_0.code == StatusCode::Internal
            &&& res->Err_0.message@ == protobuf_error_display(e)
        },
{
    user_header.uprotocol_major_version = UPROTOCOL_MAJOR_VERSION;
    match encode_attributes(message) {
        Err(e) => Err(Status::fail_with_code(StatusCode::Internal, protobuf_error_text(&e))),
        Ok(bytes) => {
            user_header.store_attributes(bytes.as_slice());
            Ok(())
        },
    }
}

} // verus!
