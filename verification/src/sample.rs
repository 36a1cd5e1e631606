use vstd::prelude::*;
use up_rust::UMessage;
use crate::status::{Status, StatusCode};
use crate::umessage::{
    encode_umessage, in_wire_form, protobuf_error_display, protobuf_error_text, same_umessage,
    umessage_decoding, umessage_encoding,
};
use crate::uprotocolheader::{
    attribute_bytes, attributes_encoding, set_samples_user_header, truncated_attributes,
    UProtocolHeader, UPROTOCOL_MAJOR_VERSION,
};

verus! {

/// What is written into a sample for one message: the serialized message as
/// payload, and the user header.
pub struct EncodedSample {
    pub payload: Vec<u8>,
    pub header: UProtocolHeader,
}

/// Encodes a message for publication: the payload is the serialized message;
/// the header carries the protocol version and the serialized attributes, cut
/// to the header's capacity. A message that cannot be serialized, or whose
/// attributes cannot, gives an internal error with the encoder's text. The
/// payload of a message in wire form decodes to a message equal to it.
pub fn encode_sample(message: &UMessage) -> (res: Result<EncodedSample, Status>)
    ensures
        res is Ok <==> umessage_encoding(*message) is Ok && attributes_encoding(*message) is Ok,
        res matches Ok(s) ==> {
            &&& umessage_encoding(*message) == Ok::<Seq<u8>, protobuf::Error>(s.payload@)
            &&& in_wire_form(*message) ==> (umessage_decoding(s.payload@) matches Ok(back)
                && same_umessage(back, *message))
            &&& s.header.uprotocol_major_version == UPROTOCOL_MAJOR_VERSION
            &&& attributes_encoding(*message) matches Ok(attrs) && attribute_bytes(
                s.header.uattributes_serialized,
            ) == truncated_attributes(attrs)
        },
        res matches Err(status) ==> status.code == StatusCode::Internal,
        umessage_encoding(*message) matches Err(e) ==> res matches Err(status)
            && status.message@ == protobuf_error_display(e),
        umessage_encoding(*message) is Ok ==> (attributes_encoding(*message) matches Err(e) ==> (
        res matches Err(status) && status.message@ == protobuf_error_display(e))),
{
    let payload = match encode_umessage(message) {
        Ok(bytes) => bytes,
        Err(e) => {
            return Err(Status::fail_with_code(StatusCode::Internal, protobuf_error_text(&e)));
        },
    };
    let mut header = UProtocolHeader::new();
    match set_samples_user_header(&mut header, message) {
        Ok(()) => Ok(EncodedSample { payload, header }),
        Err(status) => Err(status),
    }
}

} // verus!
