use vstd::prelude::*;
use crate::error::{ErrorKind, MongoError};

verus! {

/// The length that a BSON buffer declares in its first four bytes, read as
/// an unsigned little-endian number.
pub open spec fn declared_length(b: Seq<u8>) -> int
    recommends
        b.len() >= 4,
{
    b[0] as int + b[1] as int * 0x100 + b[2] as int * 0x1_0000 + b[3] as int * 0x100_0000
}

/// Whether a buffer has the outer framing of a BSON document: at least five
/// bytes, no longer than an `i32` can count, its declared length equal to its
/// real length, and a zero byte at the end.
pub open spec fn framed(b: Seq<u8>) -> bool {
    &&& 5 <= b.len() <= i32::MAX
    &&& declared_length(b) == b.len()
    &&& b[b.len() - 1] == 0
}

/// Relies on bson::RawDocumentBuf::from_bytes, which accepts a buffer of at
/// most `i32::MAX` bytes exactly when it is at least five bytes long, its
/// first four bytes give its length as a little-endian `i32`, and its last
/// byte is zero; `into_bytes` hands the same bytes back.
#[verifier::external_body]
fn frame_checked(bytes: Vec<u8>) -> (r: Result<Vec<u8>, String>)
    requires
        bytes.len() <= i32::MAX,
    ensures
        r is Ok <==> framed(bytes@),
        r matches Ok(v) ==> v@ == bytes@,
{
    match bson::RawDocumentBuf::from_bytes(bytes) {
        Ok(doc) => Ok(doc.into_bytes()),
        Err(e) => Err(e.to_string()),
    }
}

/// A BSON document kept as its encoded bytes; this layer never looks inside.
#[derive(Clone, Debug)]
pub struct CoreRawDocument {
    bytes: Vec<u8>,
}

impl View for CoreRawDocument {
    type V = Seq<u8>;

    closed spec fn view(&self) -> Seq<u8> {
        self.bytes@
    }
}

impl CoreRawDocument {
    /// Accepts a buffer as a document when its framing is that of a BSON
    /// document; otherwise reports an `InvalidArgument` error.
    pub fn from_bytes(bytes: Vec<u8>) -> (r: Result<CoreRawDocument, MongoError>)
        ensures
            r is Ok <==> framed(bytes@),
            r matches Ok(d) ==> d@ == bytes@,
            r matches Err(e) ==> e.kind == ErrorKind::InvalidArgument,
    {
        if bytes.len() > i32::MAX as usize {
            return Err(
                MongoError::new(ErrorKind::InvalidArgument, "document too long".to_string()),
            );
        }
        match frame_checked(bytes) {
            Ok(v) => Ok(CoreRawDocument { bytes: v }),
            Err(message) => Err(MongoError::new(ErrorKind::InvalidArgument, message)),
        }
    }

    pub fn as_bytes(&self) -> (r: &[u8])
        ensures
            r@ == self@,
    {
        self.bytes.as_slice()
    }

    pub fn into_bytes(self) -> (r: Vec<u8>)
        ensures
            r@ == self@,
    {
        self.bytes
    }

    pub fn len(&self) -> (r: usize)
        ensures
            r == self@.len(),
    {
        self.bytes.len()
    }
}

} // verus!
