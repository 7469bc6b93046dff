//! The responses the coordinator sends to a client.

use vstd::prelude::*;
use vstd::slice::slice_to_vec;

use crate::codec::{
    after, be_u16, be_u64, bool_byte, from_be_u16, from_be_u64, get_u16, get_u64, get_u8,
    lemma_be_u16_roundtrip, lemma_be_u64_roundtrip, lemma_split_concat, put_bytes, put_u16,
    put_u64, skip, DecodeError,
};
use crate::lock::Lock;
use crate::request::WAL_INDEX_REGION_SIZE;

verus! {

/// A response of the coordinator.
#[derive(Debug, Clone, PartialEq, Eq)]
pub enum Response {
    /// The request was not granted: the connection did not hold the lock it
    /// needs, was not opened, or the request failed.
    Denied,
    /// The database is open.
    Open,
    /// The database is deleted.
    Delete,
    /// Whether the database exists.
    Exists(bool),
    /// The lock that the connection holds now.
    Lock(Lock),
    /// The bytes that were read. They are fewer than asked for where the
    /// file ends early.
    Get(Vec<u8>),
    /// The bytes are written.
    Put,
    /// The length of the database file.
    Size(u64),
    /// The length of the database file is set.
    SetLen,
    /// Whether any connection holds a reserved, pending or exclusive lock.
    Reserved(bool),
    /// The block of a region of the WAL index.
    GetWalIndex(Vec<u8>),
    /// The block is stored.
    PutWalIndex,
    /// The lock on the band of regions is granted.
    LockWalIndex,
    /// The WAL index is forgotten.
    DeleteWalIndex,
    /// Whether the database file has been moved or deleted.
    Moved(bool),
}

/// What a response says.
pub enum ResponseView {
    Denied,
    Open,
    Delete,
    Exists(bool),
    Lock(Lock),
    Get(Seq<u8>),
    Put,
    Size(u64),
    SetLen,
    Reserved(bool),
    GetWalIndex(Seq<u8>),
    PutWalIndex,
    LockWalIndex,
    DeleteWalIndex,
    Moved(bool),
}

impl View for Response {
    type V = ResponseView;

    open spec fn view(&self) -> ResponseView {
        match *self {
            Response::Denied => ResponseView::Denied,
            Response::Open => ResponseView::Open,
            Response::Delete => ResponseView::Delete,
            Response::Exists(b) => ResponseView::Exists(b),
            Response::Lock(lock) => ResponseView::Lock(lock),
            Response::Get(data) => ResponseView::Get(data@),
            Response::Put => ResponseView::Put,
            Response::Size(len) => ResponseView::Size(len),
            Response::SetLen => ResponseView::SetLen,
            Response::Reserved(b) => ResponseView::Reserved(b),
            Response::GetWalIndex(data) => ResponseView::GetWalIndex(data@),
            Response::PutWalIndex => ResponseView::PutWalIndex,
            Response::LockWalIndex => ResponseView::LockWalIndex,
            Response::DeleteWalIndex => ResponseView::DeleteWalIndex,
            Response::Moved(b) => ResponseView::Moved(b),
        }
    }
}

impl ResponseView {
    /// The type tag of the response. The order of the responses is part of
    /// the wire format.
    pub open spec fn tag(self) -> u16 {
        match self {
            ResponseView::Denied => 0,
            ResponseView::Open => 1,
            ResponseView::Delete => 2,
            ResponseView::Exists(_) => 3,
            ResponseView::Lock(_) => 4,
            ResponseView::Get(_) => 5,
            ResponseView::Put => 6,
            ResponseView::Size(_) => 7,
            ResponseView::SetLen => 8,
            ResponseView::Reserved(_) => 9,
            ResponseView::GetWalIndex(_) => 10,
            ResponseView::PutWalIndex => 11,
            ResponseView::LockWalIndex => 12,
            ResponseView::DeleteWalIndex => 13,
            ResponseView::Moved(_) => 14,
        }
    }

    /// A response is well-formed if the block of a region has the size of a
    /// region.
    pub open spec fn wf(self) -> bool {
        match self {
            ResponseView::GetWalIndex(data) => data.len() == WAL_INDEX_REGION_SIZE,
            _ => true,
        }
    }

    /// The fields of the response, as they follow the type tag.
    pub open spec fn fields(self) -> Seq<u8> {
        match self {
            ResponseView::Exists(b) => seq![bool_byte(b)],
            ResponseView::Lock(lock) => be_u16(lock.spec_to_u16()),
            ResponseView::Get(data) => data,
            ResponseView::Size(len) => be_u64(len),
            ResponseView::Reserved(b) => seq![bool_byte(b)],
            ResponseView::GetWalIndex(data) => data,
            ResponseView::Moved(b) => seq![bool_byte(b)],
            _ => Seq::empty(),
        }
    }

    /// The bytes of the response: the type tag, then the fields.
    pub open spec fn encoding(self) -> Seq<u8> {
        be_u16(self.tag()) + self.fields()
    }
}

/// The boolean at the start of `body`. Any byte but zero stands for `true`.
pub open spec fn spec_decode_bool(body: Seq<u8>) -> Result<bool, DecodeError> {
    if body.len() < 1 {
        Err(DecodeError::UnexpectedEof)
    } else {
        Ok(body[0] != 0)
    }
}

/// The response with the type tag `tag` and the fields `body`.
pub open spec fn spec_decode_response_fields(tag: u16, body: Seq<u8>) -> Result<
    ResponseView,
    DecodeError,
> {
    if tag == 0 {
        Ok(ResponseView::Denied)
    } else if tag == 1 {
        Ok(ResponseView::Open)
    } else if tag == 2 {
        Ok(ResponseView::Delete)
    } else if tag == 3 {
        match spec_decode_bool(body) {
            Ok(b) => Ok(ResponseView::Exists(b)),
            Err(e) => Err(e),
        }
    } else if tag == 4 {
        if body.len() < 2 {
            Err(DecodeError::UnexpectedEof)
        } else {
            match Lock::spec_from_u16(from_be_u16(body)) {
                None => Err(DecodeError::InvalidEnum(from_be_u16(body))),
                Some(lock) => Ok(ResponseView::Lock(lock)),
            }
        }
    } else if tag == 5 {
        Ok(ResponseView::Get(body))
    } else if tag == 6 {
        Ok(ResponseView::Put)
    } else if tag == 7 {
        if body.len() < 8 {
            Err(DecodeError::UnexpectedEof)
        } else {
            Ok(ResponseView::Size(from_be_u64(body)))
        }
    } else if tag == 8 {
        Ok(ResponseView::SetLen)
    } else if tag == 9 {
        match spec_decode_bool(body) {
            Ok(b) => Ok(ResponseView::Reserved(b)),
            Err(e) => Err(e),
        }
    } else if tag == 10 {
        if body.len() != WAL_INDEX_REGION_SIZE {
            Err(DecodeError::UnexpectedEof)
        } else {
            Ok(ResponseView::GetWalIndex(body))
        }
    } else if tag == 11 {
        Ok(ResponseView::PutWalIndex)
    } else if tag == 12 {
        Ok(ResponseView::LockWalIndex)
    } else if tag == 13 {
        Ok(ResponseView::DeleteWalIndex)
    } else if tag == 14 {
        match spec_decode_bool(body) {
            Ok(b) => Ok(ResponseView::Moved(b)),
            Err(e) => Err(e),
        }
    } else {
        Err(DecodeError::InvalidType(tag))
    }
}

/// The response that `data` encodes, or why it encodes none: the input is
/// too short for the type tag or for a field of fixed width, or the type tag
/// or the number of a lock is unknown. A block of a region must have exactly
/// the size of a region. What follows the fields of a response of fixed
/// width is ignored.
pub open spec fn spec_decode_response(data: Seq<u8>) -> Result<ResponseView, DecodeError> {
    if data.len() < 2 {
        Err(DecodeError::UnexpectedEof)
    } else {
        spec_decode_response_fields(from_be_u16(data), after(data, 2))
    }
}

/// The view of the response that was decoded, or the error.
pub open spec fn decoded_response_view(r: Result<Response, DecodeError>) -> Result<
    ResponseView,
    DecodeError,
> {
    match r {
        Ok(response) => Ok(response@),
        Err(e) => Err(e),
    }
}

/// Read a boolean off the start of `body`.
fn get_bool(body: &[u8]) -> (r: Result<bool, DecodeError>)
    ensures
        r == spec_decode_bool(body@),
{
    match get_u8(body) {
        Ok(b) => Ok(b != 0),
        Err(e) => Err(e),
    }
}

/// Append the byte that stands for `b`.
fn put_bool(buffer: &mut Vec<u8>, b: bool)
    ensures
        final(buffer)@ == old(buffer)@ + seq![bool_byte(b)],
{
    buffer.push(
        if b {
            1
        } else {
            0
        },
    );
    assert(buffer@ =~= old(buffer)@ + seq![bool_byte(b)]);
}

impl Response {
    /// Decode a response from the bytes of a frame that follow its length.
    pub fn decode(data: &[u8]) -> (r: Result<Response, DecodeError>)
        ensures
            decoded_response_view(r) == spec_decode_response(data@),
    {
        let tag = match get_u16(data) {
            Ok(tag) => tag,
            Err(e) => {
                return Err(e);
            },
        };
        let body = skip(data, 2);
        if tag == 0 {
            Ok(Response::Denied)
        } else if tag == 1 {
            Ok(Response::Open)
        } else if tag == 2 {
            Ok(Response::Delete)
        } else if tag == 3 {
            match get_bool(body) {
                Ok(b) => Ok(Response::Exists(b)),
                Err(e) => Err(e),
            }
        } else if tag == 4 {
            let code = match get_u16(body) {
                Ok(code) => code,
                Err(e) => {
                    return Err(e);
                },
            };
            match Lock::from_u16(code) {
                Some(lock) => Ok(Response::Lock(lock)),
                None => Err(DecodeError::InvalidEnum(code)),
            }
        } else if tag == 5 {
            Ok(Response::Get(slice_to_vec(body)))
        } else if tag == 6 {
            Ok(Response::Put)
        } else if tag == 7 {
            match get_u64(body) {
                Ok(len) => Ok(Response::Size(len)),
                Err(e) => Err(e),
            }
        } else if tag == 8 {
            Ok(Response::SetLen)
        } else if tag == 9 {
            match get_bool(body) {
                Ok(b) => Ok(Response::Reserved(b)),
                Err(e) => Err(e),
            }
        } else if tag == 10 {
            if body.len() != WAL_INDEX_REGION_SIZE {
                Err(DecodeError::UnexpectedEof)
            } else {
                Ok(Response::GetWalIndex(slice_to_vec(body)))
            }
        } else if tag == 11 {
            Ok(Response::PutWalIndex)
        } else if tag == 12 {
            Ok(Response::LockWalIndex)
        } else if tag == 13 {
            Ok(Response::DeleteWalIndex)
        } else if tag == 14 {
            match get_bool(body) {
                Ok(b) => Ok(Response::Moved(b)),
                Err(e) => Err(e),
            }
        } else {
            Err(DecodeError::InvalidType(tag))
        }
    }

    /// Append the bytes of the response to `buffer`: the type tag, then the
    /// fields. The length that starts a frame is not part of them.
    pub fn encode(&self, buffer: &mut Vec<u8>)
        ensures
            final(buffer)@ == old(buffer)@ + self@.encoding(),
    {
        match self {
            Response::Denied => {
                put_u16(buffer, 0);
            },
            Response::Open => {
                put_u16(buffer, 1);
            },
            Response::Delete => {
                put_u16(buffer, 2);
            },
            Response::Exists(b) => {
                put_u16(buffer, 3);
                put_bool(buffer, *b);
            },
            Response::Lock(lock) => {
                put_u16(buffer, 4);
                put_u16(buffer, lock.to_u16());
            },
            Response::Get(data) => {
                put_u16(buffer, 5);
                put_bytes(buffer, data.as_slice());
            },
            Response::Put => {
                put_u16(buffer, 6);
            },
            Response::Size(len) => {
                put_u16(buffer, 7);
                put_u64(buffer, *len);
            },
            Response::SetLen => {
                put_u16(buffer, 8);
            },
            Response::Reserved(b) => {
                put_u16(buffer, 9);
                put_bool(buffer, *b);
            },
            Response::GetWalIndex(data) => {
                put_u16(buffer, 10);
                put_bytes(buffer, data.as_slice());
            },
            Response::PutWalIndex => {
                put_u16(buffer, 11);
            },
            Response::LockWalIndex => {
                put_u16(buffer, 12);
            },
            Response::DeleteWalIndex => {
                put_u16(buffer, 13);
            },
            Response::Moved(b) => {
                put_u16(buffer, 14);
                put_bool(buffer, *b);
            },
        }
        assert(buffer@ =~= old(buffer)@ + self@.encoding());
    }
}

/// Decoding the bytes of a well-formed response gives the response back.
pub proof fn lemma_response_roundtrip(response: ResponseView)
    requires
        response.wf(),
    ensures
        spec_decode_response(response.encoding()) == Ok::<ResponseView, DecodeError>(response),
{
    let tag = response.tag();
    let fields = response.fields();
    lemma_be_u16_roundtrip(tag);
    lemma_split_concat(be_u16(tag), fields);
    assert(from_be_u16(response.encoding()) == from_be_u16(be_u16(tag))) by {
        assert(response.encoding()[0] == be_u16(tag)[0]);
        assert(response.encoding()[1] == be_u16(tag)[1]);
    }
    assert(after(response.encoding(), 2) == fields);
    match response {
        ResponseView::Lock(lock) => {
            lemma_be_u16_roundtrip(lock.spec_to_u16());
        },
        ResponseView::Size(len) => {
            lemma_be_u64_roundtrip(len);
        },
        _ => {},
    }
}

} // verus!
