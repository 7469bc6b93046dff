//! The requests a client sends to the coordinator.

use std::ops::Range;
use vstd::prelude::*;
use vstd::slice::slice_to_vec;
use vstd::utf8::{encode_utf8, encode_utf8_decode_utf8, encode_utf8_valid_utf8};

use crate::codec::{
    after, be_u16, be_u32, be_u64, from_be_u16, from_be_u32, from_be_u64, get_text, get_u16,
    get_u32, get_u64, lemma_be_u16_roundtrip, lemma_be_u32_roundtrip, lemma_be_u64_roundtrip,
    lemma_split_concat, put_bytes, put_u16, put_u32, put_u64, skip, spec_text, DecodeError,
};
use crate::lock::Lock;
use crate::open_options::OpenAccess;
use crate::wal_lock::WalIndexLock;

verus! {

/// The size of a region of the WAL index in bytes.
pub const WAL_INDEX_REGION_SIZE: usize = 32768;

/// A request to the coordinator.
#[derive(Debug, PartialEq, Eq)]
#[allow(inconsistent_fields)]
pub enum Request {
    /// Open the database `db`. This is the first request of a connection.
    Open { access: OpenAccess, db: String },
    /// Delete the database `db`.
    Delete { db: String },
    /// Does the database `db` exist?
    Exists { db: String },
    /// Move the lock of the connection to `lock`.
    Lock { lock: Lock },
    /// Read the bytes in the range `src` of the database file.
    Get { src: Range<u64> },
    /// Write `data` at the offset `dst` of the database file.
    Put { dst: u64, data: Vec<u8> },
    /// How long is the database file?
    Size,
    /// Truncate or extend the database file to `len` bytes.
    SetLen { len: u64 },
    /// Does any connection hold a reserved, pending or exclusive lock?
    Reserved,
    /// Read the region `region` of the WAL index.
    GetWalIndex { region: u32 },
    /// Store `data`, a block of [`WAL_INDEX_REGION_SIZE`] bytes, as the region
    /// `region` of the WAL index.
    PutWalIndex { region: u32, data: Vec<u8> },
    /// Move the lock of the connection on the regions `locks` to `lock`.
    LockWalIndex { locks: Range<u8>, lock: WalIndexLock },
    /// Forget the WAL index.
    DeleteWalIndex,
    /// Has the database file been moved or deleted since it was opened?
    Moved,
}

/// What a request says.
#[allow(inconsistent_fields)]
pub enum RequestView {
    Open { access: OpenAccess, db: Seq<char> },
    Delete { db: Seq<char> },
    Exists { db: Seq<char> },
    Lock { lock: Lock },
    Get { start: u64, end: u64 },
    Put { dst: u64, data: Seq<u8> },
    Size,
    SetLen { len: u64 },
    Reserved,
    GetWalIndex { region: u32 },
    PutWalIndex { region: u32, data: Seq<u8> },
    LockWalIndex { start: u8, end: u8, lock: WalIndexLock },
    DeleteWalIndex,
    Moved,
}

impl View for Request {
    type V = RequestView;

    open spec fn view(&self) -> RequestView {
        match *self {
            Request::Open { access, db } => RequestView::Open { access, db: db@ },
            Request::Delete { db } => RequestView::Delete { db: db@ },
            Request::Exists { db } => RequestView::Exists { db: db@ },
            Request::Lock { lock } => RequestView::Lock { lock },
            Request::Get { src } => RequestView::Get { start: src.start, end: src.end },
            Request::Put { dst, data } => RequestView::Put { dst, data: data@ },
            Request::Size => RequestView::Size,
            Request::SetLen { len } => RequestView::SetLen { len },
            Request::Reserved => RequestView::Reserved,
            Request::GetWalIndex { region } => RequestView::GetWalIndex { region },
            Request::PutWalIndex { region, data } => RequestView::PutWalIndex {
                region,
                data: data@,
            },
            Request::LockWalIndex { locks, lock } => RequestView::LockWalIndex {
                start: locks.start,
                end: locks.end,
                lock,
            },
            Request::DeleteWalIndex => RequestView::DeleteWalIndex,
            Request::Moved => RequestView::Moved,
        }
    }
}

impl RequestView {
    /// The type tag of the request. The order of the requests is part of the
    /// wire format.
    pub open spec fn tag(self) -> u16 {
        match self {
            RequestView::Open { .. } => 1,
            RequestView::Delete { .. } => 2,
            RequestView::Exists { .. } => 3,
            RequestView::Lock { .. } => 4,
            RequestView::Get { .. } => 5,
            RequestView::Put { .. } => 6,
            RequestView::Size => 7,
            RequestView::SetLen { .. } => 8,
            RequestView::Reserved => 9,
            RequestView::GetWalIndex { .. } => 10,
            RequestView::PutWalIndex { .. } => 11,
            RequestView::LockWalIndex { .. } => 12,
            RequestView::DeleteWalIndex => 13,
            RequestView::Moved => 14,
        }
    }

    /// A request is well-formed if the block of a region has the size of a
    /// region.
    pub open spec fn wf(self) -> bool {
        match self {
            RequestView::PutWalIndex { data, .. } => data.len() == WAL_INDEX_REGION_SIZE,
            _ => true,
        }
    }

    /// The fields of the request, as they follow the type tag.
    pub open spec fn fields(self) -> Seq<u8> {
        match self {
            RequestView::Open { access, db } => be_u16(access.spec_to_u16()) + encode_utf8(db),
            RequestView::Delete { db } => encode_utf8(db),
            RequestView::Exists { db } => encode_utf8(db),
            RequestView::Lock { lock } => be_u16(lock.spec_to_u16()),
            RequestView::Get { start, end } => be_u64(start) + be_u64(end),
            RequestView::Put { dst, data } => be_u64(dst) + data,
            RequestView::Size => Seq::empty(),
            RequestView::SetLen { len } => be_u64(len),
            RequestView::Reserved => Seq::empty(),
            RequestView::GetWalIndex { region } => be_u32(region),
            RequestView::PutWalIndex { region, data } => be_u32(region) + data,
            RequestView::LockWalIndex { start, end, lock } => seq![start, end] + be_u16(
                lock.spec_to_u16(),
            ),
            RequestView::DeleteWalIndex => Seq::empty(),
            RequestView::Moved => Seq::empty(),
        }
    }

    /// The bytes of the request: the type tag, then the fields.
    pub open spec fn encoding(self) -> Seq<u8> {
        be_u16(self.tag()) + self.fields()
    }
}

/// The request with the type tag `tag` and the fields `body`.
pub open spec fn spec_decode_fields(tag: u16, body: Seq<u8>) -> Result<RequestView, DecodeError> {
    if tag == 1 {
        if body.len() < 2 {
            Err(DecodeError::UnexpectedEof)
        } else {
            match OpenAccess::spec_from_u16(from_be_u16(body)) {
                None => Err(DecodeError::InvalidEnum(from_be_u16(body))),
                Some(access) => match spec_text(after(body, 2)) {
                    Ok(db) => Ok(RequestView::Open { access, db }),
                    Err(e) => Err(e),
                },
            }
        }
    } else if tag == 2 {
        match spec_text(body) {
            Ok(db) => Ok(RequestView::Delete { db }),
            Err(e) => Err(e),
        }
    } else if tag == 3 {
        match spec_text(body) {
            Ok(db) => Ok(RequestView::Exists { db }),
            Err(e) => Err(e),
        }
    } else if tag == 4 {
        if body.len() < 2 {
            Err(DecodeError::UnexpectedEof)
        } else {
            match Lock::spec_from_u16(from_be_u16(body)) {
                None => Err(DecodeError::InvalidEnum(from_be_u16(body))),
                Some(lock) => Ok(RequestView::Lock { lock }),
            }
        }
    } else if tag == 5 {
        if body.len() < 16 {
            Err(DecodeError::UnexpectedEof)
        } else {
            Ok(RequestView::Get { start: from_be_u64(body), end: from_be_u64(after(body, 8)) })
        }
    } else if tag == 6 {
        if body.len() < 8 {
            Err(DecodeError::UnexpectedEof)
        } else {
            Ok(RequestView::Put { dst: from_be_u64(body), data: after(body, 8) })
        }
    } else if tag == 7 {
        Ok(RequestView::Size)
    } else if tag == 8 {
        if body.len() < 8 {
            Err(DecodeError::UnexpectedEof)
        } else {
            Ok(RequestView::SetLen { len: from_be_u64(body) })
        }
    } else if tag == 9 {
        Ok(RequestView::Reserved)
    } else if tag == 10 {
        if body.len() < 4 {
            Err(DecodeError::UnexpectedEof)
        } else {
            Ok(RequestView::GetWalIndex { region: from_be_u32(body) })
        }
    } else if tag == 11 {
        if body.len() != 4 + WAL_INDEX_REGION_SIZE {
            Err(DecodeError::UnexpectedEof)
        } else {
            Ok(RequestView::PutWalIndex { region: from_be_u32(body), data: after(body, 4) })
        }
    } else if tag == 12 {
        if body.len() < 4 {
            Err(DecodeError::UnexpectedEof)
        } else {
            match WalIndexLock::spec_from_u16(from_be_u16(after(body, 2))) {
                None => Err(DecodeError::InvalidEnum(from_be_u16(after(body, 2)))),
                Some(lock) => Ok(RequestView::LockWalIndex { start: body[0], end: body[1], lock }),
            }
        }
    } else if tag == 13 {
        Ok(RequestView::DeleteWalIndex)
    } else if tag == 14 {
        Ok(RequestView::Moved)
    } else {
        Err(DecodeError::InvalidType(tag))
    }
}

/// The request that `data` encodes, or why it encodes none: the input is too
/// short for the type tag or for a field of fixed width, the type tag or the
/// number of a lock or an access is unknown, or a name is not UTF-8. A block
/// of a region must have exactly the size of a region. What follows the
/// fields of a request of fixed width is ignored.
pub open spec fn spec_decode_request(data: Seq<u8>) -> Result<RequestView, DecodeError> {
    if data.len() < 2 {
        Err(DecodeError::UnexpectedEof)
    } else {
        spec_decode_fields(from_be_u16(data), after(data, 2))
    }
}

/// The view of the request that was decoded, or the error.
pub open spec fn decoded_view(r: Result<Request, DecodeError>) -> Result<RequestView, DecodeError> {
    match r {
        Ok(request) => Ok(request@),
        Err(e) => Err(e),
    }
}

impl Request {
    /// Decode a request from the bytes of a frame that follow its length.
    pub fn decode(data: &[u8]) -> (r: Result<Request, DecodeError>)
        ensures
            decoded_view(r) == spec_decode_request(data@),
    {
        let tag = match get_u16(data) {
            Ok(tag) => tag,
            Err(e) => {
                return Err(e);
            },
        };
        let body = skip(data, 2);
        if tag == 1 {
            let code = match get_u16(body) {
                Ok(code) => code,
                Err(e) => {
                    return Err(e);
                },
            };
            let access = match OpenAccess::from_u16(code) {
                Some(access) => access,
                None => {
                    return Err(DecodeError::InvalidEnum(code));
                },
            };
            match get_text(skip(body, 2)) {
                Ok(db) => Ok(Request::Open { access, db }),
                Err(e) => Err(e),
            }
        } else if tag == 2 {
            match get_text(body) {
                Ok(db) => Ok(Request::Delete { db }),
                Err(e) => Err(e),
            }
        } else if tag == 3 {
            match get_text(body) {
                Ok(db) => Ok(Request::Exists { db }),
                Err(e) => Err(e),
            }
        } else if tag == 4 {
            let code = match get_u16(body) {
                Ok(code) => code,
                Err(e) => {
                    return Err(e);
                },
            };
            match Lock::from_u16(code) {
                Some(lock) => Ok(Request::Lock { lock }),
                None => Err(DecodeError::InvalidEnum(code)),
            }
        } else if tag == 5 {
            if body.len() < 16 {
                return Err(DecodeError::UnexpectedEof);
            }
            let start = match get_u64(body) {
                Ok(start) => start,
                Err(e) => {
                    return Err(e);
                },
            };
            let end = match get_u64(skip(body, 8)) {
                Ok(end) => end,
                Err(e) => {
                    return Err(e);
                },
            };
            Ok(Request::Get { src: Range { start, end } })
        } else if tag == 6 {
            let dst = match get_u64(body) {
                Ok(dst) => dst,
                Err(e) => {
                    return Err(e);
                },
            };
            Ok(Request::Put { dst, data: slice_to_vec(skip(body, 8)) })
        } else if tag == 7 {
            Ok(Request::Size)
        } else if tag == 8 {
            match get_u64(body) {
                Ok(len) => Ok(Request::SetLen { len }),
                Err(e) => Err(e),
            }
        } else if tag == 9 {
            Ok(Request::Reserved)
        } else if tag == 10 {
            match get_u32(body) {
                Ok(region) => Ok(Request::GetWalIndex { region }),
                Err(e) => Err(e),
            }
        } else if tag == 11 {
            if body.len() != 4 + WAL_INDEX_REGION_SIZE {
                return Err(DecodeError::UnexpectedEof);
            }
            match get_u32(body) {
                Ok(region) => Ok(
                    Request::PutWalIndex { region, data: slice_to_vec(skip(body, 4)) },
                ),
                Err(e) => Err(e),
            }
        } else if tag == 12 {
            if body.len() < 4 {
                return Err(DecodeError::UnexpectedEof);
            }
            let start = body[0];
            let end = body[1];
            let code = match get_u16(skip(body, 2)) {
                Ok(code) => code,
                Err(e) => {
                    return Err(e);
                },
            };
            match WalIndexLock::from_u16(code) {
                Some(lock) => Ok(Request::LockWalIndex { locks: Range { start, end }, lock }),
                None => Err(DecodeError::InvalidEnum(code)),
            }
        } else if tag == 13 {
            Ok(Request::DeleteWalIndex)
        } else if tag == 14 {
            Ok(Request::Moved)
        } else {
            Err(DecodeError::InvalidType(tag))
        }
    }

    /// Append the bytes of the request to `buffer`: the type tag, then the
    /// fields. The length that starts a frame is not part of them.
    pub fn encode(&self, buffer: &mut Vec<u8>)
        ensures
            final(buffer)@ == old(buffer)@ + self@.encoding(),
    {
        match self {
            Request::Open { access, db } => {
                put_u16(buffer, 1);
                put_u16(buffer, access.to_u16());
                put_bytes(buffer, db.as_str().as_bytes());
            },
            Request::Delete { db } => {
                put_u16(buffer, 2);
                put_bytes(buffer, db.as_str().as_bytes());
            },
            Request::Exists { db } => {
                put_u16(buffer, 3);
                put_bytes(buffer, db.as_str().as_bytes());
            },
            Request::Lock { lock } => {
                put_u16(buffer, 4);
                put_u16(buffer, lock.to_u16());
            },
            Request::Get { src } => {
                put_u16(buffer, 5);
                put_u64(buffer, src.start);
                put_u64(buffer, src.end);
            },
            Request::Put { dst, data } => {
                put_u16(buffer, 6);
                put_u64(buffer, *dst);
                put_bytes(buffer, data.as_slice());
            },
            Request::Size => {
                put_u16(buffer, 7);
            },
            Request::SetLen { len } => {
                put_u16(buffer, 8);
                put_u64(buffer, *len);
            },
            Request::Reserved => {
                put_u16(buffer, 9);
            },
            Request::GetWalIndex { region } => {
                put_u16(buffer, 10);
                put_u32(buffer, *region);
            },
            Request::PutWalIndex { region, data } => {
                put_u16(buffer, 11);
                put_u32(buffer, *region);
                put_bytes(buffer, data.as_slice());
            },
            Request::LockWalIndex { locks, lock } => {
                put_u16(buffer, 12);
                buffer.push(locks.start);
                buffer.push(locks.end);
                put_u16(buffer, lock.to_u16());
            },
            Request::DeleteWalIndex => {
                put_u16(buffer, 13);
            },
            Request::Moved => {
                put_u16(buffer, 14);
            },
        }
        assert(buffer@ =~= old(buffer)@ + self@.encoding());
    }
}

/// Decoding the bytes of a well-formed request gives the request back.
pub proof fn lemma_request_roundtrip(request: RequestView)
    requires
        request.wf(),
    ensures
        spec_decode_request(request.encoding()) == Ok::<RequestView, DecodeError>(request),
{
    let tag = request.tag();
    let fields = request.fields();
    lemma_be_u16_roundtrip(tag);
    lemma_split_concat(be_u16(tag), fields);
    assert(from_be_u16(request.encoding()) == from_be_u16(be_u16(tag))) by {
        assert(request.encoding()[0] == be_u16(tag)[0]);
        assert(request.encoding()[1] == be_u16(tag)[1]);
    }
    assert(after(request.encoding(), 2) == fields);
    match request {
        RequestView::Open { access, db } => {
            let code = access.spec_to_u16();
            lemma_be_u16_roundtrip(code);
            lemma_split_concat(be_u16(code), encode_utf8(db));
            assert(fields[0] == be_u16(code)[0] && fields[1] == be_u16(code)[1]);
            encode_utf8_valid_utf8(db);
            encode_utf8_decode_utf8(db);
        },
        RequestView::Delete { db } => {
            encode_utf8_valid_utf8(db);
            encode_utf8_decode_utf8(db);
        },
        RequestView::Exists { db } => {
            encode_utf8_valid_utf8(db);
            encode_utf8_decode_utf8(db);
        },
        RequestView::Lock { lock } => {
            lemma_be_u16_roundtrip(lock.spec_to_u16());
        },
        RequestView::Get { start, end } => {
            lemma_be_u64_roundtrip(start);
            lemma_be_u64_roundtrip(end);
            lemma_split_concat(be_u64(start), be_u64(end));
            lemma_prefix_u64(be_u64(start), be_u64(end));
        },
        RequestView::Put { dst, data } => {
            lemma_be_u64_roundtrip(dst);
            lemma_split_concat(be_u64(dst), data);
            lemma_prefix_u64(be_u64(dst), data);
        },
        RequestView::SetLen { len } => {
            lemma_be_u64_roundtrip(len);
        },
        RequestView::GetWalIndex { region } => {
            lemma_be_u32_roundtrip(region);
        },
        RequestView::PutWalIndex { region, data } => {
            lemma_be_u32_roundtrip(region);
            lemma_split_concat(be_u32(region), data);
            assert(forall|i: int| 0 <= i < 4 ==> fields[i] == be_u32(region)[i]);
        },
        RequestView::LockWalIndex { start, end, lock } => {
            let code = lock.spec_to_u16();
            lemma_be_u16_roundtrip(code);
            lemma_split_concat(seq![start, end], be_u16(code));
        },
        _ => {},
    }
}

/// A number read off a sequence only depends on the first eight bytes.
proof fn lemma_prefix_u64(a: Seq<u8>, b: Seq<u8>)
    requires
        a.len() == 8,
    ensures
        from_be_u64(a + b) == from_be_u64(a),
{
    assert(forall|i: int| 0 <= i < 8 ==> (a + b)[i] == a[i]);
}

} // verus!
