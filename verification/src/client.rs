//! The client side of the coordinator protocol: what the response to each
//! request means to the one who sent it.
//!
//! A client sends one request at a time and waits for the response. The
//! stream is not ours: whoever owns it writes the frame of the request,
//! collects the frame of the response, and asks the function for the
//! request it sent what the response means.

use vstd::prelude::*;

use crate::codec::DecodeError;
use crate::error::{Error, ErrorKind};
use crate::frame::ReceiveError;
use crate::lock::Lock;
use crate::request::WAL_INDEX_REGION_SIZE;
use crate::response::{spec_decode_response, Response, ResponseView};

verus! {

/// The error for a response that does not answer the request.
pub fn unexpected_response() -> (r: Error)
    ensures
        r.kind == ErrorKind::Other,
        r.message@ == "received unexpected response"@,
{
    Error::other("received unexpected response")
}

/// The error for a message that could not be decoded: input that ends
/// early keeps its kind, everything else is of the kind
/// [`ErrorKind::Other`].
pub fn decode_error(error: DecodeError) -> (r: Error)
    ensures
        r.kind == if error == DecodeError::UnexpectedEof {
            ErrorKind::UnexpectedEof
        } else {
            ErrorKind::Other
        },
{
    match error {
        DecodeError::UnexpectedEof => Error::new(ErrorKind::UnexpectedEof, "message is too short"),
        DecodeError::InvalidType(_) => Error::other("invalid type"),
        DecodeError::InvalidEnum(_) => Error::other("invalid enum"),
        DecodeError::InvalidUtf8 => Error::other("invalid name"),
    }
}

/// The error for a frame that could not be received: a stream that ends
/// within a frame is input that ends early, bytes beyond the frame are of
/// the kind [`ErrorKind::Other`].
pub fn receive_error(error: ReceiveError) -> (r: Error)
    ensures
        r.kind == if error == ReceiveError::Closed {
            ErrorKind::UnexpectedEof
        } else {
            ErrorKind::Other
        },
{
    match error {
        ReceiveError::Closed => Error::new(
            ErrorKind::UnexpectedEof,
            "connection got closed before message was completely received",
        ),
        ReceiveError::Excess { .. } => Error::other("excess data"),
    }
}

/// The response that the message of a frame holds; `None` stands for a
/// stream that ended where the response was due.
pub fn response(message: Option<&[u8]>) -> (r: Result<Response, Error>)
    ensures
        match message {
            None => r matches Err(e) && e.kind == ErrorKind::Interrupted,
            Some(bytes) => match spec_decode_response(bytes@) {
                Ok(view) => r matches Ok(response) && response@ == view,
                Err(DecodeError::UnexpectedEof) => r matches Err(e) && e.kind
                    == ErrorKind::UnexpectedEof,
                Err(_) => r matches Err(e) && e.kind == ErrorKind::Other,
            },
        },
{
    match message {
        None => Err(Error::new(ErrorKind::Interrupted, "connection got closed")),
        Some(bytes) => match Response::decode(bytes) {
            Ok(response) => Ok(response),
            Err(e) => Err(decode_error(e)),
        },
    }
}

/// What the response to an open request means: the database is open, or
/// the permission was denied.
pub fn open(response: Response) -> (r: Result<(), Error>)
    ensures
        match response@ {
            ResponseView::Open => r is Ok,
            ResponseView::Denied => r matches Err(e) && e.kind == ErrorKind::PermissionDenied,
            _ => r matches Err(e) && e.kind == ErrorKind::Other,
        },
{
    match response {
        Response::Open => Ok(()),
        Response::Denied => Err(Error::new(ErrorKind::PermissionDenied, "permission denied")),
        _ => Err(unexpected_response()),
    }
}

/// What the response to a delete request means: the database is deleted,
/// or there was none.
pub fn delete(response: Response) -> (r: Result<(), Error>)
    ensures
        match response@ {
            ResponseView::Delete => r is Ok,
            ResponseView::Denied => r matches Err(e) && e.kind == ErrorKind::NotFound,
            _ => r matches Err(e) && e.kind == ErrorKind::Other,
        },
{
    match response {
        Response::Delete => Ok(()),
        Response::Denied => Err(Error::new(ErrorKind::NotFound, "not found")),
        _ => Err(unexpected_response()),
    }
}

/// What the response to an exists request means: whether the database
/// exists, or that it could not be found out.
pub fn exists_response(response: Response) -> (r: Result<bool, Error>)
    ensures
        match response@ {
            ResponseView::Exists(b) => r == Ok::<bool, Error>(b),
            ResponseView::Denied => r matches Err(e) && e.kind == ErrorKind::NotFound,
            _ => r matches Err(e) && e.kind == ErrorKind::Other,
        },
{
    match response {
        Response::Exists(b) => Ok(b),
        Response::Denied => Err(Error::new(ErrorKind::NotFound, "not found")),
        _ => Err(unexpected_response()),
    }
}

/// What the response to a lock request means: the lock that the connection
/// holds now, or `None` if no lock was granted.
pub fn lock(response: Response) -> (r: Result<Option<Lock>, Error>)
    ensures
        match response@ {
            ResponseView::Lock(lock) => r == Ok::<Option<Lock>, Error>(Some(lock)),
            ResponseView::Denied => r == Ok::<Option<Lock>, Error>(None),
            _ => r matches Err(e) && e.kind == ErrorKind::Other,
        },
{
    match response {
        Response::Lock(lock) => Ok(Some(lock)),
        Response::Denied => Ok(None),
        _ => Err(unexpected_response()),
    }
}

/// Whether a lock request for `to` got what it asked for: a request for the
/// exclusive lock that only got as far as the pending lock did not.
pub fn lock_granted(held: Option<Lock>, to: Lock) -> (r: bool)
    ensures
        r == (held == Some(to)),
{
    match held {
        Some(lock) => lock == to,
        None => false,
    }
}

/// What the response to a get request means: the bytes that were read.
pub fn get(response: Response) -> (r: Result<Vec<u8>, Error>)
    ensures
        match response@ {
            ResponseView::Get(data) => r matches Ok(bytes) && bytes@ == data,
            _ => r matches Err(e) && e.kind == ErrorKind::Other,
        },
{
    match response {
        Response::Get(data) => Ok(data),
        _ => Err(unexpected_response()),
    }
}

/// What the response to a put request means: the bytes are written.
pub fn put(response: Response) -> (r: Result<(), Error>)
    ensures
        match response@ {
            ResponseView::Put => r is Ok,
            _ => r matches Err(e) && e.kind == ErrorKind::Other,
        },
{
    match response {
        Response::Put => Ok(()),
        _ => Err(unexpected_response()),
    }
}

/// What the response to a size request means: the length of the file.
pub fn size(response: Response) -> (r: Result<u64, Error>)
    ensures
        match response@ {
            ResponseView::Size(len) => r == Ok::<u64, Error>(len),
            _ => r matches Err(e) && e.kind == ErrorKind::Other,
        },
{
    match response {
        Response::Size(len) => Ok(len),
        _ => Err(unexpected_response()),
    }
}

/// What the response to a request to set the length means: it is set.
pub fn set_len(response: Response) -> (r: Result<(), Error>)
    ensures
        match response@ {
            ResponseView::SetLen => r is Ok,
            _ => r matches Err(e) && e.kind == ErrorKind::Other,
        },
{
    match response {
        Response::SetLen => Ok(()),
        _ => Err(unexpected_response()),
    }
}

/// What the response to a reserved request means: whether some connection
/// holds a reserved, pending or exclusive lock.
pub fn reserved(response: Response) -> (r: Result<bool, Error>)
    ensures
        match response@ {
            ResponseView::Reserved(b) => r == Ok::<bool, Error>(b),
            _ => r matches Err(e) && e.kind == ErrorKind::Other,
        },
{
    match response {
        Response::Reserved(b) => Ok(b),
        _ => Err(unexpected_response()),
    }
}

/// What the response to a moved request means: whether the file has been
/// moved or deleted.
pub fn moved(response: Response) -> (r: Result<bool, Error>)
    ensures
        match response@ {
            ResponseView::Moved(b) => r == Ok::<bool, Error>(b),
            _ => r matches Err(e) && e.kind == ErrorKind::Other,
        },
{
    match response {
        Response::Moved(b) => Ok(b),
        _ => Err(unexpected_response()),
    }
}

/// What the response to a request for a region of the WAL index means: the
/// block of the region, which has the size of a region.
pub fn get_wal_index(response: Response) -> (r: Result<Vec<u8>, Error>)
    ensures
        match response@ {
            ResponseView::GetWalIndex(data) => if data.len() == WAL_INDEX_REGION_SIZE {
                r matches Ok(block) && block@ == data
            } else {
                r matches Err(e) && e.kind == ErrorKind::Other
            },
            _ => r matches Err(e) && e.kind == ErrorKind::Other,
        },
{
    match response {
        Response::GetWalIndex(data) => {
            if data.len() == WAL_INDEX_REGION_SIZE {
                Ok(data)
            } else {
                Err(unexpected_response())
            }
        },
        _ => Err(unexpected_response()),
    }
}

/// What the response to a request to store a region of the WAL index
/// means: it is stored.
pub fn put_wal_index(response: Response) -> (r: Result<(), Error>)
    ensures
        match response@ {
            ResponseView::PutWalIndex => r is Ok,
            _ => r matches Err(e) && e.kind == ErrorKind::Other,
        },
{
    match response {
        Response::PutWalIndex => Ok(()),
        _ => Err(unexpected_response()),
    }
}

/// What the response to a lock request on a band of regions means: whether
/// the lock was granted.
pub fn lock_wal_index(response: Response) -> (r: Result<bool, Error>)
    ensures
        match response@ {
            ResponseView::LockWalIndex => r == Ok::<bool, Error>(true),
            ResponseView::Denied => r == Ok::<bool, Error>(false),
            _ => r matches Err(e) && e.kind == ErrorKind::Other,
        },
{
    match response {
        Response::LockWalIndex => Ok(true),
        Response::Denied => Ok(false),
        _ => Err(unexpected_response()),
    }
}

/// What the response to a request to delete the WAL index means: it is
/// deleted.
pub fn delete_wal_index(response: Response) -> (r: Result<(), Error>)
    ensures
        match response@ {
            ResponseView::DeleteWalIndex => r is Ok,
            _ => r matches Err(e) && e.kind == ErrorKind::Other,
        },
{
    match response {
        Response::DeleteWalIndex => Ok(()),
        _ => Err(unexpected_response()),
    }
}

} // verus!
