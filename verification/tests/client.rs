use sqlite_vfs::client::{
    decode_error, delete, delete_wal_index, exists_response, get, get_wal_index, lock,
    lock_granted, lock_wal_index, moved, open, put, put_wal_index, receive_error, reserved,
    response, set_len, size, unexpected_response,
};
use sqlite_vfs::codec::DecodeError;
use sqlite_vfs::error::{Error, ErrorKind};
use sqlite_vfs::frame::ReceiveError;
use sqlite_vfs::lock::Lock;
use sqlite_vfs::response::Response;

fn unexpected<T>() -> Result<T, Error> {
    Err(Error::new(ErrorKind::Other, "received unexpected response"))
}

fn kind<T>(r: Result<T, Error>) -> Option<ErrorKind> {
    r.err().map(|e| e.kind)
}

#[test]
fn responses_are_decoded() {
    assert_eq!(response(Some(&[0, 1])), Ok(Response::Open));
    assert_eq!(response(Some(&[0, 4, 0, 2])), Ok(Response::Lock(Lock::Shared)));
    assert_eq!(kind(response(None)), Some(ErrorKind::Interrupted));
    assert_eq!(kind(response(Some(&[0]))), Some(ErrorKind::UnexpectedEof));
    assert_eq!(kind(response(Some(&[0, 7, 1]))), Some(ErrorKind::UnexpectedEof));
    assert_eq!(kind(response(Some(&[0, 99]))), Some(ErrorKind::Other));
    assert_eq!(kind(response(Some(&[0, 4, 0, 9]))), Some(ErrorKind::Other));
}

#[test]
fn errors_are_translated() {
    assert_eq!(decode_error(DecodeError::UnexpectedEof).kind, ErrorKind::UnexpectedEof);
    assert_eq!(decode_error(DecodeError::InvalidType(9)), Error::other("invalid type"));
    assert_eq!(decode_error(DecodeError::InvalidEnum(9)), Error::other("invalid enum"));
    assert_eq!(decode_error(DecodeError::InvalidUtf8).kind, ErrorKind::Other);
    assert_eq!(receive_error(ReceiveError::Closed).kind, ErrorKind::UnexpectedEof);
    assert_eq!(
        receive_error(ReceiveError::Excess { declared: 4, received: 5 }),
        Error::other("excess data")
    );
    assert_eq!(unexpected_response(), Error::other("received unexpected response"));
}

#[test]
fn denied_means_what_the_request_says() {
    assert_eq!(kind(open(Response::Denied)), Some(ErrorKind::PermissionDenied));
    assert_eq!(kind(delete(Response::Denied)), Some(ErrorKind::NotFound));
    assert_eq!(kind(exists_response(Response::Denied)), Some(ErrorKind::NotFound));
    assert_eq!(lock(Response::Denied), Ok(None));
    assert_eq!(lock_wal_index(Response::Denied), Ok(false));
    assert_eq!(get(Response::Denied), unexpected());
    assert_eq!(put(Response::Denied), unexpected());
    assert_eq!(size(Response::Denied), unexpected());
    assert_eq!(set_len(Response::Denied), unexpected());
    assert_eq!(reserved(Response::Denied), unexpected());
    assert_eq!(moved(Response::Denied), unexpected());
    assert_eq!(get_wal_index(Response::Denied), unexpected());
    assert_eq!(put_wal_index(Response::Denied), unexpected());
    assert_eq!(delete_wal_index(Response::Denied), unexpected());
}

#[test]
fn the_expected_response_is_taken() {
    assert_eq!(open(Response::Open), Ok(()));
    assert_eq!(delete(Response::Delete), Ok(()));
    assert_eq!(exists_response(Response::Exists(true)), Ok(true));
    assert_eq!(exists_response(Response::Exists(false)), Ok(false));
    assert_eq!(lock(Response::Lock(Lock::Pending)), Ok(Some(Lock::Pending)));
    assert_eq!(get(Response::Get(vec![1, 2])), Ok(vec![1, 2]));
    assert_eq!(put(Response::Put), Ok(()));
    assert_eq!(size(Response::Size(9)), Ok(9));
    assert_eq!(set_len(Response::SetLen), Ok(()));
    assert_eq!(reserved(Response::Reserved(true)), Ok(true));
    assert_eq!(moved(Response::Moved(false)), Ok(false));
    assert_eq!(get_wal_index(Response::GetWalIndex(vec![3; 32768])), Ok(vec![3; 32768]));
    assert_eq!(put_wal_index(Response::PutWalIndex), Ok(()));
    assert_eq!(lock_wal_index(Response::LockWalIndex), Ok(true));
    assert_eq!(delete_wal_index(Response::DeleteWalIndex), Ok(()));
}

#[test]
fn another_response_is_unexpected() {
    assert_eq!(open(Response::Put), unexpected());
    assert_eq!(delete(Response::Open), unexpected());
    assert_eq!(exists_response(Response::Reserved(true)), unexpected());
    assert_eq!(lock(Response::LockWalIndex), unexpected());
    assert_eq!(get(Response::GetWalIndex(vec![0; 32768])), unexpected());
    assert_eq!(put(Response::PutWalIndex), unexpected());
    assert_eq!(size(Response::SetLen), unexpected());
    assert_eq!(set_len(Response::Size(1)), unexpected());
    assert_eq!(reserved(Response::Exists(true)), unexpected());
    assert_eq!(moved(Response::Reserved(true)), unexpected());
    assert_eq!(get_wal_index(Response::Get(vec![0; 32768])), unexpected());
    assert_eq!(get_wal_index(Response::GetWalIndex(vec![0; 100])), unexpected());
    assert_eq!(put_wal_index(Response::Put), unexpected());
    assert_eq!(lock_wal_index(Response::Lock(Lock::Shared)), unexpected());
    assert_eq!(delete_wal_index(Response::Delete), unexpected());
}

#[test]
fn pending_is_not_exclusive() {
    assert!(lock_granted(Some(Lock::Exclusive), Lock::Exclusive));
    assert!(!lock_granted(Some(Lock::Pending), Lock::Exclusive));
    assert!(lock_granted(Some(Lock::Shared), Lock::Shared));
    assert!(lock_granted(Some(Lock::Unlocked), Lock::Unlocked));
    assert!(!lock_granted(None, Lock::Shared));
    assert!(!lock_granted(None, Lock::Unlocked));
}
