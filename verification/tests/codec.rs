use std::ops::Range;

use sqlite_vfs::codec::DecodeError;
use sqlite_vfs::frame::{
    encode_frame, frame_request, frame_response, FrameReader, ReceiveError, Received,
};
use sqlite_vfs::lock::Lock;
use sqlite_vfs::open_options::OpenAccess;
use sqlite_vfs::request::Request;
use sqlite_vfs::response::Response;
use sqlite_vfs::wal_lock::WalIndexLock;

fn request_roundtrip(req: &Request) -> Result<Request, DecodeError> {
    let mut encoded = Vec::new();
    req.encode(&mut encoded);
    Request::decode(&encoded)
}

fn response_roundtrip(res: &Response) -> Result<Response, DecodeError> {
    let mut encoded = Vec::new();
    res.encode(&mut encoded);
    Response::decode(&encoded)
}

#[test]
fn test_request_open_encode_decode() {
    let req = Request::Open { access: OpenAccess::Create, db: "test.db".to_string() };
    let mut encoded = Vec::new();
    req.encode(&mut encoded);
    assert_eq!(Request::decode(&encoded).unwrap(), req);
}

#[test]
fn test_request_get_wal_index_encode_decode() {
    let req = Request::GetWalIndex { region: 42 };
    let mut encoded = Vec::new();
    req.encode(&mut encoded);
    assert_eq!(Request::decode(&encoded).unwrap(), req);
}

#[test]
fn test_request_put_wal_index_encode_decode() {
    let data = [0; 32768];
    let req = Request::PutWalIndex { region: 42, data: data.to_vec() };
    let mut encoded = Vec::new();
    req.encode(&mut encoded);
    assert_eq!(Request::decode(&encoded).unwrap(), req);
}

#[test]
fn test_request_lock_wal_index_encode_decode() {
    let req =
        Request::LockWalIndex { locks: Range { start: 2, end: 4 }, lock: WalIndexLock::Exclusive };
    let mut encoded = Vec::new();
    req.encode(&mut encoded);
    assert_eq!(Request::decode(&encoded).unwrap(), req);
}

#[test]
fn test_request_delete_wal_index_encode_decode() {
    let req = Request::DeleteWalIndex;
    let mut encoded = Vec::new();
    req.encode(&mut encoded);
    assert_eq!(Request::decode(&encoded).unwrap(), req);
}

#[test]
fn test_response_open_encode_decode() {
    let res = Response::Open;
    let mut encoded = Vec::new();
    res.encode(&mut encoded);
    assert_eq!(Response::decode(&encoded).unwrap(), res);
}

#[test]
fn test_response_denied_encode_decode() {
    let res = Response::Denied;
    let mut encoded = Vec::new();
    res.encode(&mut encoded);
    assert_eq!(Response::decode(&encoded).unwrap(), res);
}

#[test]
fn test_response_get_wal_index_encode_decode() {
    let data = [0; 32768];
    let res = Response::GetWalIndex(data.to_vec());
    let mut encoded = Vec::new();
    res.encode(&mut encoded);
    assert_eq!(Response::decode(&encoded).unwrap(), res);
}

#[test]
fn test_response_put_wal_index_encode_decode() {
    let res = Response::PutWalIndex;
    let mut encoded = Vec::new();
    res.encode(&mut encoded);
    assert_eq!(Response::decode(&encoded).unwrap(), res);
}

#[test]
fn test_response_lock_wal_index_encode_decode() {
    let res = Response::LockWalIndex;
    let mut encoded = Vec::new();
    res.encode(&mut encoded);
    assert_eq!(Response::decode(&encoded).unwrap(), res);
}

#[test]
fn test_response_delete_wal_index_encode_decode() {
    let res = Response::DeleteWalIndex;
    let mut encoded = Vec::new();
    res.encode(&mut encoded);
    assert_eq!(Response::decode(&encoded).unwrap(), res);
}

#[test]
fn every_request_survives_the_round_trip() {
    let mut block = vec![0u8; 32768];
    block[0] = 0xff;
    block[32767] = 7;
    let requests = vec![
        Request::Open { access: OpenAccess::Read, db: "a/b.db".to_string() },
        Request::Open { access: OpenAccess::Write, db: String::new() },
        Request::Open { access: OpenAccess::CreateNew, db: "\u{e4}\u{20ac}\u{1f600}.db".to_string() },
        Request::Delete { db: "gone.db".to_string() },
        Request::Exists { db: "there.db".to_string() },
        Request::Lock { lock: Lock::Unlocked },
        Request::Lock { lock: Lock::Shared },
        Request::Lock { lock: Lock::Reserved },
        Request::Lock { lock: Lock::Pending },
        Request::Lock { lock: Lock::Exclusive },
        Request::Get { src: Range { start: 0, end: u64::MAX } },
        Request::Get { src: Range { start: 0x0102_0304_0506_0708, end: 9 } },
        Request::Put { dst: 0x1122_3344_5566_7788, data: vec![1, 2, 3] },
        Request::Put { dst: 0, data: Vec::new() },
        Request::Size,
        Request::SetLen { len: 4096 },
        Request::Reserved,
        Request::GetWalIndex { region: u32::MAX },
        Request::PutWalIndex { region: 0x0a0b_0c0d, data: block },
        Request::LockWalIndex { locks: Range { start: 0, end: 255 }, lock: WalIndexLock::Unlocked },
        Request::LockWalIndex { locks: Range { start: 7, end: 3 }, lock: WalIndexLock::Shared },
        Request::DeleteWalIndex,
        Request::Moved,
    ];
    for req in requests {
        assert_eq!(request_roundtrip(&req), Ok(req));
    }
}

#[test]
fn every_response_survives_the_round_trip() {
    let mut block = vec![0u8; 32768];
    block[1] = 1;
    let responses = vec![
        Response::Denied,
        Response::Open,
        Response::Delete,
        Response::Exists(true),
        Response::Exists(false),
        Response::Lock(Lock::Unlocked),
        Response::Lock(Lock::Pending),
        Response::Lock(Lock::Exclusive),
        Response::Get(vec![9, 8, 7]),
        Response::Get(Vec::new()),
        Response::Put,
        Response::Size(0x0102_0304_0506_0708),
        Response::SetLen,
        Response::Reserved(true),
        Response::Reserved(false),
        Response::GetWalIndex(block),
        Response::PutWalIndex,
        Response::LockWalIndex,
        Response::DeleteWalIndex,
        Response::Moved(true),
        Response::Moved(false),
    ];
    for res in responses {
        assert_eq!(response_roundtrip(&res), Ok(res));
    }
}

#[test]
fn requests_have_their_bytes() {
    let mut bytes = Vec::new();
    Request::Open { access: OpenAccess::Create, db: "a.db".to_string() }.encode(&mut bytes);
    assert_eq!(bytes, vec![0, 1, 0, 3, b'a', b'.', b'd', b'b']);

    let mut bytes = vec![0xee];
    Request::Lock { lock: Lock::Exclusive }.encode(&mut bytes);
    assert_eq!(bytes, vec![0xee, 0, 4, 0, 5]);

    let mut bytes = Vec::new();
    Request::Get { src: Range { start: 1, end: 0x0102_0304_0506_0708 } }.encode(&mut bytes);
    assert_eq!(bytes, vec![0, 5, 0, 0, 0, 0, 0, 0, 0, 1, 1, 2, 3, 4, 5, 6, 7, 8]);

    let mut bytes = Vec::new();
    Request::Put { dst: 256, data: vec![0xaa, 0xbb] }.encode(&mut bytes);
    assert_eq!(bytes, vec![0, 6, 0, 0, 0, 0, 0, 0, 1, 0, 0xaa, 0xbb]);

    let mut bytes = Vec::new();
    Request::GetWalIndex { region: 0x0102_0304 }.encode(&mut bytes);
    assert_eq!(bytes, vec![0, 10, 1, 2, 3, 4]);

    let mut bytes = Vec::new();
    Request::Moved.encode(&mut bytes);
    assert_eq!(bytes, vec![0, 14]);
}

#[test]
fn responses_have_their_bytes() {
    let mut bytes = Vec::new();
    Response::Denied.encode(&mut bytes);
    assert_eq!(bytes, vec![0, 0]);

    let mut bytes = Vec::new();
    Response::Exists(true).encode(&mut bytes);
    assert_eq!(bytes, vec![0, 3, 1]);

    let mut bytes = Vec::new();
    Response::Reserved(false).encode(&mut bytes);
    assert_eq!(bytes, vec![0, 9, 0]);

    let mut bytes = Vec::new();
    Response::Lock(Lock::Unlocked).encode(&mut bytes);
    assert_eq!(bytes, vec![0, 4, 0, 1]);

    let mut bytes = Vec::new();
    Response::Size(0x0102).encode(&mut bytes);
    assert_eq!(bytes, vec![0, 7, 0, 0, 0, 0, 0, 0, 1, 2]);
}

#[test]
fn lock_wal_index_frame() {
    let req =
        Request::LockWalIndex { locks: Range { start: 2, end: 4 }, lock: WalIndexLock::Exclusive };
    let frame = frame_request(&req).unwrap();
    assert_eq!(frame, vec![0, 0, 0, 10, 0, 12, 2, 4, 0, 3]);

    let mut reader = FrameReader::new();
    let message = match reader.feed(&frame) {
        Ok(Received::Frame(message)) => message,
        other => panic!("unexpected {:?}", other),
    };
    assert_eq!(Request::decode(&message).unwrap(), req);
}

#[test]
fn short_requests_end_early() {
    assert_eq!(Request::decode(&[]), Err(DecodeError::UnexpectedEof));
    assert_eq!(Request::decode(&[0]), Err(DecodeError::UnexpectedEof));
    assert_eq!(Request::decode(&[0, 1]), Err(DecodeError::UnexpectedEof));
    assert_eq!(Request::decode(&[0, 1, 0]), Err(DecodeError::UnexpectedEof));
    assert_eq!(Request::decode(&[0, 4, 0]), Err(DecodeError::UnexpectedEof));
    assert_eq!(Request::decode(&[0, 5, 0, 0, 0, 0, 0, 0, 0, 1]), Err(DecodeError::UnexpectedEof));
    assert_eq!(Request::decode(&[0, 6, 0, 0, 0, 0, 0, 0, 0]), Err(DecodeError::UnexpectedEof));
    assert_eq!(Request::decode(&[0, 8, 1]), Err(DecodeError::UnexpectedEof));
    assert_eq!(Request::decode(&[0, 10, 0, 0, 0]), Err(DecodeError::UnexpectedEof));
    assert_eq!(Request::decode(&[0, 12, 2, 4, 0]), Err(DecodeError::UnexpectedEof));
    assert_eq!(Request::decode(&[0, 12, 2]), Err(DecodeError::UnexpectedEof));
}

#[test]
fn a_block_must_have_the_size_of_a_region() {
    let mut short = vec![0, 11, 0, 0, 0, 1];
    short.extend_from_slice(&[0u8; 32767]);
    assert_eq!(Request::decode(&short), Err(DecodeError::UnexpectedEof));
    let mut long = vec![0, 11, 0, 0, 0, 1];
    long.extend_from_slice(&[0u8; 32769]);
    assert_eq!(Request::decode(&long), Err(DecodeError::UnexpectedEof));

    let mut short = vec![0, 10];
    short.extend_from_slice(&[0u8; 100]);
    assert_eq!(Response::decode(&short), Err(DecodeError::UnexpectedEof));
}

#[test]
fn unknown_tags_are_invalid_types() {
    assert_eq!(Request::decode(&[0, 0]), Err(DecodeError::InvalidType(0)));
    assert_eq!(Request::decode(&[0, 15]), Err(DecodeError::InvalidType(15)));
    assert_eq!(Request::decode(&[1, 1, 9, 9]), Err(DecodeError::InvalidType(257)));
    assert_eq!(Response::decode(&[0, 15]), Err(DecodeError::InvalidType(15)));
    assert_eq!(Response::decode(&[0xff, 0xff]), Err(DecodeError::InvalidType(0xffff)));
}

#[test]
fn unknown_discriminants_are_invalid_enums() {
    assert_eq!(Request::decode(&[0, 1, 0, 0, b'a']), Err(DecodeError::InvalidEnum(0)));
    assert_eq!(Request::decode(&[0, 1, 0, 5, b'a']), Err(DecodeError::InvalidEnum(5)));
    assert_eq!(Request::decode(&[0, 4, 0, 0]), Err(DecodeError::InvalidEnum(0)));
    assert_eq!(Request::decode(&[0, 4, 0, 6]), Err(DecodeError::InvalidEnum(6)));
    assert_eq!(Request::decode(&[0, 12, 2, 4, 0, 0]), Err(DecodeError::InvalidEnum(0)));
    assert_eq!(Request::decode(&[0, 12, 2, 4, 0, 4]), Err(DecodeError::InvalidEnum(4)));
    assert_eq!(Response::decode(&[0, 4, 1, 0]), Err(DecodeError::InvalidEnum(256)));
}

#[test]
fn names_are_utf8() {
    assert_eq!(
        Request::decode(&[0, 2, 0xc3, 0xa4]),
        Ok(Request::Delete { db: "\u{e4}".to_string() })
    );
    assert_eq!(Request::decode(&[0, 2, 0xc3]), Err(DecodeError::InvalidUtf8));
    assert_eq!(Request::decode(&[0, 3, 0xff, b'a']), Err(DecodeError::InvalidUtf8));
    assert_eq!(Request::decode(&[0, 1, 0, 1, 0x80]), Err(DecodeError::InvalidUtf8));
    assert_eq!(
        Request::decode(&[0, 3]),
        Ok(Request::Exists { db: String::new() })
    );
}

#[test]
fn what_follows_fixed_fields_is_ignored() {
    assert_eq!(Request::decode(&[0, 7, 1, 2, 3]), Ok(Request::Size));
    assert_eq!(Request::decode(&[0, 10, 0, 0, 0, 42, 9]), Ok(Request::GetWalIndex { region: 42 }));
    assert_eq!(Response::decode(&[0, 3, 2, 0]), Ok(Response::Exists(true)));
    assert_eq!(Response::decode(&[0, 14, 0]), Ok(Response::Moved(false)));
    assert_eq!(Response::decode(&[0, 14]), Err(DecodeError::UnexpectedEof));
}

#[test]
fn frames_count_their_own_length() {
    assert_eq!(encode_frame(&[]), Some(vec![0, 0, 0, 4]));
    assert_eq!(encode_frame(&[7, 8]), Some(vec![0, 0, 0, 6, 7, 8]));
    let body = vec![1u8; 300];
    let frame = encode_frame(&body).unwrap();
    assert_eq!(&frame[..4], &[0, 0, 1, 48]);
    assert_eq!(&frame[4..], &body[..]);
    assert_eq!(frame_response(&Response::Size(1)), Some(vec![0, 0, 0, 14, 0, 7, 0, 0, 0, 0, 0, 0, 0, 1]));
}

#[test]
fn a_frame_arrives_in_pieces() {
    let mut reader = FrameReader::new();
    assert_eq!(reader.window(), 8192);
    assert_eq!(reader.feed(&[0, 0]), Ok(Received::More));
    assert_eq!(reader.window(), 8190);
    assert_eq!(reader.feed(&[0, 7, 0]), Ok(Received::More));
    assert_eq!(reader.feed(&[13]), Ok(Received::More));
    assert_eq!(reader.feed(&[5]), Ok(Received::Frame(vec![0, 13, 5])));
    assert_eq!(reader.window(), 8192);
    assert_eq!(reader.feed(&[]), Ok(Received::End));
}

#[test]
fn the_stream_may_not_end_within_a_frame() {
    let mut reader = FrameReader::new();
    assert_eq!(reader.feed(&[0]), Ok(Received::More));
    assert_eq!(reader.feed(&[]), Err(ReceiveError::Closed));
    assert_eq!(reader.feed(&[]), Ok(Received::End));
}

#[test]
fn excess_data_is_refused() {
    let mut reader = FrameReader::new();
    assert_eq!(
        reader.feed(&[0, 0, 0, 6, 0, 7, 0]),
        Err(ReceiveError::Excess { declared: 6, received: 7 })
    );
    assert_eq!(
        reader.feed(&[0, 0, 0, 3]),
        Err(ReceiveError::Excess { declared: 3, received: 4 })
    );
    assert_eq!(reader.feed(&[0, 0, 0, 4]), Ok(Received::Frame(Vec::new())));
}

#[test]
fn the_reader_grows_with_the_frame() {
    let body = vec![3u8; 20000];
    let frame = encode_frame(&body).unwrap();
    let mut reader = FrameReader::new();
    assert_eq!(reader.feed(&frame[..8192]), Ok(Received::More));
    assert_eq!(reader.window(), 20004 - 8192);
    assert_eq!(reader.feed(&frame[8192..20000]), Ok(Received::More));
    assert_eq!(reader.window(), 4);
    assert_eq!(reader.feed(&frame[20000..]), Ok(Received::Frame(body)));
    assert_eq!(reader.window(), 8192);
}
