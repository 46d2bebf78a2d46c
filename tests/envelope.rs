use std::path::PathBuf;

use sendme_rpc::{
    ContentHash, InteractionPattern, ListRequest, ListResponse, Operation, ProtocolError,
    ProvideRequest, ProvideResponse, RpcError, SendmeRequest, SendmeResponse, SendmeService,
    VersionRequest, VersionResponse, WatchRequest, WatchResponse, OPERATION_COUNT,
};

fn hash_of(b: u8) -> ContentHash {
    ContentHash::from_bytes([b; 32])
}

#[test]
fn request_round_trip_every_type() {
    let e = SendmeRequest::from(WatchRequest);
    assert_eq!(WatchRequest::try_from(e), Ok(WatchRequest));
    let e = SendmeRequest::from(VersionRequest);
    assert_eq!(VersionRequest::try_from(e), Ok(VersionRequest));
    let e = SendmeRequest::from(ListRequest);
    assert_eq!(ListRequest::try_from(e), Ok(ListRequest));
    let p = ProvideRequest { path: PathBuf::from("/tmp/some file.txt") };
    let e = SendmeRequest::from(p.clone());
    assert_eq!(e, SendmeRequest::Provide(p.clone()));
    assert_eq!(ProvideRequest::try_from(e), Ok(p));
}

#[test]
fn response_round_trip_every_type() {
    let w = WatchResponse { version: "0.2.1".to_string() };
    assert_eq!(WatchResponse::try_from(SendmeResponse::from(w.clone())), Ok(w));
    let v = VersionResponse { version: "0.2.1".to_string() };
    assert_eq!(VersionResponse::try_from(SendmeResponse::from(v.clone())), Ok(v));
    let l = ListResponse { path: PathBuf::from("a/b"), hash: hash_of(7), size: 1234 };
    assert_eq!(ListResponse::try_from(SendmeResponse::from(l.clone())), Ok(l));
    let ok: Result<ProvideResponse, RpcError> = Ok(ProvideResponse { hash: hash_of(9) });
    match <Result<ProvideResponse, RpcError>>::try_from(SendmeResponse::from(ok)) {
        Ok(Ok(p)) => assert_eq!(p.hash, hash_of(9)),
        _ => panic!("provide response did not survive the envelope"),
    }
}

#[test]
fn provide_error_survives_response_envelope() {
    let err: Result<ProvideResponse, RpcError> =
        Err(RpcError::from(anyhow::Error::msg("permission denied")));
    match <Result<ProvideResponse, RpcError>>::try_from(SendmeResponse::from(err)) {
        Ok(Err(e)) => assert_eq!(e.message(), "permission denied"),
        _ => panic!("provide error did not survive the envelope"),
    }
}

#[test]
fn wrong_request_type_is_protocol_mismatch() {
    let e = SendmeRequest::from(WatchRequest);
    assert_eq!(
        VersionRequest::try_from(e.clone()),
        Err(ProtocolError::UnexpectedVariant { expected: Operation::Version, found: Operation::Watch })
    );
    assert_eq!(
        ListRequest::try_from(e.clone()),
        Err(ProtocolError::UnexpectedVariant { expected: Operation::List, found: Operation::Watch })
    );
    assert_eq!(
        ProvideRequest::try_from(e),
        Err(ProtocolError::UnexpectedVariant { expected: Operation::Provide, found: Operation::Watch })
    );
    let p = SendmeRequest::from(ProvideRequest { path: PathBuf::from("x") });
    assert_eq!(
        WatchRequest::try_from(p),
        Err(ProtocolError::UnexpectedVariant { expected: Operation::Watch, found: Operation::Provide })
    );
}

#[test]
fn wrong_response_type_is_protocol_mismatch() {
    let v = SendmeResponse::from(VersionResponse { version: "1".to_string() });
    assert_eq!(
        WatchResponse::try_from(v),
        Err(ProtocolError::UnexpectedVariant { expected: Operation::Watch, found: Operation::Version })
    );
    let l = SendmeResponse::from(ListResponse { path: PathBuf::from("p"), hash: hash_of(1), size: 0 });
    match <Result<ProvideResponse, RpcError>>::try_from(l) {
        Err(e) => assert_eq!(
            e,
            ProtocolError::UnexpectedVariant { expected: Operation::Provide, found: Operation::List }
        ),
        Ok(_) => panic!("a list response was taken for a provide response"),
    }
}

#[test]
fn discriminants_decode_and_unknown_ones_fail() {
    let ops = [Operation::Watch, Operation::Version, Operation::List, Operation::Provide];
    for (i, op) in ops.iter().enumerate() {
        assert_eq!(op.discriminant(), i as u32);
        assert_eq!(Operation::from_discriminant(i as u32), Ok(*op));
    }
    assert_eq!(
        Operation::from_discriminant(OPERATION_COUNT),
        Err(ProtocolError::UnknownDiscriminant { value: 4 })
    );
    assert_eq!(
        Operation::from_discriminant(u32::MAX),
        Err(ProtocolError::UnknownDiscriminant { value: u32::MAX })
    );
    // the same tag decodes the same way every time
    assert_eq!(Operation::from_discriminant(17), Operation::from_discriminant(17));
}

#[test]
fn patterns_are_bound_per_operation() {
    assert_eq!(SendmeRequest::from(ListRequest).pattern(), InteractionPattern::ServerStreaming);
    assert_eq!(SendmeRequest::from(WatchRequest).pattern(), InteractionPattern::ServerStreaming);
    assert_eq!(SendmeRequest::from(VersionRequest).pattern(), InteractionPattern::Unary);
    let p = SendmeRequest::from(ProvideRequest { path: PathBuf::from("f") });
    assert_eq!(p.pattern(), InteractionPattern::Unary);
    assert_eq!(p.operation(), Operation::Provide);
}

#[test]
fn responses_answer_only_their_own_request() {
    let req = SendmeRequest::from(VersionRequest);
    let good = SendmeResponse::from(VersionResponse { version: "1".to_string() });
    let bad = SendmeResponse::from(WatchResponse { version: "1".to_string() });
    assert!(SendmeService::answers(&req, &good));
    assert!(!SendmeService::answers(&req, &bad));
    assert_eq!(good.operation(), Operation::Version);
}

#[test]
fn content_hash_keeps_its_bytes() {
    let mut b = [0u8; 32];
    b[0] = 1;
    b[31] = 255;
    let h = ContentHash::from_bytes(b);
    assert_eq!(h.as_bytes(), &b);
    assert_ne!(h, hash_of(0));
}
