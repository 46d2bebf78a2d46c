use std::path::{Path, PathBuf};

use anyhow::Context;

use sendme_rpc::{
    list_stream, provide_reply, render_message, version_reply, ContentHash, ListResponse,
    ProvideResponse, RpcError, SendmeResponse, StreamItem, VersionWatch,
};

fn entry(path: &str, b: u8, size: u64) -> ListResponse {
    ListResponse { path: PathBuf::from(path), hash: ContentHash::from_bytes([b; 32]), size }
}

#[test]
fn provide_success_carries_the_hash() {
    let h = ContentHash::from_bytes([42; 32]);
    match provide_reply(Ok(h)) {
        SendmeResponse::Provide(Ok(ProvideResponse { hash })) => assert_eq!(hash, h),
        other => panic!("unexpected reply {:?}", other),
    }
}

#[test]
fn provide_failure_renders_its_cause() {
    let cause = std::io::Error::new(std::io::ErrorKind::NotFound, "No such file or directory");
    let failure = Err::<(), _>(cause).context("failed to read /no/such/path").unwrap_err();
    match provide_reply(Err(failure)) {
        SendmeResponse::Provide(Err(e)) => {
            assert_eq!(e.message(), "failed to read /no/such/path");
            let text = e.to_string();
            assert!(!text.is_empty());
            assert_eq!(text, "RpcError(failed to read /no/such/path)");
            assert!(text.contains("/no/such/path"));
        }
        other => panic!("unexpected reply {:?}", other),
    }
}

#[test]
fn rendered_error_text_is_exact() {
    assert_eq!(render_message("boom").as_str(), "RpcError(boom)");
    assert_eq!(render_message("").as_str(), "RpcError()");
}

#[test]
fn list_yields_each_item_then_end() {
    let shared = vec![entry("a.txt", 1, 10), entry("b/c.bin", 2, 0), entry("d", 3, u64::MAX)];
    let s = list_stream(shared.clone());
    assert_eq!(s.len(), 4);
    for (i, e) in shared.iter().enumerate() {
        assert_eq!(s[i], StreamItem::Item(e.clone()));
    }
    assert_eq!(s[3], StreamItem::End);
    let mut paths: Vec<&Path> = s
        .iter()
        .filter_map(|x| match x {
            StreamItem::Item(e) => Some(e.path.as_path()),
            StreamItem::End => None,
        })
        .collect();
    paths.sort();
    paths.dedup();
    assert_eq!(paths.len(), 3);
}

#[test]
fn list_of_nothing_still_ends() {
    let s = list_stream(Vec::new());
    assert_eq!(s, vec![StreamItem::End]);
}

#[test]
fn watch_is_silent_until_the_version_changes() {
    let mut w = VersionWatch::new("1.0".to_string());
    assert!(w.observe("1.0".to_string()).is_none());
    assert!(w.observe("1.0".to_string()).is_none());
    let item = w.observe("1.1".to_string()).unwrap();
    assert_eq!(item.version, "1.1");
    assert_eq!(w.last_seen(), "1.1");
    assert!(w.observe("1.1".to_string()).is_none());
}

#[test]
fn watch_reports_each_change_in_order() {
    let mut w = VersionWatch::new("a".to_string());
    let seen: Vec<String> =
        ["a", "b", "b", "c", "a", "a"].iter().map(|s| s.to_string()).collect();
    let out: Vec<String> = w.observe_all(seen).into_iter().map(|r| r.version).collect();
    assert_eq!(out, vec!["b".to_string(), "c".to_string(), "a".to_string()]);
    assert_eq!(w.last_seen(), "a");
    assert!(w.observe_all(Vec::new()).is_empty());
}

#[test]
fn version_returns_the_configured_string() {
    let configured = "sendme 0.3.0".to_string();
    match version_reply(&configured) {
        SendmeResponse::Version(v) => assert_eq!(v.version, configured),
        other => panic!("unexpected reply {:?}", other),
    }
}

#[test]
fn two_version_calls_resolve_independently() {
    let first = "1.0".to_string();
    let second = "2.0".to_string();
    let b = version_reply(&second);
    let a = version_reply(&first);
    match (a, b) {
        (SendmeResponse::Version(a), SendmeResponse::Version(b)) => {
            assert_eq!(a.version, "1.0");
            assert_eq!(b.version, "2.0");
        }
        _ => panic!("a version call gave another reply"),
    }
}

#[test]
fn error_renders_as_its_debug_form_every_time() {
    let e = RpcError::from(anyhow::Error::msg("disk full"));
    assert_eq!(e.message(), "disk full");
    assert_eq!(e.to_string(), "RpcError(disk full)");
    assert_eq!(e.to_string(), e.to_string());
    let again = RpcError::from(anyhow::Error::msg("disk full"));
    assert_eq!(again.to_string(), e.to_string());
}

#[test]
fn error_keeps_its_capture_through_a_peer() {
    let e = RpcError::from(anyhow::Error::msg("unknown discriminant 9"));
    let received = RpcError::from_captured(e.into_captured());
    assert_eq!(received.message(), "unknown discriminant 9");
    assert_eq!(received.to_string(), "RpcError(unknown discriminant 9)");
}

#[test]
fn rebuilt_error_renders_like_the_first() {
    let cause = std::io::Error::new(std::io::ErrorKind::PermissionDenied, "permission denied");
    let e = RpcError::from(anyhow::Error::from(cause));
    let first = e.to_string();
    let rebuilt = RpcError::from_captured(e.into_captured());
    assert_eq!(rebuilt.to_string(), first);
    assert_eq!(first, "RpcError(permission denied)");
}
