use image_relay::config::UploadConfig;
use image_relay::error::UploadError;
use image_relay::limiter::{Admission, Limiter};
use image_relay::pipeline::{Action, Event, Phase, Request};
use image_relay::staging::{join_staged, stage_target, staged_path, Stager};
use image_relay::uploader::{pick_largest, public_url};

const ID: &str = "67e55044-10b1-426f-9247-bb680e5fe0c8";

fn is_id_char(c: char) -> bool {
    c.is_ascii_digit() || ('a'..='f').contains(&c) || c == '-'
}

fn expect(a: Option<Action>) -> Action {
    match a {
        Some(a) => a,
        None => panic!("event did not fit the phase"),
    }
}

#[test]
fn join_staged_builds_path() {
    assert_eq!(join_staged("/srv/stage", ID, "cat.png"), format!("/srv/stage/{}_cat.png", ID));
}

#[test]
fn staged_path_sanitizes_client_name() {
    assert_eq!(staged_path("/srv/stage", ID, "a/b\\c:d.png"), format!("/srv/stage/{}_abcd.png", ID));
}

#[test]
fn traversal_name_stays_in_staging_dir() {
    let p = staged_path("/srv/stage", ID, "../../etc/passwd");
    assert_eq!(p, format!("/srv/stage/{}_....etcpasswd", ID));
    let f = stage_target("/srv/stage", "../../etc/passwd");
    assert_eq!(f.name, "....etcpasswd");
    let leaf = f.path.strip_prefix("/srv/stage/").unwrap();
    assert!(!leaf.contains('/'));
    assert!(!leaf.contains('\\'));
    assert_eq!(leaf, format!("{}_{}", f.id, f.name));
}

#[test]
fn stage_target_uses_fresh_ids() {
    let a = stage_target("/srv/stage", "cat.png");
    let b = stage_target("/srv/stage", "cat.png");
    assert_eq!(a.id.len(), 36);
    assert!(a.id.chars().all(is_id_char));
    assert_ne!(a.id, b.id);
    assert_ne!(a.path, b.path);
    assert_eq!(a.path, format!("/srv/stage/{}_cat.png", a.id));
}

#[test]
fn empty_body_is_empty_upload() {
    let s = Stager::new("/srv/stage".to_string());
    assert_eq!(s.finish().err(), Some(UploadError::EmptyUpload));
    let mut r = Request::new();
    match expect(r.step(Event::Staged(Err(UploadError::EmptyUpload)))) {
        Action::Respond(res) => assert_eq!(res, Err(UploadError::EmptyUpload)),
        other => panic!("unexpected action {:?}", other),
    }
    assert_eq!(r.phase(), Phase::Done);
}

#[test]
fn parts_without_name_are_skipped() {
    let mut s = Stager::new("/srv/stage".to_string());
    assert_eq!(s.on_part(None), None);
    assert_eq!(s.finish().err(), Some(UploadError::EmptyUpload));
}

#[test]
fn only_first_named_part_is_staged() {
    let mut s = Stager::new("/srv/stage".to_string());
    assert_eq!(s.on_part(None), None);
    let p = s.on_part(Some("first.png")).unwrap();
    assert!(p.starts_with("/srv/stage/"));
    assert!(p.ends_with("_first.png"));
    assert_eq!(s.on_part(Some("second.png")), None);
    let f = s.finish().unwrap();
    assert_eq!(f.path, p);
    assert_eq!(f.name, "first.png");
}

#[test]
fn write_failure_removes_partial_file() {
    let mut s = Stager::new("/srv/stage".to_string());
    assert_eq!(s.on_write_failed(), None);
    let p = s.on_part(Some("x.png")).unwrap();
    assert_eq!(s.on_write_failed(), Some(p));
    assert_eq!(s.on_write_failed(), None);
    assert_eq!(s.finish().err(), Some(UploadError::StagingIo));
}

#[test]
fn largest_variant_is_last() {
    let v = Some(vec!["small-ref".to_string(), "large-ref".to_string()]);
    assert_eq!(pick_largest(&v), Ok("large-ref".to_string()));
}

#[test]
fn single_variant_is_chosen() {
    assert_eq!(pick_largest(&Some(vec!["only".to_string()])), Ok("only".to_string()));
}

#[test]
fn missing_media_is_reported() {
    assert_eq!(pick_largest(&None), Err(UploadError::NoMediaInResponse));
}

#[test]
fn empty_media_set_is_reported() {
    assert_eq!(pick_largest(&Some(Vec::new())), Err(UploadError::EmptyMediaSet));
}

#[test]
fn public_url_has_platform_form() {
    assert_eq!(
        public_url("123:ABC", "photos/file_7.jpg"),
        "https://api.telegram.org/file/bot123:ABC/photos/file_7.jpg"
    );
}

#[test]
fn echoed_reference_round_trips_into_url() {
    // A platform stand-in that resolves every reference to itself.
    let variants = Some(vec!["ref-small".to_string(), "ref-42".to_string()]);
    let reference = pick_largest(&variants).unwrap();
    let resolved = reference.clone();
    let url = public_url("TOKEN", &resolved);
    assert!(url.ends_with("/ref-42"));
    assert_eq!(url, public_url("TOKEN", &resolved));
    assert_ne!(url, public_url("TOKEN", "ref-small"));
}

fn run_forward(result: Result<String, UploadError>, deleted_ok: bool) -> (Result<String, UploadError>, usize) {
    let mut r = Request::new();
    let mut deletes = 0usize;
    let path = "/srv/stage/x_cat.png".to_string();
    assert!(matches!(expect(r.step(Event::Staged(Ok(path.clone())))), Action::Acquire));
    match expect(r.step(Event::Admitted)) {
        Action::Forward(p) => assert_eq!(p, path),
        other => panic!("unexpected action {:?}", other),
    }
    assert!(matches!(expect(r.step(Event::Forwarded(result))), Action::Release));
    match expect(r.step(Event::Released)) {
        Action::Delete(p) => {
            assert_eq!(p, path);
            deletes += 1;
        }
        other => panic!("unexpected action {:?}", other),
    }
    let out = match expect(r.step(Event::Deleted(deleted_ok))) {
        Action::Respond(res) => res,
        other => panic!("unexpected action {:?}", other),
    };
    assert_eq!(r.phase(), Phase::Done);
    (out, deletes)
}

#[test]
fn successful_request_deletes_its_file_once() {
    let (out, deletes) = run_forward(Ok("https://x/y".to_string()), true);
    assert_eq!(out, Ok("https://x/y".to_string()));
    assert_eq!(deletes, 1);
}

#[test]
fn no_media_response_still_deletes_file() {
    let (out, deletes) = run_forward(Err(UploadError::NoMediaInResponse), true);
    assert_eq!(out, Err(UploadError::NoMediaInResponse));
    assert_eq!(deletes, 1);
}

#[test]
fn failed_delete_keeps_success() {
    let (out, _) = run_forward(Ok("https://x/y".to_string()), false);
    assert_eq!(out, Ok("https://x/y".to_string()));
}

#[test]
fn failed_delete_keeps_upstream_error() {
    let (out, _) = run_forward(Err(UploadError::Upstream), false);
    assert_eq!(out, Err(UploadError::Upstream));
}

#[test]
fn out_of_order_event_is_ignored() {
    let mut r = Request::new();
    assert!(r.step(Event::Admitted).is_none());
    assert!(r.step(Event::Deleted(true)).is_none());
    assert_eq!(r.phase(), Phase::Staging);
    assert!(r.step(Event::Staged(Ok("p".to_string()))).is_some());
    assert!(r.step(Event::Staged(Ok("q".to_string()))).is_none());
    assert_eq!(r.phase(), Phase::Admission);
}

#[test]
fn twice_limit_requests_all_admitted_within_limit() {
    let k = 3usize;
    let mut l = Limiter::new(k);
    let mut running: Vec<u64> = Vec::new();
    let mut waiting: Vec<u64> = Vec::new();
    let mut done: Vec<u64> = Vec::new();
    let mut peak = 0usize;
    for _ in 0..2 * k {
        match l.acquire() {
            Admission::Admitted(t) => running.push(t),
            Admission::Queued(t) => waiting.push(t),
        }
        peak = peak.max(l.in_use());
    }
    assert_eq!(running, vec![0, 1, 2]);
    assert_eq!(waiting, vec![3, 4, 5]);
    while let Some(t) = running.pop() {
        done.push(t);
        if let Some(next) = l.release() {
            assert_eq!(next, waiting.remove(0));
            running.push(next);
        }
        assert!(running.len() <= k);
        peak = peak.max(l.in_use());
    }
    assert_eq!(done.len(), 2 * k);
    assert!(peak <= k);
    assert_eq!(l.in_use(), 0);
    assert_eq!(l.waiters(), 0);
}

#[test]
fn release_hands_slot_to_oldest_waiter() {
    let mut l = Limiter::new(1);
    assert_eq!(l.acquire(), Admission::Admitted(0));
    assert_eq!(l.acquire(), Admission::Queued(1));
    assert_eq!(l.acquire(), Admission::Queued(2));
    assert_eq!(l.release(), Some(1));
    assert_eq!(l.in_use(), 1);
    assert_eq!(l.release(), Some(2));
    assert_eq!(l.release(), None);
    assert_eq!(l.in_use(), 0);
    assert_eq!(l.capacity(), 1);
}

#[test]
fn withdrawn_waiter_is_skipped() {
    let mut l = Limiter::new(1);
    assert_eq!(l.acquire(), Admission::Admitted(0));
    assert_eq!(l.acquire(), Admission::Queued(1));
    assert_eq!(l.acquire(), Admission::Queued(2));
    assert!(l.withdraw(1));
    assert!(!l.withdraw(1));
    assert!(!l.withdraw(0));
    assert_eq!(l.waiters(), 1);
    assert_eq!(l.release(), Some(2));
}

#[test]
fn zero_slots_queue_everyone() {
    let mut l = Limiter::new(0);
    assert!(l.can_issue());
    assert_eq!(l.acquire(), Admission::Queued(0));
    assert_eq!(l.in_use(), 0);
}

#[test]
fn bind_address_joins_host_and_port() {
    let c = UploadConfig {
        telegram_bot_token: "SECRET".to_string(),
        chat_id: -100,
        max_concurrent_uploads: 4,
        host: "127.0.0.1".to_string(),
        port: "8080".to_string(),
    };
    assert_eq!(c.bind_address(), "127.0.0.1:8080");
}

#[test]
fn errors_have_distinct_descriptions() {
    let all = [
        UploadError::EmptyUpload,
        UploadError::StagingIo,
        UploadError::NoMediaInResponse,
        UploadError::EmptyMediaSet,
        UploadError::Upstream,
    ];
    for (i, a) in all.iter().enumerate() {
        for b in all.iter().skip(i + 1) {
            assert_ne!(a.describe(), b.describe());
        }
    }
    assert_eq!(UploadError::EmptyUpload.describe(), "no file in the upload");
}
