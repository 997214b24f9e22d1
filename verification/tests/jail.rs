use std::path::PathBuf;

use website::jail::{deny_text_response, jail_file_headers, teapot_response};
use website::state::{AppState, ROTATION_NANOS};

#[test]
fn canned_answers() {
    let t = teapot_response();
    assert_eq!(t.status, 418);
    assert_eq!(t.body, "I'm a Teapot!");
    let d = deny_text_response();
    assert_eq!(d.status, 200);
    assert_eq!(d.body, "rm -rf --no-preserve root /\n\n");
}

#[test]
fn jail_file_header_fixes() {
    let h = jail_file_headers(Some(b"text/plain"));
    assert_eq!(h.content_type, Some("text/plain; charset=utf-8"));
    assert_eq!(h.cache_control, "no-store");
    assert_eq!(h.content_disposition, "inline");
    assert_eq!(jail_file_headers(Some(b"video/mp4")).content_type, None);
    assert_eq!(jail_file_headers(Some(b"text/plain ")).content_type, None);
    assert_eq!(jail_file_headers(None).content_type, None);
}

#[test]
fn law_header_fix_is_idempotent() {
    let once = jail_file_headers(Some(b"text/plain")).content_type.unwrap();
    assert_eq!(jail_file_headers(Some(once.as_bytes())).content_type, None);
}

fn files() -> Vec<PathBuf> {
    vec![PathBuf::from("static/jail/a.mp4"), PathBuf::from("static/jail/b.txt")]
}

#[test]
fn no_files_no_jail_file() {
    let mut s = AppState::new(Vec::new());
    assert_eq!(s.get_jail_file(), None);
    assert_eq!(s.jail_file_at(ROTATION_NANOS * 5, 0), None);
}

#[test]
fn jail_file_is_kept_within_the_period() {
    let mut s = AppState::with_start(files(), 1);
    assert_eq!(s.jail_file_at(0, 0), Some(&files()[1]));
    assert_eq!(s.jail_file_at(ROTATION_NANOS, 0), Some(&files()[1]));
}

#[test]
fn jail_file_changes_after_the_period() {
    let mut s = AppState::with_start(files(), 1);
    assert_eq!(s.jail_file_at(ROTATION_NANOS + 1, 0), Some(&files()[0]));
    // the change restarts the period
    assert_eq!(s.jail_file_at(2 * ROTATION_NANOS + 1, 1), Some(&files()[0]));
    assert_eq!(s.jail_file_at(2 * ROTATION_NANOS + 2, 1), Some(&files()[1]));
}

#[test]
fn get_jail_file_gives_a_file() {
    let mut s = AppState::new(files());
    for _ in 0..10 {
        let f = s.get_jail_file().cloned();
        assert!(f.is_some());
        assert!(files().contains(&f.unwrap()));
    }
}

#[test]
fn law_get_jail_file_keeps_file_within_period() {
    // a fresh state was changed at time 0; calls made right away are within the period
    let mut s = AppState::with_start(files(), 1);
    for _ in 0..5 {
        assert_eq!(s.get_jail_file(), Some(&files()[1]));
    }
}

#[test]
fn empty_state_is_left_alone() {
    let mut s = AppState::with_start(Vec::new(), 0);
    assert_eq!(s.get_jail_file(), None);
    assert_eq!(s.jail_file_at(0, 0), None);
}
