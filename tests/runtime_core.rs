use rquickjs_core::error::Error;
use rquickjs_core::inner::Inner;
use rquickjs_core::job::{job_outcome, job_pending, JobOutcome};
use rquickjs_core::opaque::Opaque;

type State = Inner<u32, &'static str>;

#[test]
fn null_handle_is_an_allocation_error() {
    let r = State::new_raw(0, Some(9));
    assert!(matches!(r, Err(Error::Allocation)));
}

#[test]
fn non_null_handle_is_taken() {
    let inner = State::new_raw(0x7f00_1000, Some(9)).unwrap();
    assert_eq!(inner.rt(), 0x7f00_1000);
    assert!(inner.info().is_none());
}

#[test]
fn label_is_stored_with_terminator() {
    let mut inner = State::new_raw(0x10, None).unwrap();
    assert_eq!(inner.set_info(b"test runtime".to_vec()), Ok(()));
    assert_eq!(inner.info().unwrap().as_slice(), b"test runtime\0");
}

#[test]
fn label_with_nul_is_refused() {
    let mut inner = State::new_raw(0x10, None).unwrap();
    inner.set_info(b"first".to_vec()).unwrap();
    let r = inner.set_info(b"ab\0c\0".to_vec());
    assert_eq!(r, Err(Error::Encoding { position: 2 }));
    assert_eq!(inner.info().unwrap().as_slice(), b"first\0");
}

#[test]
fn label_with_leading_nul_is_refused() {
    let mut inner = State::new_raw(0x10, None).unwrap();
    assert_eq!(inner.set_info(vec![0]), Err(Error::Encoding { position: 0 }));
    assert!(inner.info().is_none());
}

#[test]
fn empty_label_is_accepted() {
    let mut inner = State::new_raw(0x10, None).unwrap();
    assert_eq!(inner.set_info(Vec::new()), Ok(()));
    assert_eq!(inner.info().unwrap().as_slice(), b"\0");
}

#[test]
fn last_label_wins() {
    let mut inner = State::new_raw(0x10, None).unwrap();
    inner.set_info(b"one".to_vec()).unwrap();
    inner.set_info(b"two".to_vec()).unwrap();
    assert_eq!(inner.info().unwrap().as_slice(), b"two\0");
    inner.set_info(b"two".to_vec()).unwrap();
    assert_eq!(inner.info().unwrap().as_slice(), b"two\0");
}

#[test]
fn loader_is_replaced() {
    let mut inner = State::new_raw(0x10, Some(3)).unwrap();
    inner.set_loader("first");
    inner.set_loader("second");
    let (rt, kept) = inner.release();
    assert_eq!(rt, 0x10);
    assert_eq!(kept.loader, Some("second"));
    assert_eq!(kept.allocator, Some(3));
    assert!(kept.info.is_none());
}

#[test]
fn release_hands_back_label() {
    let mut inner = State::new_raw(0x20, None).unwrap();
    inner.set_info(b"x".to_vec()).unwrap();
    let (rt, kept) = inner.release();
    assert_eq!(rt, 0x20);
    assert_eq!(kept.info, Some(b"x\0".to_vec()));
    assert!(kept.allocator.is_none());
    assert!(kept.loader.is_none());
}

#[test]
fn pending_flag_decoding() {
    assert!(!job_pending(0));
    assert!(job_pending(1));
    assert!(job_pending(-3));
}

#[test]
fn job_status_decoding() {
    assert_eq!(job_outcome(0), JobOutcome::Empty);
    assert_eq!(job_outcome(1), JobOutcome::Ran);
    assert_eq!(job_outcome(-1), JobOutcome::Threw);
    assert_eq!(job_outcome(2), JobOutcome::Threw);
}

#[test]
fn job_results() {
    assert_eq!(JobOutcome::Empty.completed(), Some(false));
    assert_eq!(JobOutcome::Ran.completed(), Some(true));
    assert_eq!(JobOutcome::Threw.completed(), None);
}

#[test]
fn draining_codes_of_three_jobs() {
    let codes = [1, 1, 1, 0];
    let results: Vec<Option<bool>> = codes.iter().map(|c| job_outcome(*c).completed()).collect();
    assert_eq!(results, vec![Some(true), Some(true), Some(true), Some(false)]);
}

#[test]
fn fresh_record_is_empty() {
    let rec: Opaque<u8, String, ()> = Opaque::new(4);
    assert_eq!(rec.runtime, 4);
    assert!(rec.panic.is_none());
    assert!(rec.spawner.is_none());
    assert!(!rec.is_registered(1));
}

#[test]
fn panic_is_cleared_on_retrieval() {
    let mut rec: Opaque<u8, String, ()> = Opaque::new(4);
    assert_eq!(rec.take_panic(), None);
    rec.capture_panic("boom".to_string());
    rec.capture_panic("later".to_string());
    assert_eq!(rec.take_panic(), Some("later".to_string()));
    assert_eq!(rec.take_panic(), None);
}

#[test]
fn registry_tracks_keys_uniquely() {
    let mut rec: Opaque<u8, String, ()> = Opaque::new(4);
    assert!(rec.register(17));
    assert!(!rec.register(17));
    assert!(rec.register(u64::MAX));
    assert!(rec.is_registered(17));
    assert!(rec.is_registered(u64::MAX));
    assert!(!rec.is_registered(18));
    assert!(rec.unregister(17));
    assert!(!rec.unregister(17));
    assert!(!rec.is_registered(17));
    assert!(rec.is_registered(u64::MAX));
}
