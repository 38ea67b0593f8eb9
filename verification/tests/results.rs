use qrforge::detection::{Detection, Point, QrFormat};
use qrforge::payload::SafeHttpUrl;
use qrforge::ports::{BrowserPort, ClipboardPort, PortError};
use qrforge::results::{
    classify_results, ResultActionError, ResultActionKind, ResultActionRequest, ResultKind,
    ResultService, PREVIEW_CHARACTER_LIMIT,
};
use std::sync::{Arc, Mutex};

#[derive(Default)]
struct Calls {
    opened: Mutex<Vec<String>>,
    copied: Mutex<Vec<String>>,
}

impl BrowserPort for Calls {
    fn open(&self, url: &SafeHttpUrl) -> Result<(), PortError> {
        self.opened
            .lock()
            .expect("browser calls")
            .push(url.as_str().to_owned());
        Ok(())
    }
}

impl ClipboardPort for Calls {
    fn set_text(&self, text: &str) -> Result<(), PortError> {
        self.copied
            .lock()
            .expect("clipboard calls")
            .push(text.to_owned());
        Ok(())
    }
}

fn detection(value: &[u8]) -> Detection {
    Detection::new(value.to_vec(), QrFormat::QrCode, [Point { x: 0, y: 0 }; 4])
}

#[test]
fn preserves_order_and_classifies_each_result() {
    let results = classify_results(&[
        detection(b"http://example.com"),
        detection(b"plain text"),
        detection(b"javascript:alert(1)"),
        detection(b"https://[invalid"),
    ]);
    assert_eq!(
        results
            .iter()
            .map(|item| item.view.kind)
            .collect::<Vec<_>>(),
        [
            ResultKind::HttpUrl,
            ResultKind::PlainText,
            ResultKind::BlockedScheme,
            ResultKind::MalformedUrl,
        ]
    );
    assert_eq!(
        results
            .iter()
            .map(|item| item.view.index)
            .collect::<Vec<_>>(),
        [0, 1, 2, 3]
    );
}

#[test]
fn opens_only_safe_urls_and_copies_in_original_order() {
    let calls = Arc::new(Calls::default());
    let mut service = ResultService::new(calls.clone(), calls.clone());
    let session = service.publish(classify_results(&[
        detection(b"https://example.com/one"),
        detection(b"plain text"),
        detection(b"file:///C:/blocked"),
    ]));

    assert!(matches!(
        service.perform(&ResultActionRequest {
            session_id: session.session_id,
            action: ResultActionKind::Open,
            index: Some(2),
        }),
        Err(ResultActionError::NotOpenable)
    ));
    service
        .perform(&ResultActionRequest {
            session_id: session.session_id,
            action: ResultActionKind::CopyAll,
            index: None,
        })
        .expect("copy all");
    assert_eq!(
        calls.copied.lock().expect("clipboard calls").last(),
        Some(&"https://example.com/one\nplain text\nfile:///C:/blocked".to_owned())
    );
    service
        .perform(&ResultActionRequest {
            session_id: session.session_id,
            action: ResultActionKind::Open,
            index: Some(0),
        })
        .expect("safe open");
}

#[test]
fn long_unicode_preview_is_bounded_by_characters() {
    let text = "界".repeat(PREVIEW_CHARACTER_LIMIT + 20);
    let results = classify_results(&[detection(text.as_bytes())]);
    assert_eq!(
        results[0].view.preview.chars().count(),
        PREVIEW_CHARACTER_LIMIT + 1
    );
    assert!(results[0].view.preview.ends_with('…'));
}

#[test]
fn closing_actions_clear_sessions_and_stale_commands_are_rejected() {
    let calls = Arc::new(Calls::default());
    let mut service = ResultService::new(calls.clone(), calls);
    let first = service.publish(classify_results(&[detection(b"https://example.com")]));
    service
        .perform(&ResultActionRequest {
            session_id: first.session_id,
            action: ResultActionKind::Open,
            index: Some(0),
        })
        .expect("approved link opens");
    assert!(service.snapshot().is_none());
    assert!(matches!(
        service.perform(&ResultActionRequest {
            session_id: first.session_id,
            action: ResultActionKind::Dismiss,
            index: None,
        }),
        Err(ResultActionError::StaleSession)
    ));
}

#[test]
fn binary_and_unsafe_items_never_expose_or_copy_raw_content() {
    let results = classify_results(&[
        detection(&[0xff, 0xfe, 0xfd]),
        detection(b"line one\nline two"),
    ]);
    assert_eq!(results[0].view.kind, ResultKind::Binary);
    assert!(!results[0].view.can_copy);
    assert!(!results[0].view.preview.contains('\u{fffd}'));
    assert_eq!(results[1].view.kind, ResultKind::UnsafeText);
    assert!(!results[1].view.can_copy);
    assert!(!results[1].view.preview.contains("line one"));
}

#[test]
fn action_shape_validation_rejects_extra_or_missing_indexes() {
    let calls = Arc::new(Calls::default());
    let mut service = ResultService::new(calls.clone(), calls);
    let session = service.publish(classify_results(&[detection(b"plain text")]));
    for request in [
        ResultActionRequest {
            session_id: session.session_id,
            action: ResultActionKind::Copy,
            index: None,
        },
        ResultActionRequest {
            session_id: session.session_id,
            action: ResultActionKind::CopyAll,
            index: Some(0),
        },
    ] {
        assert!(matches!(
            service.perform(&request),
            Err(ResultActionError::InvalidRequest)
        ));
    }
}

#[test]
fn out_of_range_indexes_and_copy_of_one_item() {
    let calls = Arc::new(Calls::default());
    let mut service = ResultService::new(calls.clone(), calls.clone());
    let session = service.publish(classify_results(&[
        detection(b"plain text"),
        detection(&[0xff]),
    ]));
    assert!(matches!(
        service.perform(&ResultActionRequest {
            session_id: session.session_id,
            action: ResultActionKind::Copy,
            index: Some(5),
        }),
        Err(ResultActionError::InvalidIndex)
    ));
    assert!(matches!(
        service.perform(&ResultActionRequest {
            session_id: session.session_id,
            action: ResultActionKind::Copy,
            index: Some(1),
        }),
        Err(ResultActionError::NotCopyable)
    ));
    let outcome = service
        .perform(&ResultActionRequest {
            session_id: session.session_id,
            action: ResultActionKind::Copy,
            index: Some(0),
        })
        .expect("copy one");
    assert!(!outcome.close);
    assert_eq!(
        calls.copied.lock().expect("clipboard calls").as_slice(),
        ["plain text"]
    );
    assert!(service.snapshot().is_some());
}

#[test]
fn publishing_replaces_the_previous_session() {
    let calls = Arc::new(Calls::default());
    let mut service = ResultService::new(calls.clone(), calls);
    let first = service.publish(classify_results(&[detection(b"one")]));
    let second = service.publish(classify_results(&[detection(b"two")]));
    assert_ne!(first.session_id, second.session_id);
    assert_eq!(
        service.snapshot().map(|pending| pending.session_id),
        Some(second.session_id)
    );
    service.clear(Some(first.session_id));
    assert!(service.snapshot().is_some());
    service.clear(None);
    assert!(service.snapshot().is_none());
}
