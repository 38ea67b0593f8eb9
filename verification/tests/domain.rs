use qrforge::capture::{CapturedFrame, FrameError};
use qrforge::hotkey::{parse_hotkey, Hotkey, HotkeyKey, HotkeyParseError};
use qrforge::monitor::{MonitorId, MonitorIdError, MonitorInfo, MonitorInfoError, MAX_MONITOR_ID_LEN};
use qrforge::payload::{classify_payload, PayloadClass};

#[test]
fn validates_rgba_buffer_length() {
    assert!(CapturedFrame::rgba8(2, 2, vec![0; 16]).is_ok());
    assert_eq!(
        CapturedFrame::rgba8(0, 2, Vec::new()),
        Err(FrameError::ZeroDimension)
    );
    assert_eq!(
        CapturedFrame::rgba8(2, 2, vec![0; 15]),
        Err(FrameError::InvalidBufferLength {
            expected: 16,
            actual: 15
        })
    );
    assert_eq!(
        CapturedFrame::rgba8_strided(2, 2, 12, vec![0; 24]),
        Err(FrameError::UnsupportedStride {
            expected: 8,
            actual: 12,
        })
    );
}

#[test]
fn canonicalizes_default_hotkey() {
    let parsed: Hotkey = "shift+control+q".parse().expect("hotkey should parse");
    assert_eq!(parsed, Hotkey::default());
    assert_eq!(parsed.to_string(), "Ctrl+Shift+Q");
}

#[test]
fn rejects_unmodified_keys_and_duplicates() {
    assert_eq!(
        "Q".parse::<Hotkey>(),
        Err(HotkeyParseError::ModifierRequired)
    );
    assert_eq!(
        "Ctrl+Ctrl+Q".parse::<Hotkey>(),
        Err(HotkeyParseError::DuplicateModifier)
    );
}

#[test]
fn monitor_metadata_preserves_negative_virtual_coordinates() {
    let monitor = MonitorInfo::new(
        "display-a".parse().expect("id"),
        "Portrait display".to_owned(),
        -1_440,
        -320,
        1_440,
        2_560,
        200,
        90,
        false,
    )
    .expect("monitor");
    assert_eq!((monitor.x, monitor.y), (-1_440, -320));
    assert_eq!((monitor.width, monitor.height), (1_440, 2_560));
    assert_eq!(monitor.scale_factor_percent, 200);
    assert_eq!(monitor.rotation_degrees, 90);
}

#[test]
fn monitor_ids_reject_unbounded_or_path_like_values() {
    assert!("display:abc-123".parse::<MonitorId>().is_ok());
    assert_eq!(
        "../display".parse::<MonitorId>(),
        Err(MonitorIdError::InvalidCharacter)
    );
    assert_eq!(
        "x".repeat(MAX_MONITOR_ID_LEN + 1).parse::<MonitorId>(),
        Err(MonitorIdError::InvalidLength)
    );
}

#[test]
fn blocks_every_non_http_scheme() {
    for value in [
        "javascript:alert(1)",
        "data:text/html,hello",
        "file:///C:/secret.txt",
        "mailto:user@example.com",
        "custom:action",
        "C:\\Windows\\System32\\cmd.exe",
    ] {
        assert!(
            matches!(
                classify_payload(value.as_bytes()),
                PayloadClass::BlockedScheme { .. }
            ),
            "{value} should be blocked"
        );
    }
}

#[test]
fn preserves_plain_text_and_binary_classification() {
    assert_eq!(
        classify_payload(b"hello from QRForge"),
        PayloadClass::PlainText("hello from QRForge".to_owned())
    );
    assert_eq!(classify_payload(&[0xff, 0xfe]), PayloadClass::Binary);
}

#[test]
fn does_not_allow_url_parser_whitespace_normalization() {
    assert!(matches!(
        classify_payload(b" https://example.com"),
        PayloadClass::PlainText(_)
    ));
}

#[test]
fn safe_urls_are_normalized_and_keyed_without_fragment() {
    let PayloadClass::SafeUrl(url) = classify_payload(b"HTTPS://Example.COM:443/a#section") else {
        panic!("expected safe URL");
    };
    assert_eq!(url.as_str(), "https://example.com/a#section");
    assert_eq!(url.identity(), "https://example.com/a");
    assert_eq!(url.scheme(), "https");
}

#[test]
fn http_like_text_without_a_host_is_malformed() {
    assert_eq!(
        classify_payload(b"http:///missing-host"),
        PayloadClass::MalformedUrl {
            text: "http:///missing-host".to_owned()
        }
    );
    assert_eq!(
        classify_payload(b"https://[invalid"),
        PayloadClass::MalformedUrl {
            text: "https://[invalid".to_owned()
        }
    );
}

#[test]
fn credentials_in_an_http_url_are_blocked() {
    assert_eq!(
        classify_payload(b"https://trusted.example@evil.example/"),
        PayloadClass::BlockedUrl {
            text: "https://trusted.example@evil.example/".to_owned()
        }
    );
    assert_eq!(
        classify_payload(b"http://user:pw@example.com/"),
        PayloadClass::BlockedUrl {
            text: "http://user:pw@example.com/".to_owned()
        }
    );
}

#[test]
fn blocked_schemes_report_the_lowercase_scheme() {
    assert_eq!(
        classify_payload(b"JavaScript:alert(1)"),
        PayloadClass::BlockedScheme {
            scheme: "javascript".to_owned(),
            text: "JavaScript:alert(1)".to_owned()
        }
    );
}

#[test]
fn empty_and_control_text_is_unsafe() {
    assert_eq!(classify_payload(b""), PayloadClass::UnsafeText);
    assert_eq!(classify_payload(b"a\tb"), PayloadClass::UnsafeText);
    assert_eq!(classify_payload(b"del\x7f"), PayloadClass::UnsafeText);
}

#[test]
fn hotkey_text_parses_back_to_the_same_hotkey() {
    for text in ["Ctrl+Alt+M", "Shift+Super+F24", "Alt+7", "Ctrl+Alt+Shift+Super+Z"] {
        let parsed = parse_hotkey(text).expect("canonical hotkey");
        assert_eq!(parsed.to_string(), text);
        assert_eq!(parse_hotkey(&parsed.to_string()), Ok(parsed));
    }
}

#[test]
fn hotkey_parse_errors_cover_each_failure() {
    assert_eq!(parse_hotkey(""), Err(HotkeyParseError::InvalidSyntax));
    assert_eq!(parse_hotkey(" Ctrl+Q"), Err(HotkeyParseError::InvalidSyntax));
    assert_eq!(
        parse_hotkey("Ctrl++Q"),
        Err(HotkeyParseError::UnsupportedKey(String::new()))
    );
    assert_eq!(parse_hotkey("Ctrl+Q+W"), Err(HotkeyParseError::MultipleKeys));
    assert_eq!(parse_hotkey("Ctrl+Alt"), Err(HotkeyParseError::KeyRequired));
    assert_eq!(
        parse_hotkey("Ctrl+F25"),
        Err(HotkeyParseError::UnsupportedKey("F25".to_owned()))
    );
}

#[test]
fn hotkey_constructor_requires_a_modifier() {
    assert_eq!(
        Hotkey::new(false, false, false, false, HotkeyKey::Letter('Q')),
        Err(HotkeyParseError::ModifierRequired)
    );
    let hotkey = Hotkey::new(true, false, true, false, HotkeyKey::Letter('Q')).expect("valid");
    assert!(hotkey.control() && hotkey.shift() && !hotkey.alt() && !hotkey.super_key());
    assert_eq!(hotkey.key(), &HotkeyKey::Letter('Q'));
}

#[test]
fn frame_errors_and_metadata() {
    assert_eq!(
        FrameError::InvalidBufferLength {
            expected: 16,
            actual: 15
        }
        .to_string(),
        "frame requires 16 bytes but received 15"
    );
    let frame = CapturedFrame::rgba8_with_metadata(1, 1, vec![1, 2, 3, 4], Some("  ".to_owned()), Some(0))
        .expect("frame");
    assert_eq!(frame.monitor_label(), None);
    assert_eq!(frame.scale_factor_percent(), None);
    assert_eq!(frame.pixels(), &[1, 2, 3, 4]);
    assert_eq!(frame.stride_bytes(), 4);
}

#[test]
fn monitor_info_errors_name_the_failing_field() {
    let id: MonitorId = "display-a".parse().expect("id");
    assert_eq!(
        MonitorInfo::new(id.clone(), "  ".to_owned(), 0, 0, 1, 1, 100, 0, true),
        Err(MonitorInfoError::EmptyLabel)
    );
    assert_eq!(
        MonitorInfo::new(id.clone(), "A".to_owned(), 0, 0, 0, 1, 100, 0, true),
        Err(MonitorInfoError::ZeroDimension)
    );
    assert_eq!(
        MonitorInfo::new(id.clone(), "A".to_owned(), 0, 0, 1, 1, 0, 0, true),
        Err(MonitorInfoError::ZeroScale)
    );
    assert_eq!(
        MonitorInfo::new(id, "A".to_owned(), 0, 0, 1, 1, 100, 45, true),
        Err(MonitorInfoError::InvalidRotation(45))
    );
    assert_eq!(
        MonitorInfoError::InvalidRotation(45).to_string(),
        "unsupported monitor rotation: 45"
    );
}
