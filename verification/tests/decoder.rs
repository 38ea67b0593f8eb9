use qrforge::decoder::{detections_from_symbols, ReadSymbol};
use qrforge::detection::{Point, QrFormat};

fn corners() -> [(i32, i32); 4] {
    [(0, 0), (9, 0), (9, 9), (0, 9)]
}

fn points() -> [Point; 4] {
    [
        Point { x: 0, y: 0 },
        Point { x: 9, y: 0 },
        Point { x: 9, y: 9 },
        Point { x: 0, y: 9 },
    ]
}

#[test]
fn only_valid_symbols_become_detections_in_order() {
    let symbols = vec![
        ReadSymbol {
            valid: true,
            micro: true,
            rectangular: false,
            bytes: b"one".to_vec(),
            corners: corners(),
        },
        ReadSymbol {
            valid: false,
            micro: false,
            rectangular: false,
            bytes: b"broken".to_vec(),
            corners: corners(),
        },
        ReadSymbol {
            valid: true,
            micro: false,
            rectangular: false,
            bytes: vec![0xff],
            corners: corners(),
        },
    ];
    let detections = detections_from_symbols(&symbols);
    assert_eq!(detections.len(), 2);
    assert_eq!(detections[0].raw_bytes, b"one");
    assert_eq!(detections[0].format, QrFormat::MicroQrCode);
    assert_eq!(detections[0].text.as_deref(), Some("one"));
    assert_eq!(detections[0].corners, points());
    assert_eq!(detections[1].format, QrFormat::QrCode);
    assert_eq!(detections[1].text, None);
}
