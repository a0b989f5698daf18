use rstreamer::error::RStreamerError;
use rstreamer::resolution::parse_resolution;
use rstreamer::resolution::Resolution;
use rstreamer::resolution::DEFAULT_HEIGHT;
use rstreamer::resolution::DEFAULT_WIDTH;

fn parsed(text: &str) -> (u32, u32) {
    match parse_resolution(text) {
        Ok(pair) => pair,
        Err(error) => panic!("{} was rejected: {}", text, error.message()),
    }
}

fn rejected(text: &str) -> String {
    match parse_resolution(text) {
        Ok(pair) => panic!("{} was accepted as {:?}", text, pair),
        Err(error) => error.message(),
    }
}

#[test]
fn parses_width_and_height() {
    assert_eq!(parsed("1280x720"), (1280, 720));
    assert_eq!(parsed("640x480"), (640, 480));
    assert_eq!(parsed("1x1"), (1, 1));
}

#[test]
fn zero_side_falls_back_to_default() {
    assert_eq!(parsed("0x480"), (1280, 480));
    assert_eq!(parsed("640x0"), (640, 720));
    assert_eq!(parsed("0x0"), (1280, 720));
    assert_eq!(parsed("000x+0"), (1280, 720));
    assert_eq!(parsed("+0x00000000000000000000000"), (1280, 720));
}

#[test]
fn parsed_sides_are_never_zero() {
    let samples = ["0", "+0", "00", "", "x", "1", "0x", "x0", "0x0", "-0x0", "0x1", "1x0", "a"];
    for left in samples {
        for right in samples {
            let text = format!("{}x{}", left, right);
            if let Ok((width, height)) = parse_resolution(&text) {
                assert!(width > 0);
                assert!(height > 0);
            }
        }
    }
}

#[test]
fn written_resolution_reads_back() {
    let sides = [1u32, 2, 9, 10, 480, 640, 720, 1280, 65535, 65536, 4294967294, u32::MAX];
    for width in sides {
        for height in sides {
            assert_eq!(parsed(&format!("{}x{}", width, height)), (width, height));
        }
    }
}

#[test]
fn defaults_are_1280_by_720() {
    assert_eq!(DEFAULT_WIDTH, 1280);
    assert_eq!(DEFAULT_HEIGHT, 720);
}

#[test]
fn invalid_width_falls_back_to_default() {
    assert_eq!(parsed("widex480"), (1280, 480));
    assert_eq!(parsed("x480"), (1280, 480));
    assert_eq!(parsed(" 640x480"), (1280, 480));
    assert_eq!(parsed("-640x480"), (1280, 480));
    assert_eq!(parsed("6_40x480"), (1280, 480));
}

#[test]
fn invalid_height_falls_back_to_default() {
    assert_eq!(parsed("640xhigh"), (640, 720));
    assert_eq!(parsed("640x"), (640, 720));
    assert_eq!(parsed("640x480 "), (640, 720));
    assert_eq!(parsed("640x4.8"), (640, 720));
}

#[test]
fn lone_separator_gives_both_defaults() {
    assert_eq!(parsed("x"), (1280, 720));
    assert_eq!(parsed("+x+"), (1280, 720));
    assert_eq!(parsed("-x-"), (1280, 720));
}

#[test]
fn leading_plus_sign_is_accepted_once() {
    assert_eq!(parsed("+640x+480"), (640, 480));
    assert_eq!(parsed("++640x480"), (1280, 480));
    assert_eq!(parsed("640x+"), (640, 720));
}

#[test]
fn leading_zeros_are_accepted() {
    assert_eq!(parsed("00640x0480"), (640, 480));
    assert_eq!(parsed("000000000000000000000000000000640x000000000000000000000001"), (640, 1));
    assert_eq!(parsed("007x010"), (7, 10));
}

#[test]
fn numbers_up_to_u32_max_are_accepted() {
    assert_eq!(parsed("4294967295x4294967295"), (u32::MAX, u32::MAX));
    assert_eq!(parsed("4294967296x1"), (1280, 1));
    assert_eq!(parsed("1x4294967296"), (1, 720));
    assert_eq!(parsed("99999999999999999999999999999999x1"), (1280, 1));
    assert_eq!(parsed("42949672950x1"), (1280, 1));
}

#[test]
fn text_without_separator_is_rejected() {
    let expected = "Camera error: Invalid resolution format. Use format WIDTHxHEIGHT (e.g., 1280x720)";
    assert_eq!(rejected(""), expected);
    assert_eq!(rejected("1280"), expected);
    assert_eq!(rejected("1280X720"), expected);
    assert_eq!(rejected("1280*720"), expected);
    assert_eq!(rejected("1280\u{d7}720"), expected);
}

#[test]
fn text_with_several_separators_is_rejected() {
    let expected = "Camera error: Invalid resolution format. Use format WIDTHxHEIGHT (e.g., 1280x720)";
    assert_eq!(rejected("1x2x3"), expected);
    assert_eq!(rejected("xx"), expected);
    assert_eq!(rejected("0x10x20"), expected);
    assert_eq!(rejected("x1280x"), expected);
}

#[test]
fn rejection_is_a_camera_error() {
    assert!(matches!(parse_resolution("nonsense"), Err(RStreamerError::CameraError(_))));
}

#[test]
fn digits_outside_ascii_are_no_digits() {
    assert_eq!(parsed("\u{661}\u{662}x3"), (1280, 3));
    assert_eq!(parsed("\u{ff11}x\u{ff12}"), (1280, 720));
    assert_eq!(parsed("12x\u{e9}"), (12, 720));
}

#[test]
fn positive_parts_are_read_as_the_standard_library_reads_them() {
    let samples = [
        "", "0", "7", "+7", "-7", "+", "-", "++7", "+-7", "007", "4294967295", "4294967296",
        "4294967294", "12345678901234567890", " 7", "7 ", "7a", "a7", "0b1", "1e3", "1_000", "+0",
        "\u{663}", "00000000004294967295", "00000000004294967296", "429496729", "42949672960",
    ];
    for left in samples {
        for right in samples {
            let text = format!("{}x{}", left, right);
            let expected = (
                left.parse::<u32>().ok().filter(|side| *side > 0).unwrap_or(1280),
                right.parse::<u32>().ok().filter(|side| *side > 0).unwrap_or(720),
            );
            assert_eq!(parsed(&text), expected);
        }
    }
}

#[test]
fn resolution_keeps_its_sides() {
    let resolution = Resolution::new(640, 480);
    assert_eq!(resolution.width(), 640);
    assert_eq!(resolution.height(), 480);
    assert_eq!(resolution, Resolution { width: 640, height: 480 });
}

#[test]
fn resolution_is_positive_when_no_side_is_zero() {
    assert!(Resolution::new(1, 1).is_positive());
    assert!(Resolution::new(640, 480).is_positive());
    assert!(Resolution::new(u32::MAX, u32::MAX).is_positive());
    assert!(!Resolution::new(0, 480).is_positive());
    assert!(!Resolution::new(640, 0).is_positive());
    assert!(!Resolution::new(0, 0).is_positive());
}

#[test]
fn frame_length_is_three_bytes_per_pixel() {
    assert_eq!(Resolution::new(640, 480).frame_len(), Some(921600));
    assert_eq!(Resolution::new(1280, 720).frame_len(), Some(2764800));
    assert_eq!(Resolution::new(1, 1).frame_len(), Some(3));
    assert_eq!(Resolution::new(65536, 65536).frame_len(), Some(12884901888));
}

#[test]
fn frame_length_beyond_the_address_space_is_none() {
    assert_eq!(Resolution::new(u32::MAX, u32::MAX).frame_len(), None);
    assert_eq!(Resolution::new(u32::MAX, 1431655766).frame_len(), None);
    assert_eq!(Resolution::new(u32::MAX, 1431655765).frame_len(), Some(18446744065119617025));
}
