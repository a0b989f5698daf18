use rstreamer::multipart::encode_closing_boundary;
use rstreamer::multipart::encode_content_type;
use rstreamer::multipart::encode_decimal;
use rstreamer::multipart::encode_part;
use rstreamer::multipart::encode_part_header;
use rstreamer::multipart::encode_part_trailer;
use rstreamer::multipart::BOUNDARY;
use rstreamer::multipart::STATUS_OK;

#[test]
fn boundary_token_is_fixed() {
    assert_eq!(BOUNDARY, "rstreamer_boundary");
    assert_eq!(STATUS_OK, 200);
}

#[test]
fn decimal_of_small_numbers() {
    assert_eq!(encode_decimal(0), b"0".to_vec());
    assert_eq!(encode_decimal(7), b"7".to_vec());
    assert_eq!(encode_decimal(9), b"9".to_vec());
    assert_eq!(encode_decimal(10), b"10".to_vec());
    assert_eq!(encode_decimal(99), b"99".to_vec());
    assert_eq!(encode_decimal(100), b"100".to_vec());
    assert_eq!(encode_decimal(12345), b"12345".to_vec());
    assert_eq!(encode_decimal(1000000), b"1000000".to_vec());
}

#[test]
fn decimal_agrees_with_formatting() {
    let mut n: usize = 1;
    for _ in 0..64 {
        assert_eq!(encode_decimal(n), format!("{}", n).into_bytes());
        assert_eq!(encode_decimal(n - 1), format!("{}", n - 1).into_bytes());
        n = n.wrapping_mul(3).wrapping_add(7);
    }
    assert_eq!(encode_decimal(usize::MAX), format!("{}", usize::MAX).into_bytes());
}

#[test]
fn part_header_names_type_and_length() {
    assert_eq!(
        encode_part_header(3),
        b"--rstreamer_boundary\r\nContent-Type: image/jpeg\r\nContent-Length: 3\r\n\r\n".to_vec()
    );
    assert_eq!(
        encode_part_header(921600),
        b"--rstreamer_boundary\r\nContent-Type: image/jpeg\r\nContent-Length: 921600\r\n\r\n"
            .to_vec()
    );
    assert_eq!(
        encode_part_header(0),
        b"--rstreamer_boundary\r\nContent-Type: image/jpeg\r\nContent-Length: 0\r\n\r\n".to_vec()
    );
}

#[test]
fn part_trailer_is_a_line_break() {
    assert_eq!(encode_part_trailer(), b"\r\n".to_vec());
}

#[test]
fn part_is_header_payload_trailer() {
    let chunks = encode_part(vec![0xff, 0xd8, 0xff, 0xd9]);
    assert_eq!(chunks.len(), 3);
    assert_eq!(
        chunks[0],
        b"--rstreamer_boundary\r\nContent-Type: image/jpeg\r\nContent-Length: 4\r\n\r\n".to_vec()
    );
    assert_eq!(chunks[1], vec![0xff, 0xd8, 0xff, 0xd9]);
    assert_eq!(chunks[2], b"\r\n".to_vec());
}

#[test]
fn part_of_an_empty_frame() {
    let chunks = encode_part(Vec::new());
    assert_eq!(chunks.len(), 3);
    assert_eq!(
        chunks[0],
        b"--rstreamer_boundary\r\nContent-Type: image/jpeg\r\nContent-Length: 0\r\n\r\n".to_vec()
    );
    assert_eq!(chunks[1], Vec::<u8>::new());
    assert_eq!(chunks[2], b"\r\n".to_vec());
}

#[test]
fn closing_boundary_line() {
    assert_eq!(encode_closing_boundary(), b"--rstreamer_boundary--\r\n".to_vec());
}

#[test]
fn content_type_names_the_boundary() {
    assert_eq!(encode_content_type(), "multipart/x-mixed-replace; boundary=rstreamer_boundary");
}
