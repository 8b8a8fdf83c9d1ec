use pathtrace::ppm::{encode_header, encode_pixel, push_decimal};

#[test]
fn header_lines() {
    assert_eq!(encode_header(400, 225), b"P3\n400 225\n255\n".to_vec());
}

#[test]
fn header_of_smallest_image() {
    assert_eq!(encode_header(1, 1), b"P3\n1 1\n255\n".to_vec());
}

#[test]
fn pixel_line() {
    assert_eq!(encode_pixel(0, 128, 255), b"0 128 255\n".to_vec());
    assert_eq!(encode_pixel(9, 10, 99), b"9 10 99\n".to_vec());
}

#[test]
fn decimal_digits_append() {
    let mut out = b"x".to_vec();
    push_decimal(&mut out, 0);
    assert_eq!(out, b"x0".to_vec());
    push_decimal(&mut out, u64::MAX);
    assert_eq!(out, format!("x0{}", u64::MAX).into_bytes());
}
