use softnpu::p9::{p9_device_path, unit_address, write_chunks, WRITE_STRIDE};
use softnpu::text::decimal_string;
use softnpu::uart::{frame_uart_request, ReplyReader, SOFTNPU_UART_PREAMBLE};

#[test]
fn programs_are_written_in_strides() {
    assert_eq!(write_chunks(0), vec![(0, 0)]);
    assert_eq!(write_chunks(10), vec![(0, 10)]);
    assert_eq!(write_chunks(WRITE_STRIDE), vec![(0, WRITE_STRIDE)]);
    assert_eq!(
        write_chunks(2 * WRITE_STRIDE + 1),
        vec![(0, WRITE_STRIDE), (WRITE_STRIDE, 2 * WRITE_STRIDE), (2 * WRITE_STRIDE, 2 * WRITE_STRIDE + 1)]
    );
    assert_eq!(WRITE_STRIDE, 0x10000 - 23);
}

#[test]
fn the_9p_device_is_found_by_its_unit_address() {
    let v = vec!["4".to_string(), "5".to_string()];
    assert_eq!(unit_address(Some(&v)), Some(&"4".to_string()));
    assert_eq!(unit_address(Some(&vec![])), None);
    assert_eq!(unit_address(None), None);
    assert_eq!(p9_device_path("pci1af4,9", "4"), "/devices/pci@0,0/pci1af4,9@4:9p");
}

#[test]
fn uart_requests_are_framed() {
    let f = frame_uart_request(b"\"DumpRequest\"");
    assert_eq!(f[0], SOFTNPU_UART_PREAMBLE);
    assert_eq!(f[0], 0b11100101);
    assert_eq!(&f[1..f.len() - 1], b"\"DumpRequest\"");
    assert_eq!(*f.last().unwrap(), b'\n');
}

#[test]
fn uart_replies_end_at_a_newline() {
    let mut buf = [0u8; 16];
    let mut r = ReplyReader::new();
    buf[..3].copy_from_slice(b"{\"a");
    assert_eq!(r.on_read(&buf, 3), None);
    assert_eq!(r.filled(), 3);
    buf[3..6].copy_from_slice(b"\"}\n");
    assert_eq!(r.on_read(&buf, 3), Some(5));
    assert_eq!(&buf[..5], b"{\"a\"}");
    assert_eq!(ReplyReader::reply_text(&buf, 5), "{\"a\"}");
    assert_eq!(ReplyReader::reply_text(&[b'o', b'k', 0xff, b'\n'], 3), "ok\u{fffd}");
}

#[test]
fn numbers_are_written_in_decimal() {
    assert_eq!(decimal_string(0), "0");
    assert_eq!(decimal_string(9), "9");
    assert_eq!(decimal_string(10), "10");
    assert_eq!(decimal_string(1234567), "1234567");
    assert_eq!(decimal_string(usize::MAX), usize::MAX.to_string());
}
