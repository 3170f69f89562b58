use usb_serial::serial::{
    DecodeError, Parity, ReadStep, USBSerial, USBSerialWriter, WriteError, DEFAULT_TIMEOUT_MS,
    TEXT_CAPACITY,
};

#[test]
fn parity_of_each_code() {
    assert_eq!(Parity::from(0), Parity::NoParity);
    assert_eq!(Parity::from(1), Parity::Odd);
    assert_eq!(Parity::from(2), Parity::Even);
}

#[test]
fn timeout_defaults_to_a_second() {
    assert_eq!(DEFAULT_TIMEOUT_MS, 1000);
    assert_eq!(USBSerial::new().timeout(), 1000);
}

#[test]
fn set_timeout_is_read_back() {
    let mut serial = USBSerial::new();
    for ms in [0u32, 1, 250, u32::MAX] {
        serial.set_timeout(ms);
        assert_eq!(serial.timeout(), ms);
    }
}

#[test]
fn line_coding_fields() {
    let coding = [115_200u32, 0x0201_0800];
    assert_eq!(USBSerial::baud(&coding), 115_200);
    assert_eq!(USBSerial::stop_bits(&coding), 2);
    assert_eq!(USBSerial::parity_type(&coding), Parity::Odd);
    assert_eq!(USBSerial::num_bits(&coding), 8);
    let coding = [9_600u32, 0x0002_07ff];
    assert_eq!(USBSerial::stop_bits(&coding), 1);
    assert_eq!(USBSerial::parity_type(&coding), Parity::Even);
    assert_eq!(USBSerial::num_bits(&coding), 7);
    let coding = [0u32, 0xff00_ffff];
    assert_eq!(USBSerial::stop_bits(&coding), 255);
    assert_eq!(USBSerial::parity_type(&coding), Parity::NoParity);
    assert_eq!(USBSerial::num_bits(&coding), 255);
}

#[test]
fn line_coding_agrees_with_big_endian_bytes() {
    for word in [0u32, 1, 0x0102_0304, 0x0001_0000, 0x0200_0000, 0xff02_ab00] {
        let bytes = word.to_be_bytes();
        let coding = [0u32, word];
        assert_eq!(USBSerial::stop_bits(&coding), if bytes[0] == 0 { 1 } else { bytes[0] });
        assert_eq!(USBSerial::num_bits(&coding), bytes[2]);
        if bytes[1] <= 2 {
            assert_eq!(USBSerial::parity_type(&coding), Parity::from(bytes[1]));
        }
    }
}

#[test]
fn control_lines() {
    assert!(!USBSerial::dtr(0));
    assert!(!USBSerial::rts(0));
    assert!(USBSerial::dtr(1));
    assert!(!USBSerial::rts(1));
    assert!(!USBSerial::dtr(2));
    assert!(USBSerial::rts(2));
    assert!(USBSerial::dtr(3));
    assert!(USBSerial::rts(3));
    assert!(!USBSerial::dtr(0xfc));
    assert!(!USBSerial::rts(0xfc));
    assert!(USBSerial::dtr(0xff));
    assert!(USBSerial::rts(0xff));
}

#[test]
fn status_word_to_char() {
    assert_eq!(USBSerial::received_char(-1), None);
    assert_eq!(USBSerial::received_char(0), Some('\0'));
    assert_eq!(USBSerial::received_char(65), Some('A'));
    assert_eq!(USBSerial::received_char(255), Some('\u{ff}'));
}

#[test]
fn one_byte_write() {
    assert!(USBSerial::write_char(1));
    assert!(!USBSerial::write_char(0));
    assert!(!USBSerial::write_char(2));
}

#[test]
fn writer_wants_every_byte_taken() {
    let mut writer = USBSerialWriter;
    assert_eq!(writer.write_str("hello", 5), Ok(()));
    assert_eq!(writer.write_str("hello", 4), Err(WriteError::Incomplete));
    assert_eq!(writer.write_str("hello", 0), Err(WriteError::Incomplete));
    assert_eq!(writer.write_str("", 0), Ok(()));
    assert_eq!(writer.write_str("\u{e9}", 2), Ok(()));
    assert_eq!(writer.write_str("\u{e9}", 1), Err(WriteError::Incomplete));
    assert_eq!(writer.write_char(true), Ok(()));
    assert_eq!(writer.write_char(false), Err(WriteError::Incomplete));
}

#[test]
fn read_bytes_takes_the_minimum() {
    let pending = [1u8, 2, 3, 4, 5];
    let mut buffer = vec![9u8; 3];
    assert_eq!(USBSerial::read_bytes(&pending, &mut buffer), 3);
    assert_eq!(buffer, vec![1, 2, 3]);
    let mut buffer = vec![9u8; 8];
    assert_eq!(USBSerial::read_bytes(&pending, &mut buffer), 5);
    assert_eq!(buffer, vec![1, 2, 3, 4, 5, 9, 9, 9]);
    let mut buffer = vec![9u8; 5];
    assert_eq!(USBSerial::read_bytes(&pending, &mut buffer), 5);
    assert_eq!(buffer, vec![1, 2, 3, 4, 5]);
}

#[test]
fn read_bytes_with_nothing_pending_or_no_room() {
    let mut buffer = vec![9u8; 4];
    assert_eq!(USBSerial::read_bytes(&[], &mut buffer), 0);
    assert_eq!(buffer, vec![9, 9, 9, 9]);
    let mut empty: Vec<u8> = Vec::new();
    assert_eq!(USBSerial::read_bytes(&[1, 2, 3], &mut empty), 0);
    assert!(empty.is_empty());
}

#[test]
fn read_bytes_for_many_lengths() {
    for available in 0usize..12 {
        for length in 0usize..12 {
            let pending: Vec<u8> = (0..available).map(|i| i as u8 + 100).collect();
            let mut buffer = vec![0u8; length];
            let count = USBSerial::read_bytes(&pending, &mut buffer);
            assert_eq!(count, available.min(length));
            assert_eq!(&buffer[..count], &pending[..count]);
            assert!(buffer[count..].iter().all(|b| *b == 0));
        }
    }
}

#[test]
fn text_of_nothing_is_no_data() {
    assert_eq!(USBSerial::read_str(&[]), Ok(None));
    assert_eq!(USBSerial::decode_text(&[]), Ok(None));
}

#[test]
fn text_of_valid_bytes() {
    assert_eq!(USBSerial::read_str(b"hello"), Ok(Some("hello".to_string())));
    let bytes = "gr\u{fc}\u{df}e \u{20ac}".as_bytes();
    assert_eq!(USBSerial::read_str(bytes), Ok(Some("gr\u{fc}\u{df}e \u{20ac}".to_string())));
    assert_eq!(USBSerial::decode_text(b"x"), Ok(Some("x".to_string())));
}

#[test]
fn text_of_invalid_bytes_is_an_error() {
    assert_eq!(USBSerial::read_str(&[0xff]), Err(DecodeError::InvalidUtf8));
    assert_eq!(USBSerial::read_str(&[b'a', 0xc3]), Err(DecodeError::InvalidUtf8));
    assert_eq!(USBSerial::read_str(&[0xed, 0xa0, 0x80]), Err(DecodeError::InvalidUtf8));
    assert_eq!(USBSerial::decode_text(&[0xc0, 0x80]), Err(DecodeError::InvalidUtf8));
}

#[test]
fn text_read_captures_at_most_its_capacity() {
    assert_eq!(TEXT_CAPACITY, 256);
    let pending = vec![b'a'; 300];
    assert_eq!(USBSerial::read_str(&pending), Ok(Some("a".repeat(256))));
    let pending = vec![b'b'; 256];
    assert_eq!(USBSerial::read_str(&pending), Ok(Some("b".repeat(256))));
    let mut pending = vec![b'c'; 255];
    pending.extend_from_slice("\u{e9}".as_bytes());
    assert_eq!(USBSerial::read_str(&pending), Err(DecodeError::InvalidUtf8));
}

#[test]
fn bounded_read_fills_over_several_polls() {
    let mut serial = USBSerial::new();
    serial.set_timeout(100);
    let mut read = serial.read_bytes_timeout(vec![0u8; 5], 1000);
    assert_eq!(read.count(), 0);
    assert_eq!(read.room(), 5);
    assert_eq!(read.poll(&[1, 2], 1001), ReadStep::Poll { offset: 2, room: 3 });
    assert_eq!(read.poll(&[], 1010), ReadStep::Poll { offset: 2, room: 3 });
    assert_eq!(read.poll(&[3], 1099), ReadStep::Poll { offset: 3, room: 2 });
    assert_eq!(read.received(), &[1, 2, 3]);
    assert_eq!(read.poll(&[4, 5], 1099), ReadStep::Done { count: 5 });
    assert_eq!(read.room(), 0);
    assert_eq!(read.finish(), (vec![1, 2, 3, 4, 5], 5));
}

#[test]
fn bounded_read_ends_at_the_timeout() {
    let mut serial = USBSerial::new();
    serial.set_timeout(100);
    let mut read = serial.read_bytes_timeout(vec![7u8; 4], 1000);
    assert_eq!(read.poll(&[1], 1099), ReadStep::Poll { offset: 1, room: 3 });
    assert_eq!(read.poll(&[2], 1100), ReadStep::Done { count: 2 });
    assert_eq!(read.finish(), (vec![1, 2, 7, 7], 2));
}

#[test]
fn bounded_read_keeps_polling_before_the_timeout() {
    let serial = USBSerial::new();
    let mut read = serial.read_bytes_timeout(vec![0u8; 2], 0);
    for now in [0u32, 1, 500, 999] {
        assert_eq!(read.poll(&[], now), ReadStep::Poll { offset: 0, room: 2 });
    }
    assert_eq!(read.poll(&[], 1000), ReadStep::Done { count: 0 });
}

#[test]
fn bounded_read_with_zero_timeout_polls_once() {
    let mut serial = USBSerial::new();
    serial.set_timeout(0);
    let mut read = serial.read_bytes_timeout(vec![0u8; 3], 42);
    assert_eq!(read.poll(&[9], 42), ReadStep::Done { count: 1 });
}

#[test]
fn bounded_read_into_empty_buffer() {
    let serial = USBSerial::new();
    let mut read = serial.read_bytes_timeout(Vec::new(), 5);
    assert_eq!(read.poll(&[], 5), ReadStep::Done { count: 0 });
    assert_eq!(read.finish(), (Vec::new(), 0));
}

#[test]
fn bounded_read_never_takes_more_than_fits() {
    let serial = USBSerial::new();
    let mut read = serial.read_bytes_timeout(vec![0u8; 3], 0);
    assert_eq!(read.poll(&[1, 2], 1), ReadStep::Poll { offset: 2, room: 1 });
    assert_eq!(read.poll(&[3, 4, 5], 2), ReadStep::Done { count: 3 });
    assert_eq!(read.finish(), (vec![1, 2, 3], 3));
}

#[test]
fn bounded_read_across_a_clock_wrap() {
    let mut serial = USBSerial::new();
    serial.set_timeout(20);
    let mut read = serial.read_bytes_timeout(vec![0u8; 2], u32::MAX - 9);
    assert_eq!(read.poll(&[], u32::MAX), ReadStep::Poll { offset: 0, room: 2 });
    assert_eq!(read.poll(&[], 9), ReadStep::Poll { offset: 0, room: 2 });
    assert_eq!(read.poll(&[], 10), ReadStep::Done { count: 0 });
}

#[test]
fn text_of_a_bounded_read() {
    let serial = USBSerial::new();
    let read = serial.read_bytes_timeout(vec![0u8; 8], 0);
    assert_eq!(USBSerial::read_str_timeout(&read), Ok(None));
    let mut read = serial.read_bytes_timeout(vec![0u8; 8], 0);
    read.poll(b"ok", 1);
    read.poll(b"ay", 2);
    assert_eq!(USBSerial::read_str_timeout(&read), Ok(Some("okay".to_string())));
    let mut read = serial.read_bytes_timeout(vec![0u8; 8], 0);
    read.poll(&[0xe2, 0x82], 1);
    assert_eq!(USBSerial::read_str_timeout(&read), Err(DecodeError::InvalidUtf8));
    read.poll(&[0xac], 2);
    assert_eq!(USBSerial::read_str_timeout(&read), Ok(Some("\u{20ac}".to_string())));
}
