use mktools::error::EditorError;
use mktools::format::encoding::ReadStringExt;
use mktools::shared::util::RefCursor;

fn cursor(bytes: &[u8]) -> RefCursor {
    RefCursor::new(bytes.to_vec())
}

#[test]
fn reads_big_endian_integers() {
    let mut c = cursor(&[0x12, 0x34, 0x56, 0x78, 0xff, 0xfe, 0x80, 0x00, 0x00, 0x01]);
    assert_eq!(c.read_u16().ok(), Some(0x1234));
    assert_eq!(c.read_u24().ok(), Some(0x5678ff));
    assert_eq!(c.position(), 5);
    assert_eq!(c.read_i8().ok(), Some(-2));
    assert_eq!(c.read_i32().ok(), Some(-0x7fff_ffff));
    assert_eq!(c.position(), 10);
}

#[test]
fn failed_read_reports_end_of_input_and_keeps_position() {
    let mut c = cursor(&[1, 2, 3]);
    match c.read_u32() {
        Err(EditorError::IoError { source }) => {
            assert_eq!(source.requested, 4);
            assert_eq!(source.location, 0);
        },
        _ => panic!("expected an end of input error"),
    }
    assert_eq!(c.position(), 0);
    assert_eq!(c.read_u16().ok(), Some(0x0102));
}

#[test]
fn signed_sixteen_bit_reads() {
    let mut c = cursor(&[0xff, 0xff, 0x7f, 0xff]);
    assert_eq!(c.read_i16().ok(), Some(-1));
    assert_eq!(c.read_i16().ok(), Some(0x7fff));
}

#[test]
fn tail_of_a_cursor_starts_at_its_position() {
    let mut c = cursor(&[9, 8, 7, 6, 5]);
    c.set_position(2);
    c.set_tail();
    assert_eq!(c.position(), 0);
    assert_eq!(c.len(), 3);
    assert_eq!(c.byte_at(0), 7);
    assert_eq!(c.read_u8().ok(), Some(7));
    assert_eq!(c.remaining_len(), 2);
}

#[test]
fn tail_past_the_end_is_empty() {
    let mut c = cursor(&[1, 2]);
    c.set_position(10);
    assert_eq!(c.remaining_len(), 0);
    c.set_tail();
    assert_eq!(c.len(), 0);
    assert!(c.read_u8().is_err());
}

#[test]
fn clone_shares_bytes_and_position() {
    let mut c = cursor(&[1, 2, 3, 4]);
    c.set_position(1);
    let mut d = c.clone();
    assert_eq!(d.position(), 1);
    assert_eq!(d.read_u8().ok(), Some(2));
    assert_eq!(c.position(), 1);
}

#[test]
fn reads_word_and_halfword_vectors() {
    let mut c = cursor(&[0, 0, 0, 1, 0, 0, 0, 2, 0, 3]);
    assert_eq!(c.read_u32_vec(2).ok(), Some(vec![1, 2]));
    assert_eq!(c.read_u16_vec(1).ok(), Some(vec![3]));
    assert!(c.read_u32_vec(1).is_err());
    assert_eq!(c.position(), 10);
}

#[test]
fn reads_bytes_and_has() {
    let mut c = cursor(&[1, 2, 3]);
    assert!(c.has(3));
    assert!(!c.has(4));
    assert_eq!(c.read_bytes(2).ok(), Some(vec![1, 2]));
    assert!(c.read_bytes(2).is_err());
    assert_eq!(c.read_u8_array4().is_err(), true);
}

#[test]
fn length_prefixed_string() {
    let mut c = cursor(&[0, 0, 0, 3, b'a', b'b', b'c', b'x']);
    assert_eq!(c.read_u32_string().ok(), Some("abc".to_string()));
    assert_eq!(c.position(), 7);
}

#[test]
fn null_terminated_string() {
    let mut c = cursor(&[b'h', b'i', 0, b'z']);
    assert_eq!(c.read_null_string().ok(), Some("hi".to_string()));
    assert_eq!(c.position(), 2);
}

#[test]
fn null_string_without_terminator_is_corrupt() {
    let mut c = cursor(&[b'h', b'i']);
    assert!(matches!(c.read_null_string(), Err(EditorError::Corrupted { .. })));
    // nothing was consumed
    assert_eq!(c.position(), 0);
}

#[test]
fn invalid_utf8_string_is_rejected() {
    let mut c = cursor(&[0, 0, 0, 2, 0xff, 0xfe]);
    assert!(matches!(c.read_u32_string(), Err(EditorError::InvalidString { .. })));
}
