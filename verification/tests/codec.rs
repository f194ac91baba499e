use noop::codec::{encode_write, read_data, take_until_nul, word_to_bytes, words_to_bytes};

/// A word spells out as its eight bytes, lowest first.
#[test]
fn word_bytes_order() {
    let b = word_to_bytes(0x0807_0605_0403_0201);
    assert_eq!(b, vec![1, 2, 3, 4, 5, 6, 7, 8]);
    assert_eq!(word_to_bytes(0), vec![0; 8]);
    assert_eq!(word_to_bytes(0xff), vec![0xff, 0, 0, 0, 0, 0, 0, 0]);
}

/// Encoding pads with zeros to the next word boundary, a full word when
/// already aligned.
#[test]
fn encode_pads() {
    let ws = encode_write(&b"ab".to_vec());
    assert_eq!(ws.len(), 1);
    assert_eq!(words_to_bytes(&ws), b"ab\0\0\0\0\0\0".to_vec());

    let ws = encode_write(&b"12345678".to_vec());
    assert_eq!(ws.len(), 2);
    assert_eq!(words_to_bytes(&ws), b"12345678\0\0\0\0\0\0\0\0".to_vec());

    let ws = encode_write(&Vec::new());
    assert_eq!(ws.len(), 1);
    assert_eq!(words_to_bytes(&ws), vec![0; 8]);
}

/// Writing a NUL-terminated path and reading it back, with the explicit
/// length one past its end, yields the path exactly.
#[test]
fn round_trip() {
    for p in [&b"/tmp/some/file"[..], b"x", b"12345678", b"/tmp/0123456789abcde"] {
        let mut with_nul = p.to_vec();
        with_nul.push(0);
        let image = words_to_bytes(&encode_write(&with_nul));
        assert_eq!(take_until_nul(&image, Some(p.len() + 1)), p.to_vec());
        assert_eq!(take_until_nul(&image, None), p.to_vec());
    }
}

/// Reading cuts at the first zero byte or at the requested length,
/// whichever comes first, and never includes the zero.
#[test]
fn take_until_nul_cuts() {
    let b = b"abc\0def".to_vec();
    assert_eq!(take_until_nul(&b, None), b"abc".to_vec());
    assert_eq!(take_until_nul(&b, Some(2)), b"ab".to_vec());
    assert_eq!(take_until_nul(&b, Some(7)), b"abc".to_vec());
    assert_eq!(take_until_nul(&b"xyz".to_vec(), None), b"xyz".to_vec());
    assert_eq!(take_until_nul(&b"\0".to_vec(), None), Vec::<u8>::new());
}

/// Peeking at a process we cannot touch surfaces the kernel's error.
#[test]
fn read_from_no_process() {
    let r = read_data(-1, 0x1000, Some(8));
    assert!(matches!(r, Err(noop::Error::OS { .. })));
    // a zero-length read never touches the tracee
    let r = read_data(-1, 0x1000, Some(0));
    assert_eq!(r.unwrap(), Vec::<u8>::new());
}
