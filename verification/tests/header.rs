use pairing_codec::header::{read_header, InvalidHeaderError};

#[test]
fn header_is_the_first_four_bytes() {
    assert_eq!(read_header(b"zkey\x01\x00\x00\x00", "zkey"), Ok(()));
    assert_eq!(read_header(b"r1cs", "r1cs"), Ok(()));
}

#[test]
fn header_that_differs_is_reported_with_both_texts() {
    assert_eq!(
        read_header(b"wtns....", "zkey"),
        Err(InvalidHeaderError::WrongHeader("zkey".to_string(), "wtns".to_string()))
    );
    assert_eq!(
        read_header(b"zkey", "zke"),
        Err(InvalidHeaderError::WrongHeader("zke".to_string(), "zkey".to_string()))
    );
}

#[test]
fn header_that_ends_early_is_an_io_error() {
    assert_eq!(read_header(b"zke", "zkey"), Err(InvalidHeaderError::IoError));
    assert_eq!(read_header(b"", ""), Err(InvalidHeaderError::IoError));
}

#[test]
fn header_that_is_no_text_is_a_utf8_error() {
    assert_eq!(read_header(&[0xff, 0xfe, 0x00, 0x01], "zkey"), Err(InvalidHeaderError::Utf8Error));
    // A character that the fourth byte cuts in two.
    assert_eq!(read_header("abcé".as_bytes(), "abc"), Err(InvalidHeaderError::Utf8Error));
    assert_eq!(read_header("aéb".as_bytes(), "aéb"), Ok(()));
}
