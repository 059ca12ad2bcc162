//! The four-byte header that circom's binary files start with.

use vstd::prelude::*;
use vstd::utf8::{decode_utf8, encode_utf8, encode_utf8_decode_utf8, valid_utf8};

use crate::natbytes::copy_range;

verus! {

/// Why the header of a file was not accepted.
#[derive(Clone, Debug, PartialEq, Eq)]
pub enum InvalidHeaderError {
    /// The file ends before the header does.
    IoError,
    /// The header is not valid UTF-8.
    Utf8Error,
    /// The header is not the expected one. The variant holds the expected
    /// header and the header that was found.
    WrongHeader(String, String),
}

/// `std::str::from_utf8`: the text that the bytes encode, if they are valid
/// UTF-8.
#[verifier::external_body]
fn utf8_text(bytes: &[u8]) -> (r: Option<String>)
    ensures
        r is Some <==> valid_utf8(bytes@),
        r is Some ==> encode_utf8(r.unwrap()@) == bytes@,
{
    std::str::from_utf8(bytes).ok().map(|s| s.to_owned())
}

/// Whether `r` is the error for the header `found` in place of `expected`.
pub open spec fn is_wrong_header(
    r: Result<(), InvalidHeaderError>,
    expected: Seq<char>,
    found: Seq<char>,
) -> bool {
    match r {
        Err(InvalidHeaderError::WrongHeader(a, b)) => a@ == expected && b@ == found,
        _ => false,
    }
}

/// Checks that a file that starts with `bytes` has the header
/// `should_header`.
pub fn read_header(bytes: &[u8], should_header: &str) -> (r: Result<(), InvalidHeaderError>)
    ensures
        bytes@.len() < 4 ==> r == Err::<(), InvalidHeaderError>(InvalidHeaderError::IoError),
        bytes@.len() >= 4 && !valid_utf8(bytes@.subrange(0, 4)) ==> r == Err::<
            (),
            InvalidHeaderError,
        >(InvalidHeaderError::Utf8Error),
        bytes@.len() >= 4 && valid_utf8(bytes@.subrange(0, 4)) && decode_utf8(
            bytes@.subrange(0, 4),
        ) == should_header@ ==> r is Ok,
        bytes@.len() >= 4 && valid_utf8(bytes@.subrange(0, 4)) && decode_utf8(
            bytes@.subrange(0, 4),
        ) != should_header@ ==> is_wrong_header(
            r,
            should_header@,
            decode_utf8(bytes@.subrange(0, 4)),
        ),
{
    if bytes.len() < 4 {
        return Err(InvalidHeaderError::IoError);
    }
    let buf = copy_range(bytes, 0, 4);
    let is_header = match utf8_text(buf.as_slice()) {
        Some(s) => s,
        None => {
            return Err(InvalidHeaderError::Utf8Error);
        },
    };
    proof {
        encode_utf8_decode_utf8(is_header@);
    }
    let should = should_header.to_string();
    if is_header == should {
        Ok(())
    } else {
        Err(InvalidHeaderError::WrongHeader(should, is_header))
    }
}

} // verus!
