//! What the library has from other crates and from parts of the standard
//! library that carry no contract of their own. Each item's contract is
//! believed, not proved.

use crate::path::{
    ends_in_name, final_component, last_part, last_piece, plain_path, plainly_relative, unprefixed,
};
use crate::text::{has_part, opt_text};
use vstd::prelude::*;
use vstd::utf8::{decode_utf8, valid_utf8};

verus! {

/// `crc32fast::Hasher`, a running CRC-32 computation.
#[verifier::external_type_specification]
#[verifier::external_body]
pub struct ExHasher(crc32fast::Hasher);

/// The bytes that a hasher has been fed, in order.
pub uninterp spec fn hashed_bytes(h: crc32fast::Hasher) -> Seq<u8>;

/// The CRC-32 (IEEE) checksum of a sequence of bytes, as `crc32fast` computes it.
pub uninterp spec fn crc32(bytes: Seq<u8>) -> u32;

/// `crc32fast::Hasher::new`: a hasher that has been fed nothing.
pub assume_specification[ crc32fast::Hasher::new ]() -> (h: crc32fast::Hasher)
    ensures
        hashed_bytes(h) == Seq::<u8>::empty(),
;

/// `crc32fast::Hasher::update`: feeds the bytes of `buf` after those fed
/// before. The hasher counts them in 64 bits.
pub assume_specification[ crc32fast::Hasher::update ](h: &mut crc32fast::Hasher, buf: &[u8])
    requires
        hashed_bytes(*old(h)).len() + buf@.len() <= u64::MAX,
    ensures
        hashed_bytes(*final(h)) == hashed_bytes(*old(h)) + buf@,
;

/// `crc32fast::Hasher::finalize`: the checksum of all bytes fed, however they
/// were cut into pieces.
pub assume_specification[ crc32fast::Hasher::finalize ](h: crc32fast::Hasher) -> (r: u32)
    ensures
        r == crc32(hashed_bytes(h)),
;

/// A lower-case hexadecimal digit.
pub open spec fn is_hex(c: char) -> bool {
    '0' <= c <= '9' || 'a' <= c <= 'f'
}

/// The shape of a random (version 4) UUID in hyphenated lower-case form.
pub open spec fn is_uuid(s: Seq<char>) -> bool {
    &&& s.len() == 36
    &&& s[8] == '-' && s[13] == '-' && s[18] == '-' && s[23] == '-'
    &&& s[14] == '4'
    &&& forall|i: int|
        0 <= i < 36 && i != 8 && i != 13 && i != 18 && i != 23 ==> is_hex(#[trigger] s[i])
}

/// `uuid::Uuid::new_v4`, written out with `to_string`: random, so only its
/// shape is known.
#[verifier::external_body]
pub(crate) fn new_uuid() -> (r: String)
    ensures
        is_uuid(r@),
{
    uuid::Uuid::new_v4().to_string()
}

/// What `serde_json` finds in a document under `list`, at position `index`,
/// under `field`: the text there, or nothing if no text stands there, or the
/// words of its error if the document is no JSON.
pub uninterp spec fn json_text(
    document: Seq<char>,
    list: Seq<char>,
    index: usize,
    field: Seq<char>,
) -> Result<Option<Seq<char>>, Seq<char>>;

/// `serde_json::from_str` into a `serde_json::Value`, then its indexing and
/// `as_str`, named by `json_text`.
#[verifier::external_body]
pub(crate) fn json_text_at(document: &str, list: &str, index: usize, field: &str) -> (r: Result<
    Option<String>,
    String,
>)
    ensures
        json_text(document@, list@, index, field@) == match r {
            Ok(Some(t)) => Ok(Some(t@)),
            Ok(None) => Ok(None),
            Err(e) => Err(e@),
        },
{
    match serde_json::from_str::<serde_json::Value>(document) {
        Ok(v) => Ok(v[list][index][field].as_str().map(|t| t.to_string())),
        Err(e) => Err(e.to_string()),
    }
}

/// The words in which `String::from_utf8` refuses bytes that are no UTF-8.
pub uninterp spec fn utf8_refusal(bytes: Seq<u8>) -> Seq<char>;

/// `String::from_utf8`: the text that the bytes encode, or the error's words.
#[verifier::external_body]
pub(crate) fn utf8_text(bytes: Vec<u8>) -> (r: Result<String, String>)
    ensures
        match r {
            Ok(t) => valid_utf8(bytes@) && t@ == decode_utf8(bytes@),
            Err(e) => !valid_utf8(bytes@) && e@ == utf8_refusal(bytes@),
        },
{
    String::from_utf8(bytes).map_err(|e| e.to_string())
}

/// The text that `String::from_utf8_lossy` makes of bytes.
pub uninterp spec fn lossy_text(bytes: Seq<u8>) -> Seq<char>;

/// `String::from_utf8_lossy`: what the bytes encode where they are UTF-8;
/// where they are not, bad sequences give way to a replacement character.
#[verifier::external_body]
pub(crate) fn utf8_lossy(bytes: &[u8]) -> (r: String)
    ensures
        r@ == lossy_text(bytes@),
        valid_utf8(bytes@) ==> r@ == decode_utf8(bytes@),
{
    String::from_utf8_lossy(bytes).to_string()
}

/// `std::path::Path::file_name`: the final component of a path, if it has one
/// and is not `..`. A slash at the end does not count, nor does a `.` behind
/// one. Whether a backslash parts components too, and which prefixes there are,
/// depends on the platform. So of a path with a backslash it is said that the
/// name stands behind the last slash, or behind the last slash or backslash, if
/// the path has no prefix and ends in a name; and of a path with a prefix only
/// that the name is a part of it, without a slash if there is no backslash.
#[verifier::external_body]
pub(crate) fn path_file_name(path: &str) -> (r: Option<String>)
    ensures
        r matches Some(n) ==> n@.len() > 0 && has_part(path@, n@),
        r matches Some(n) ==> (!path@.contains('\\') ==> !n@.contains('/')),
        plain_path(path@) ==> opt_text(r) == final_component(path@),
        unprefixed(path@) && ends_in_name(path@) ==> opt_text(r) == Some(last_part(path@))
            || opt_text(r) == Some(last_piece(path@)),
{
    std::path::Path::new(path).file_name().map(|n| n.to_string_lossy().to_string())
}

/// `std::path::Path::is_absolute`: whether a path stands for a place whatever
/// the current directory. It starts with a root on every platform, and on some
/// it needs a prefix as well; so a path that starts with a plain name does not.
#[verifier::external_body]
pub(crate) fn path_is_absolute(path: &str) -> (r: bool)
    ensures
        path@.len() == 0 ==> !r,
        plainly_relative(path@) ==> !r,
{
    std::path::Path::new(path).is_absolute()
}

} // verus!
