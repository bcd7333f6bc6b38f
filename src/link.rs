use vstd::prelude::*;
use vstd::utf8::{decode_utf8, encode_utf8, encode_utf8_decode_utf8, encode_utf8_valid_utf8, valid_utf8};
use crate::error::MemFileError;

verus! {

/// What a link file holds for an identifier: its UTF-8 bytes, nothing else.
pub open spec fn spec_link_bytes(id: Seq<char>) -> Seq<u8> {
    encode_utf8(id)
}

/// The identifier that a link file's bytes give, or why they give none: an
/// empty file, and bytes that are not UTF-8, are both decode errors.
pub open spec fn spec_parse_link(b: Seq<u8>) -> Result<Seq<char>, MemFileError> {
    if b.len() == 0 || !valid_utf8(b) {
        Err(MemFileError::Utf8Error)
    } else {
        Ok(decode_utf8(b))
    }
}

/// The bytes to write into a link file for the identifier `id`.
pub fn link_contents(id: &String) -> (r: Vec<u8>)
    ensures
        r@ == spec_link_bytes(id@),
{
    id.as_str().as_bytes_vec()
}

/// Relies on `String::from_utf8`: it succeeds exactly on valid UTF-8, and
/// then holds the characters that the bytes encode.
#[verifier::external_body]
fn utf8_string(b: Vec<u8>) -> (r: Option<String>)
    ensures
        r is Some <==> valid_utf8(b@),
        r is Some ==> r->Some_0@ == decode_utf8(b@),
{
    String::from_utf8(b).ok()
}

/// Reads the identifier out of the bytes of a link file.
pub fn parse_link(b: Vec<u8>) -> (r: Result<String, MemFileError>)
    ensures
        r is Ok <==> spec_parse_link(b@) is Ok,
        r is Ok ==> spec_parse_link(b@) == Ok::<Seq<char>, MemFileError>(r->Ok_0@),
        r is Err ==> r == Err::<String, MemFileError>(MemFileError::Utf8Error),
{
    if b.len() == 0 {
        return Err(MemFileError::Utf8Error);
    }
    match utf8_string(b) {
        Some(s) => Ok(s),
        None => Err(MemFileError::Utf8Error),
    }
}

/// Judges the write of `expected` identifier bytes into a link file, given
/// how many bytes the write reported, or `None` where it failed outright.
pub fn check_written(written: Option<usize>, expected: usize) -> (r: Result<(), MemFileError>)
    ensures
        written is None ==> r == Err::<(), MemFileError>(MemFileError::IoFailure),
        written is Some && written->Some_0 != expected ==> r == Err::<(), MemFileError>(MemFileError::PartialWrite),
        written == Some(expected) ==> r is Ok,
{
    match written {
        None => Err(MemFileError::IoFailure),
        Some(n) => if n == expected {
            Ok(())
        } else {
            Err(MemFileError::PartialWrite)
        },
    }
}

/// A non-empty identifier written into a link file reads back unchanged.
pub proof fn lemma_link_round_trip(id: Seq<char>)
    requires
        id.len() > 0,
    ensures
        spec_parse_link(spec_link_bytes(id)) == Ok::<Seq<char>, MemFileError>(id),
{
    encode_utf8_valid_utf8(id);
    encode_utf8_decode_utf8(id);
    if encode_utf8(id).len() == 0 {
        assert(decode_utf8(encode_utf8(id)).len() == 0);
    }
}

} // verus!
