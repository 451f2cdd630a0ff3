//! Program decoding: a program file is a little-endian stream of 16-bit
//! words, optionally gzip-compressed.

use vstd::prelude::*;

verus! {

/// The word encoded by two little-endian bytes.
pub open spec fn le_word(lo: u8, hi: u8) -> u16 {
    (lo + hi * 256) as u16
}

/// The words of a little-endian byte stream; a trailing odd byte is dropped.
pub open spec fn words_of(bytes: Seq<u8>) -> Seq<u16> {
    Seq::new(bytes.len() / 2, |i: int| le_word(bytes[2 * i], bytes[2 * i + 1]))
}

/// What gzip decompression yields on a valid stream: a pure function of the
/// input bytes.
pub uninterp spec fn gunzip_of(bytes: Seq<u8>) -> Seq<u8>;

/// Whether the bytes are a gzip stream that decompresses cleanly: like the
/// decompression result itself, a pure function of the input bytes.
pub uninterp spec fn gunzip_ok(bytes: Seq<u8>) -> bool;

/// Relies on flate2::read::GzDecoder: decompresses a gzip stream, a pure
/// function of the input bytes; an invalid stream is reported as an error,
/// and which of the two happens depends on the bytes alone.
#[verifier::external_body]
fn gunzip(bytes: &Vec<u8>) -> (decompressed: Option<Vec<u8>>)
    ensures
        decompressed is Some <==> gunzip_ok(bytes@),
        decompressed matches Some(d) ==> d@ == gunzip_of(bytes@),
{
    let mut decoder = flate2::read::GzDecoder::new(bytes.as_slice());
    let mut out: Vec<u8> = Vec::new();
    match std::io::Read::read_to_end(&mut decoder, &mut out) {
        Ok(_) => Some(out),
        Err(_) => None,
    }
}

/// Decodes a plain little-endian word stream.
pub fn words_from_le_bytes(bytes: &Vec<u8>) -> (words: Vec<u16>)
    ensures
        words@ == words_of(bytes@),
{
    let mut words: Vec<u16> = Vec::new();
    let mut i: usize = 0;
    while i + 1 < bytes.len()
        invariant
            i % 2 == 0,
            i <= bytes@.len(),
            words@.len() == i / 2,
            forall|k: int|
                0 <= k < words@.len() ==> words@[k] == le_word(bytes@[2 * k], bytes@[2 * k + 1]),
        decreases bytes@.len() - i,
    {
        let lo = bytes[i];
        let hi = bytes[i + 1];
        let word: u16 = lo as u16 + (hi as u16) * 256;
        words.push(word);
        i = i + 2;
    }
    proof {
        assert(words@ =~= words_of(bytes@));
    }
    words
}

/// Decodes a gzip-compressed little-endian word stream; exactly the streams
/// that decompress cleanly yield words, any other input is reported as
/// `None`.
pub fn words_from_gz_bytes(bytes: &Vec<u8>) -> (words: Option<Vec<u16>>)
    ensures
        words is Some <==> gunzip_ok(bytes@),
        words matches Some(w) ==> w@ == words_of(gunzip_of(bytes@)),
{
    match gunzip(bytes) {
        Some(decompressed) => Some(words_from_le_bytes(&decompressed)),
        None => None,
    }
}

} // verus!
