//! The LZ4 block codec, as far as the boundary relies on it.
//!
//! The codec is `lz4_flex`. Nothing in it is proved here: this module states
//! what the boundary takes on trust from its two entry points, and the sizes
//! up to which their arithmetic holds on the machine at hand.

use crate::frame::{declared_len, le_bytes};
use lz4_flex::block::DecompressError;
use vstd::prelude::*;

verus! {

/// The error of `lz4_flex::block::decompress_size_prepended`, carried through
/// unopened: the boundary tells failure from success and nothing more.
#[verifier::external_type_specification]
#[verifier::external_body]
pub struct ExDecompressError(DecompressError);

/// What `lz4_flex::block::decompress_size_prepended` makes of a frame: the
/// decoded bytes, or `None` where it reports an error. Decoding reads the
/// frame and nothing else, so equal frames decode alike.
pub uninterp spec fn lz4_decoded(frame: Seq<u8>) -> Option<Seq<u8>>;

/// The most bytes that a frame of `frame_len` bytes can stand for. In an LZ4
/// block a payload byte is a literal, which stands for itself; or part of a
/// token and its offset, three bytes that stand for at most 18; or one byte
/// of a length field, which stands for at most 255. So no payload stands for
/// more than 255 times its own length.
pub open spec fn max_decoded_len(frame_len: nat) -> nat {
    if frame_len <= 4 {
        0
    } else {
        255 * (frame_len - 4) as nat
    }
}

/// Input lengths for which the encoder can size its working buffer. It asks
/// for `24 + len * 110 / 100` bytes at once, computes the product in 64 bits,
/// and no allocation may exceed `isize::MAX`.
pub open spec fn encoder_fits(len: nat) -> bool {
    &&& len * 110 <= u64::MAX
    &&& len * 110 / 100 + 24 <= isize::MAX
}

/// Input lengths for which a frame of the input is sure to be within the
/// decoder's reach, however little the encoder could compress. On a 64-bit
/// machine these are all lengths that a prefix can hold.
pub open spec fn round_trip_fits(len: nat) -> bool {
    &&& encoder_fits(len)
    &&& decoder_fits_lens(24 + len * 110 / 100, len)
}

/// Frame and declared lengths for which the decoder's sums stay within a
/// machine word. It allocates `declared` bytes at once, and adds up length
/// fields byte by byte: a field is at most 255 times the payload's length,
/// and is added to a position within the output and to at most 19. With 64
/// bits this holds of every frame that fits in memory; with 32 bits it ends
/// at about 16 MiB of frame.
pub open spec fn decoder_fits_lens(frame_len: nat, declared: nat) -> bool {
    &&& 4 <= frame_len
    &&& declared <= isize::MAX
    &&& declared + 19 + 255 * (frame_len - 4) <= usize::MAX
}

/// Frames that are within the decoder's reach: see [`decoder_fits_lens`]. A
/// frame without a whole prefix is always within reach, and is refused.
pub open spec fn decoder_fits(frame: Seq<u8>) -> bool {
    match declared_len(frame) {
        Some(declared) => decoder_fits_lens(frame.len(), declared),
        None => true,
    }
}

/// What is known of a frame that the encoder made from `input`, whichever
/// bytes it chose for the payload.
pub open spec fn is_frame_of(frame: Seq<u8>, input: Seq<u8>) -> bool {
    &&& 4 < frame.len() <= 24 + input.len() * 110 / 100
    &&& input.len() <= max_decoded_len(frame.len())
    &&& frame.subrange(0, 4) == le_bytes(input.len())
    &&& input.len() <= u32::MAX && decoder_fits(frame) ==> lz4_decoded(frame) == Some(input)
}

/// `lz4_flex::block::compress_prepend_size`. Taken on trust: the result opens
/// with the input's length as four little-endian bytes (its low 32 bits where
/// the length is greater); a payload of at least one byte follows, since the
/// encoder always writes a token; the whole is no longer than the working
/// buffer that the encoder sized for it, and no shorter than the block format
/// allows (see [`max_decoded_len`]); and it decodes back to the input where
/// the prefix can hold the input's length. Which payload bytes come out is
/// left open: the encoder's hashing differs between machines. It is asked
/// only for inputs within its reach, since beyond it the size of its working
/// buffer overflows.
pub assume_specification[ lz4_flex::block::compress_prepend_size ](input: &[u8]) -> (frame: Vec<u8>)
    requires
        encoder_fits(input@.len()),
    ensures
        is_frame_of(frame@, input@),
;

/// `lz4_flex::block::decompress_size_prepended`. Taken on trust: it returns,
/// and what it returns is a function of the frame's bytes. It is asked only
/// for frames within its reach, since beyond it its sums may overflow. How
/// many bytes it decodes is not taken on trust: it may decode fewer than the
/// prefix declares, and the boundary counts them itself.
pub assume_specification[ lz4_flex::block::decompress_size_prepended ](input: &[u8]) -> (decoded:
    Result<Vec<u8>, DecompressError>)
    requires
        decoder_fits(input@),
    ensures
        match decoded {
            Ok(bytes) => lz4_decoded(input@) == Some(bytes@),
            Err(_) => lz4_decoded(input@) is None,
        },
;

/// Whether an input of `len` bytes is within the encoder's reach.
pub fn encoder_has_room(len: usize) -> (ok: bool)
    ensures
        ok == encoder_fits(len as nat),
{
    let n: u128 = len as u128;
    n * 110 <= u64::MAX as u128 && n * 110 / 100 + 24 <= isize::MAX as u128
}

/// Whether a frame of `frame_len` bytes that declares `declared` bytes is
/// within the decoder's reach.
pub fn decoder_has_room(frame_len: usize, declared: u32) -> (ok: bool)
    ensures
        ok == decoder_fits_lens(frame_len as nat, declared as nat),
{
    if frame_len < 4 {
        return false;
    }
    let d: u128 = declared as u128;
    let p: u128 = (frame_len - 4) as u128;
    d <= isize::MAX as u128 && d + 19 + 255 * p <= usize::MAX as u128
}

} // verus!
