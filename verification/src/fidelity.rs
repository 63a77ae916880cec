//! Round-trip fidelity, and what becomes of frames that are not well formed.
//!
//! The statements here are about the two operations together. They rest on
//! what [`crate::codec`] takes on trust of the codec, and on nothing else.

use crate::boundary::{
    decode_reply, encode_allows, frame_reply, is_plausible, OutcomeView, RawBufferView,
};
use crate::codec::{
    decoder_fits_lens, encoder_fits, lz4_decoded, max_decoded_len, round_trip_fits,
};
use crate::frame::{declared_len, le_bytes, lemma_le_value_of_le_bytes};
use vstd::prelude::*;

verus! {

/// A frame that decompression accepts: it is plausible, and the codec
/// decodes it to as many bytes as the prefix declares, and at least one.
pub open spec fn is_well_formed(frame: Seq<u8>) -> bool {
    &&& is_plausible(frame)
    &&& declared_len(frame) matches Some(declared)
    &&& lz4_decoded(frame) matches Some(bytes)
    &&& bytes.len() == declared
    &&& declared > 0
}

/// Decompressing what compression gave returns the input, byte for byte.
///
/// For every non-empty input whose length the prefix can hold, and whatever
/// frame the codec chose for it, shorter than the input or not: compression
/// answers with a buffer, and decompression of that buffer answers with a
/// buffer that holds the input. The lengths must be within both codecs'
/// reach on the machine at hand, which on a 64-bit machine they always are
/// ([`lemma_round_trip_fits_in_64_bits`]).
pub proof fn lemma_round_trip(input: Seq<u8>, encoded: OutcomeView)
    requires
        0 < input.len() <= u32::MAX,
        round_trip_fits(input.len()),
        encode_allows(RawBufferView::Bytes(input), true, encoded),
    ensures
        encoded matches OutcomeView::Buffer(frame) && decode_reply(
            RawBufferView::Bytes(frame),
            true,
        ) == OutcomeView::Buffer(input),
{
    let frame = encoded->Buffer_0;
    lemma_le_value_of_le_bytes(input.len());
    assert(declared_len(frame) == Some(input.len()));
    assert(decoder_fits_lens(frame.len(), input.len())) by {
        assert(255 * (frame.len() - 4) <= 255 * (24 + input.len() * 110 / 100 - 4));
    }
}

/// Compression does not fail for want of shrinking. Every non-empty input
/// within the encoder's reach gets a buffer, and the reported length is that
/// buffer's length, whether the frame came out shorter than the input, as
/// long, or longer. The frame holds a payload behind its prefix, is no longer
/// than the encoder's working buffer, and opens with the input's length,
/// which is what it declares wherever a prefix can hold that length.
pub proof fn lemma_expansion_is_no_failure(input: Seq<u8>, encoded: OutcomeView)
    requires
        0 < input.len(),
        encoder_fits(input.len()),
        encode_allows(RawBufferView::Bytes(input), true, encoded),
    ensures
        encoded matches OutcomeView::Buffer(frame) && {
            &&& 4 < frame.len() <= 24 + input.len() * 110 / 100
            &&& encoded.reported_len() == Some(frame.len())
            &&& frame.subrange(0, 4) == le_bytes(input.len())
            &&& input.len() <= u32::MAX ==> declared_len(frame) == Some(input.len())
        },
{
    if input.len() <= u32::MAX {
        lemma_le_value_of_le_bytes(input.len());
    }
}

/// A frame that is no shorter than its input decompresses to that input all
/// the same: where the codec could not shrink the input, the round trip is
/// as exact as anywhere else, and the reported length is the input's.
pub proof fn lemma_unshrunk_input_round_trips(input: Seq<u8>, frame: Seq<u8>)
    requires
        0 < input.len() <= u32::MAX,
        round_trip_fits(input.len()),
        encode_allows(RawBufferView::Bytes(input), true, OutcomeView::Buffer(frame)),
        frame.len() >= input.len(),
    ensures
        decode_reply(RawBufferView::Bytes(frame), true) == OutcomeView::Buffer(input),
        decode_reply(RawBufferView::Bytes(frame), true).reported_len() == Some(input.len()),
{
    lemma_round_trip(input, OutcomeView::Buffer(frame));
}

/// Two independent compressions of one input may differ in their bytes, and
/// still both decompress to that input.
pub proof fn lemma_encodings_agree(input: Seq<u8>, first: OutcomeView, second: OutcomeView)
    requires
        0 < input.len() <= u32::MAX,
        round_trip_fits(input.len()),
        encode_allows(RawBufferView::Bytes(input), true, first),
        encode_allows(RawBufferView::Bytes(input), true, second),
    ensures
        first matches OutcomeView::Buffer(frame1) && second matches OutcomeView::Buffer(frame2)
            && decode_reply(RawBufferView::Bytes(frame1), true) == OutcomeView::Buffer(input)
            && decode_reply(RawBufferView::Bytes(frame2), true) == OutcomeView::Buffer(input),
{
    lemma_round_trip(input, first);
    lemma_round_trip(input, second);
}

/// On a 64-bit machine, every length that a prefix can hold is within reach
/// of both directions.
pub proof fn lemma_round_trip_fits_in_64_bits(len: nat)
    requires
        len <= u32::MAX,
        usize::MAX == u64::MAX,
    ensures
        round_trip_fits(len),
{
}

/// Decompression gives a buffer for well-formed frames and for nothing else:
/// with a usable length slot, a frame that is not well formed gives no
/// buffer and a length of zero, and a well-formed one gives what the codec
/// decodes it to, which is as long as its prefix declares.
pub proof fn lemma_only_well_formed_frames_decode(frame: Seq<u8>)
    ensures
        !is_well_formed(frame) ==> decode_reply(RawBufferView::Bytes(frame), true)
            == OutcomeView::Empty,
        is_well_formed(frame) ==> decode_reply(RawBufferView::Bytes(frame), true)
            == OutcomeView::Buffer(lz4_decoded(frame)->Some_0) && declared_len(frame) == Some(
            lz4_decoded(frame)->Some_0.len(),
        ),
{
}

/// A frame that stops within its prefix, or right after it with the payload
/// missing entirely, is not well formed, whatever its prefix declares.
pub proof fn lemma_truncated_frame_is_not_well_formed(frame: Seq<u8>)
    requires
        frame.len() <= 4,
    ensures
        !is_well_formed(frame),
        frame_reply(frame) == OutcomeView::Empty,
{
}

/// A frame whose prefix declares more than its payload can stand for is not
/// well formed, whatever the payload holds.
pub proof fn lemma_overdeclared_frame_is_not_well_formed(frame: Seq<u8>, declared: nat)
    requires
        declared_len(frame) == Some(declared),
        declared > max_decoded_len(frame.len()),
    ensures
        !is_well_formed(frame),
        frame_reply(frame) == OutcomeView::Empty,
{
}

} // verus!
