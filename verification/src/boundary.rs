//! The three operations, and what crosses the boundary with them.
//!
//! A call takes the caller's buffer as a [`RawBuffer`] and says whether the
//! caller's length slot can be written. It answers with an [`Outcome`], which
//! the caller's side of the boundary carries out: it asks the shared
//! allocator for room where a buffer is due, tells the outcome whether room
//! was granted ([`Outcome::settle`]), writes the length that the settled
//! outcome reports, and hands the bytes over.

use crate::codec::{
    decoder_fits_lens, decoder_has_room, encoder_fits, encoder_has_room, is_frame_of, lz4_decoded,
    max_decoded_len,
};
use crate::frame::{declared_len, read_declared_len, PREFIX_LEN};
use vstd::prelude::*;

verus! {

/// A caller's buffer as it arrives at the boundary: a handle and a length.
/// The caller keeps it; a call only reads it.
#[derive(Clone, Copy, Debug)]
pub enum RawBuffer<'a> {
    /// A null handle, with the length that the caller gave for it.
    Null(usize),
    /// A handle to readable bytes; their number is the buffer's length.
    Bytes(&'a [u8]),
}

/// A [`RawBuffer`] as contracts see it.
pub enum RawBufferView {
    Null(nat),
    Bytes(Seq<u8>),
}

impl RawBufferView {
    /// The length that the caller gave.
    pub open spec fn len(self) -> nat {
        match self {
            RawBufferView::Null(len) => len,
            RawBufferView::Bytes(bytes) => bytes.len(),
        }
    }

    /// Whether the handle is null.
    pub open spec fn is_null(self) -> bool {
        self is Null
    }

    /// The bytes behind the handle; none behind a null handle.
    pub open spec fn bytes(self) -> Seq<u8> {
        match self {
            RawBufferView::Null(_) => Seq::empty(),
            RawBufferView::Bytes(bytes) => bytes,
        }
    }
}

impl<'a> View for RawBuffer<'a> {
    type V = RawBufferView;

    open spec fn view(&self) -> RawBufferView {
        match *self {
            RawBuffer::Null(len) => RawBufferView::Null(len as nat),
            RawBuffer::Bytes(bytes) => RawBufferView::Bytes(bytes@),
        }
    }
}

/// What a caller finds after a call.
#[derive(Debug, PartialEq, Eq)]
pub enum Outcome {
    /// No buffer, and the length slot left as it was. This is the outcome
    /// of a call whose length slot cannot be written, and of no other: not
    /// even a length of zero can be reported, and nothing was allocated.
    Rejected,
    /// No buffer, and a length of zero. The input was empty, or its handle
    /// was null, or the call failed: the frame was malformed, the codec
    /// reported an error, or the shared allocator had no room. These are not
    /// told apart.
    Empty,
    /// A fresh buffer that now belongs to the caller, and its length.
    Buffer(Vec<u8>),
}

/// An [`Outcome`] as contracts see it.
pub enum OutcomeView {
    Rejected,
    Empty,
    Buffer(Seq<u8>),
}

impl OutcomeView {
    /// The length written to the caller's slot; `None` where the slot is
    /// left untouched.
    pub open spec fn reported_len(self) -> Option<nat> {
        match self {
            OutcomeView::Rejected => None,
            OutcomeView::Empty => Some(0),
            OutcomeView::Buffer(bytes) => Some(bytes.len()),
        }
    }

    /// The bytes behind the returned handle; `None` where it is null.
    pub open spec fn buffer(self) -> Option<Seq<u8>> {
        match self {
            OutcomeView::Buffer(bytes) => Some(bytes),
            _ => None,
        }
    }

    /// The outcome once the shared allocator has answered: without room a
    /// buffer cannot be handed over, and the call fails like any other.
    pub open spec fn settled(self, room_granted: bool) -> OutcomeView {
        if self is Buffer && !room_granted {
            OutcomeView::Empty
        } else {
            self
        }
    }
}

impl View for Outcome {
    type V = OutcomeView;

    open spec fn view(&self) -> OutcomeView {
        match *self {
            Outcome::Rejected => OutcomeView::Rejected,
            Outcome::Empty => OutcomeView::Empty,
            Outcome::Buffer(bytes) => OutcomeView::Buffer(bytes@),
        }
    }
}

impl<'a> RawBuffer<'a> {
    /// The length that the caller gave.
    pub fn len(&self) -> (len: usize)
        ensures
            len == self@.len(),
    {
        match *self {
            RawBuffer::Null(len) => len,
            RawBuffer::Bytes(bytes) => bytes.len(),
        }
    }

    /// Whether the handle is null.
    pub fn is_null(&self) -> (null: bool)
        ensures
            null == self@.is_null(),
    {
        match *self {
            RawBuffer::Null(_) => true,
            RawBuffer::Bytes(_) => false,
        }
    }
}

impl Outcome {
    /// The length to write to the caller's slot; `None` where the slot is to
    /// be left untouched. With a buffer it is the buffer's length exactly.
    pub fn reported_len(&self) -> (len: Option<u64>)
        ensures
            match len {
                Some(n) => self@.reported_len() == Some(n as nat),
                None => self@.reported_len() is None,
            },
    {
        match self {
            Outcome::Rejected => None,
            Outcome::Empty => Some(0),
            Outcome::Buffer(bytes) => Some(bytes.len() as u64),
        }
    }

    /// The bytes to hand over; `None` where the returned handle is null.
    pub fn buffer(&self) -> (bytes: Option<&[u8]>)
        ensures
            match bytes {
                Some(b) => self@.buffer() == Some(b@),
                None => self@.buffer() is None,
            },
    {
        match self {
            Outcome::Buffer(bytes) => Some(bytes.as_slice()),
            _ => None,
        }
    }

    /// Gives up the outcome for the buffer in it, if there is one.
    pub fn into_buffer(self) -> (bytes: Option<Vec<u8>>)
        ensures
            match bytes {
                Some(b) => self@.buffer() == Some(b@),
                None => self@.buffer() is None,
            },
    {
        match self {
            Outcome::Buffer(bytes) => Some(bytes),
            _ => None,
        }
    }

    /// Takes the shared allocator's answer into account. Where a buffer is
    /// due and no room was granted, the caller gets no buffer and a length of
    /// zero; every other outcome stands.
    pub fn settle(self, room_granted: bool) -> (settled: Outcome)
        ensures
            settled@ == self@.settled(room_granted),
    {
        match self {
            Outcome::Buffer(bytes) => {
                if room_granted {
                    Outcome::Buffer(bytes)
                } else {
                    Outcome::Empty
                }
            },
            other => other,
        }
    }
}

/// How a call ends before the codec is asked, if it ends there; both
/// operations begin alike. Without a usable length slot nothing can be
/// reported: that is the one case in which the slot is left as it was. With
/// one, a buffer of length zero gives the empty outcome, whatever its handle,
/// and so does a null handle, whatever its length: nothing is read through
/// it, and nothing is allocated.
pub open spec fn short_circuit(input: RawBufferView, slot_usable: bool) -> Option<OutcomeView> {
    if !slot_usable {
        Some(OutcomeView::Rejected)
    } else if input.len() == 0 || input.is_null() {
        Some(OutcomeView::Empty)
    } else {
        None
    }
}

/// Either the bytes to work on, or the outcome that ends the call at once.
fn take_up<'a>(input: RawBuffer<'a>, slot_usable: bool) -> (taken: Result<&'a [u8], Outcome>)
    ensures
        match taken {
            Ok(bytes) => short_circuit(input@, slot_usable) is None && input@
                == RawBufferView::Bytes(bytes@),
            Err(early) => short_circuit(input@, slot_usable) == Some(early@),
        },
{
    if !slot_usable {
        return Err(Outcome::Rejected);
    }
    match input {
        RawBuffer::Null(_) => Err(Outcome::Empty),
        RawBuffer::Bytes(bytes) => {
            if bytes.len() == 0 {
                Err(Outcome::Empty)
            } else {
                Ok(bytes)
            }
        },
    }
}

/// The outcome of compression once the codec has produced `frame`.
pub open spec fn sealed(frame: Seq<u8>) -> OutcomeView {
    if frame.len() == 0 {
        OutcomeView::Empty
    } else {
        OutcomeView::Buffer(frame)
    }
}

/// Turns what the encoder produced into an outcome: the frame itself, unless
/// it is empty, which counts as a failure.
pub fn seal(frame: Vec<u8>) -> (outcome: Outcome)
    ensures
        outcome@ == sealed(frame@),
{
    if frame.len() == 0 {
        Outcome::Empty
    } else {
        Outcome::Buffer(frame)
    }
}

/// The outcomes that compression may have. Past the short circuits, an input
/// beyond the encoder's reach fails; any other input yields a frame of it.
/// Which frame is the codec's choice.
pub open spec fn encode_allows(
    input: RawBufferView,
    slot_usable: bool,
    outcome: OutcomeView,
) -> bool {
    match short_circuit(input, slot_usable) {
        Some(early) => outcome == early,
        None => if encoder_fits(input.len()) {
            outcome matches OutcomeView::Buffer(frame) && is_frame_of(frame, input.bytes())
        } else {
            outcome == OutcomeView::Empty
        },
    }
}

/// Compresses the caller's bytes into a frame: their number as four
/// little-endian bytes, then the compressed payload.
///
/// The call is rejected, with nothing reported, where the length slot cannot
/// be written. With a usable slot, an input of length zero and an input
/// behind a null handle give the empty outcome. Any other input gives a
/// buffer that holds a frame of it, whether or not the frame is shorter than
/// the input, unless the input is too long for the encoder to size its
/// working buffer ([`encoder_fits`]; on a 64-bit machine: above about 2^57
/// bytes), which fails with the empty outcome.
pub fn lz4_compress(input: RawBuffer<'_>, slot_usable: bool) -> (outcome: Outcome)
    ensures
        encode_allows(input@, slot_usable, outcome@),
{
    match take_up(input, slot_usable) {
        Err(early) => early,
        Ok(bytes) => {
            if !encoder_has_room(bytes.len()) {
                return Outcome::Empty;
            }
            let frame = lz4_flex::block::compress_prepend_size(bytes);
            seal(frame)
        },
    }
}

/// The outcome of decompression once the codec has answered: the decoded
/// bytes where there are as many of them as the frame declared, and at least
/// one. A codec error, a count that differs from the declared one, and an
/// empty result all fail alike.
pub open spec fn unsealed(declared: nat, decoded: Option<Seq<u8>>) -> OutcomeView {
    match decoded {
        Some(bytes) => if bytes.len() == declared && bytes.len() > 0 {
            OutcomeView::Buffer(bytes)
        } else {
            OutcomeView::Empty
        },
        None => OutcomeView::Empty,
    }
}

/// The bytes of a decoding, if there is one.
pub open spec fn decoded_view(decoded: Option<Vec<u8>>) -> Option<Seq<u8>> {
    match decoded {
        Some(bytes) => Some(bytes@),
        None => None,
    }
}

/// Turns the decoder's answer for a frame that declared `declared` bytes
/// into an outcome.
pub fn unseal(declared: u32, decoded: Option<Vec<u8>>) -> (outcome: Outcome)
    ensures
        outcome@ == unsealed(declared as nat, decoded_view(decoded)),
{
    match decoded {
        Some(bytes) => {
            if bytes.len() > 0 && bytes.len() == declared as usize {
                Outcome::Buffer(bytes)
            } else {
                Outcome::Empty
            }
        },
        None => Outcome::Empty,
    }
}

/// Whether a frame of `frame_len` bytes that declares `declared` bytes is
/// worth handing to the codec: a payload follows the prefix, the
/// prefix declares no more than that payload can stand for, and the frame is
/// within the decoder's reach.
pub open spec fn plausible_lens(frame_len: nat, declared: nat) -> bool {
    &&& frame_len > 4
    &&& declared <= max_decoded_len(frame_len)
    &&& decoder_fits_lens(frame_len, declared)
}

/// Whether a frame is worth handing to the codec: it has a whole prefix, and
/// its lengths are plausible.
pub open spec fn is_plausible(frame: Seq<u8>) -> bool {
    &&& declared_len(frame) matches Some(declared)
    &&& plausible_lens(frame.len(), declared)
}

/// What decompression makes of the bytes of a frame. A frame that is not
/// plausible fails before the codec sees it; otherwise the codec's answer
/// decides, as [`unsealed`] says.
pub open spec fn frame_reply(frame: Seq<u8>) -> OutcomeView {
    match declared_len(frame) {
        Some(declared) => if is_plausible(frame) {
            unsealed(declared, lz4_decoded(frame))
        } else {
            OutcomeView::Empty
        },
        None => OutcomeView::Empty,
    }
}

/// Decides [`plausible_lens`]. Nothing is allocated for a frame that fails
/// here, whatever its prefix claims.
pub fn check_plausible(frame_len: usize, declared: u32) -> (ok: bool)
    ensures
        ok == plausible_lens(frame_len as nat, declared as nat),
{
    if frame_len <= PREFIX_LEN {
        return false;
    }
    let most: u128 = 255 * ((frame_len - PREFIX_LEN) as u128);
    declared as u128 <= most && decoder_has_room(frame_len, declared)
}

/// The outcome of decompression.
pub open spec fn decode_reply(input: RawBufferView, slot_usable: bool) -> OutcomeView {
    match short_circuit(input, slot_usable) {
        Some(early) => early,
        None => frame_reply(input.bytes()),
    }
}

/// Decompresses a frame into the bytes it was made from.
///
/// The short circuits are those of [`lz4_compress`]. Past them, the call
/// gives a buffer exactly where all of these hold: the frame has a whole
/// prefix and a payload that can stand for as much as the prefix declares;
/// the frame is within the decoder's reach on the machine at hand
/// ([`decoder_fits_lens`]); the codec decodes it without error; and the
/// decoded bytes are as many as the prefix declares and at least one.
/// Everything else gives the empty outcome. No byte outside the given frame
/// is read, and no more than 255 times the frame's length is ever allocated
/// for it.
///
/// The decoder's reach is a limit of the machine word. On a 64-bit machine
/// no frame that fits in memory is beyond it. On a 32-bit machine it ends at
/// about 16 MiB of frame, less one 255th of the declared length, and at a
/// declared length of `isize::MAX`: a frame beyond that gives the empty
/// outcome there even where it is valid.
pub fn lz4_decompress(input: RawBuffer<'_>, slot_usable: bool) -> (outcome: Outcome)
    ensures
        outcome@ == decode_reply(input@, slot_usable),
{
    match take_up(input, slot_usable) {
        Err(early) => early,
        Ok(frame) => {
            match read_declared_len(frame) {
                Some(declared) => {
                    if !check_plausible(frame.len(), declared) {
                        return Outcome::Empty;
                    }
                    let decoded = match lz4_flex::block::decompress_size_prepended(frame) {
                        Ok(bytes) => Some(bytes),
                        Err(_) => None,
                    };
                    unseal(declared, decoded)
                },
                None => Outcome::Empty,
            }
        },
    }
}

/// Takes back a buffer that [`lz4_compress`] or [`lz4_decompress`] handed
/// out. Without a buffer there is nothing to do. The buffer is given up by
/// value, so it cannot be read or released again afterwards.
pub fn lz4_free(buffer: Option<Vec<u8>>) {
    match buffer {
        Some(bytes) => {
            let _released: Vec<u8> = bytes;
        },
        None => {},
    }
}

} // verus!
