//! Frames: how the bytes of a connection are cut into payloads.

use vstd::prelude::*;
use wacore::framing::FrameDecoder;

verus! {

/// A frame decoder of `wacore_noise`.
#[verifier::external_type_specification]
#[verifier::external_body]
pub struct ExFrameDecoder(wacore::framing::FrameDecoder);

/// The bytes that a decoder holds and has not given out yet.
pub uninterp spec fn buffered(decoder: wacore::framing::FrameDecoder) -> Seq<u8>;

/// How many bytes stand before each payload to tell its length.
pub const FRAME_LENGTH_SIZE: usize = 3;

/// The length that the first three bytes tell, the highest first.
pub open spec fn told_length(bytes: Seq<u8>) -> int {
    bytes[0] * 65536 + bytes[1] * 256 + bytes[2]
}

/// The first payload in some bytes, if the whole of it is there.
pub open spec fn first_frame(bytes: Seq<u8>) -> Option<Seq<u8>> {
    if bytes.len() >= FRAME_LENGTH_SIZE && bytes.len() >= FRAME_LENGTH_SIZE + told_length(bytes) {
        Some(bytes.subrange(FRAME_LENGTH_SIZE as int, FRAME_LENGTH_SIZE + told_length(bytes)))
    } else {
        None
    }
}

/// What is left of some bytes after the first payload was taken out.
pub open spec fn after_first(bytes: Seq<u8>) -> Seq<u8> {
    if first_frame(bytes) is Some {
        bytes.skip(FRAME_LENGTH_SIZE + told_length(bytes))
    } else {
        bytes
    }
}

/// Calls `FrameDecoder::new`: the decoder holds nothing.
#[verifier::external_body]
fn new_decoder() -> (r: FrameDecoder)
    ensures
        buffered(r) == Seq::<u8>::empty(),
{
    FrameDecoder::new()
}

/// Calls `FrameDecoder::feed`, which appends bytes to those that the decoder holds.
#[verifier::external_body]
fn feed_decoder(decoder: &mut FrameDecoder, data: &[u8])
    ensures
        buffered(*final(decoder)) == buffered(*old(decoder)) + data@,
{
    decoder.feed(data)
}

/// Calls `FrameDecoder::decode_frame`: three bytes tell the length of the payload behind them.
/// Where the whole payload is there, it is taken out and given back; otherwise nothing changes.
#[verifier::external_body]
fn next_payload(decoder: &mut FrameDecoder) -> (r: Option<Vec<u8>>)
    ensures
        match r {
            Some(payload) => first_frame(buffered(*old(decoder))) == Some(payload@),
            None => first_frame(buffered(*old(decoder))) is None,
        },
        buffered(*final(decoder)) == after_first(buffered(*old(decoder))),
{
    decoder.decode_frame().map(|payload| payload.to_vec())
}

/// Cuts the bytes of a connection into payloads.
pub struct FrameReader {
    decoder: FrameDecoder,
}

impl View for FrameReader {
    type V = Seq<u8>;

    closed spec fn view(&self) -> Seq<u8> {
        buffered(self.decoder)
    }
}

impl FrameReader {
    pub fn new() -> (r: FrameReader)
        ensures
            r@ == Seq::<u8>::empty(),
    {
        FrameReader { decoder: new_decoder() }
    }

    /// Takes in bytes as they come.
    pub fn feed(&mut self, data: &Vec<u8>)
        ensures
            final(self)@ == old(self)@ + data@,
    {
        feed_decoder(&mut self.decoder, data.as_slice());
    }

    /// The next payload, if the whole of it is there.
    pub fn next_frame(&mut self) -> (r: Option<Vec<u8>>)
        ensures
            match r {
                Some(payload) => first_frame(old(self)@) == Some(payload@),
                None => first_frame(old(self)@) is None,
            },
            final(self)@ == after_first(old(self)@),
    {
        next_payload(&mut self.decoder)
    }
}

/// A payload with its length in front.
pub open spec fn framed(payload: Seq<u8>) -> Seq<u8> {
    seq![
        (payload.len() / 65536) as u8,
        ((payload.len() / 256) % 256) as u8,
        (payload.len() % 256) as u8,
    ] + payload
}

/// The reader gives back what was framed, whatever follows it.
pub proof fn reader_gives_back_frame(payload: Seq<u8>, rest: Seq<u8>)
    requires
        payload.len() < 0x100_0000,
    ensures
        first_frame(framed(payload) + rest) == Some(payload),
        after_first(framed(payload) + rest) == rest,
{
    let bytes = framed(payload) + rest;
    let n = payload.len();
    assert(n / 65536 < 256);
    assert(told_length(bytes) == n) by {
        assert(bytes[0] as int == n / 65536);
        assert(bytes[1] as int == (n / 256) % 256);
        assert(bytes[2] as int == n % 256);
    }
    assert(bytes.subrange(3, 3 + n as int) =~= payload);
    assert(bytes.skip(3 + n as int) =~= rest);
}

/// It does not matter how the bytes of a connection are cut up on the way: a payload that is
/// there before more bytes come is the same one afterwards.
pub proof fn frames_do_not_depend_on_chunks(bytes: Seq<u8>, more: Seq<u8>)
    requires
        first_frame(bytes) is Some,
    ensures
        first_frame(bytes + more) == first_frame(bytes),
        after_first(bytes + more) == after_first(bytes) + more,
{
    assert(told_length(bytes + more) == told_length(bytes));
    let n = FRAME_LENGTH_SIZE + told_length(bytes);
    assert((bytes + more).subrange(FRAME_LENGTH_SIZE as int, n) =~= bytes.subrange(
        FRAME_LENGTH_SIZE as int,
        n,
    ));
    assert((bytes + more).skip(n) =~= bytes.skip(n) + more);
}

/// A payload comes out exactly where all of its bytes are there: as many as the three bytes in
/// front of it tell, in the order in which they stand. Until then nothing is taken out.
pub proof fn payloads_come_out_whole(bytes: Seq<u8>)
    ensures
        bytes.len() < 3 ==> first_frame(bytes) is None,
        bytes.len() >= 3 ==> {
            let length = bytes[0] * 65536 + bytes[1] * 256 + bytes[2];
            &&& first_frame(bytes) is Some <==> bytes.len() - 3 >= length
            &&& first_frame(bytes) matches Some(payload) ==> payload.len() == length && bytes
                == bytes.take(3) + payload + after_first(bytes)
        },
        first_frame(bytes) is None ==> after_first(bytes) == bytes,
{
    if bytes.len() >= 3 {
        let length = bytes[0] * 65536 + bytes[1] * 256 + bytes[2];
        if bytes.len() - 3 >= length {
            let payload = bytes.subrange(3, 3 + length);
            assert(first_frame(bytes) == Some(payload));
            assert(bytes =~= bytes.take(3) + payload + bytes.skip(3 + length));
        }
    }
}

} // verus!
