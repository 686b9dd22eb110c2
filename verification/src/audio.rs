//! PCM16 audio rules: WAV wrapping of committed buffers, cutting
//! synthesized samples into half-second frames, and framing a streamed
//! PCM byte source into fixed 3200-byte deltas.
use vstd::prelude::*;
use vstd::bytes::{spec_u16_to_le_bytes, spec_u32_to_le_bytes, u16_to_le_bytes, u32_to_le_bytes};
use vstd::bytes::lemma_auto_spec_u16_to_from_le_bytes;
use crate::events::ServerEvent;
use crate::outside::{base64_decoding, base64_of, encode_base64, fresh_id};
use crate::FRAME_BYTES;
use crate::FRAME_SAMPLES;

verus! {

/// The 44-byte RIFF/WAVE header for mono PCM16 data of `data_len`
/// bytes at `rate` samples per second.
pub open spec fn wav_header(rate: u32, data_len: int) -> Seq<u8>
    recommends
        0 <= data_len <= 0xFFFF_FFFF - 36,
        rate <= 0x7FFF_FFFF,
{
    seq![0x52u8, 0x49u8, 0x46u8, 0x46u8]  // "RIFF"
     + spec_u32_to_le_bytes((data_len + 36) as u32) + seq![
        0x57u8,
        0x41u8,
        0x56u8,
        0x45u8,
    ]  // "WAVE"
     + seq![0x66u8, 0x6du8, 0x74u8, 0x20u8]  // "fmt "
     + spec_u32_to_le_bytes(16u32) + spec_u16_to_le_bytes(1u16)  // PCM
     + spec_u16_to_le_bytes(1u16)  // mono
     + spec_u32_to_le_bytes(rate) + spec_u32_to_le_bytes(((rate * 2) as u32))  // byte rate
     + spec_u16_to_le_bytes(2u16)  // block align
     + spec_u16_to_le_bytes(16u16)  // bits per sample
     + seq![0x64u8, 0x61u8, 0x74u8, 0x61u8]  // "data"
     + spec_u32_to_le_bytes(data_len as u32)
}

/// `pcm` wrapped in a RIFF/WAVE container at `rate`.
pub open spec fn wav_wrap_spec(rate: u32, pcm: Seq<u8>) -> Seq<u8> {
    wav_header(rate, pcm.len() as int) + pcm
}

/// Wrap raw mono PCM16 bytes in a RIFF/WAVE container at `rate`.
pub fn wav_wrap(pcm: &Vec<u8>, rate: u32) -> (r: Vec<u8>)
    requires
        pcm@.len() + 44 <= 0xFFFF_FFFF,
        rate <= 0x7FFF_FFFF,
    ensures
        r@ == wav_wrap_spec(rate, pcm@),
        r@.len() == pcm@.len() + 44,
{
    let data_len = pcm.len() as u32;
    let mut out: Vec<u8> = Vec::new();
    out.push(0x52u8);
    out.push(0x49u8);
    out.push(0x46u8);
    out.push(0x46u8);
    let mut riff_len = u32_to_le_bytes(data_len + 36);
    out.append(&mut riff_len);
    out.push(0x57u8);
    out.push(0x41u8);
    out.push(0x56u8);
    out.push(0x45u8);
    out.push(0x66u8);
    out.push(0x6du8);
    out.push(0x74u8);
    out.push(0x20u8);
    let mut fmt_len = u32_to_le_bytes(16u32);
    out.append(&mut fmt_len);
    let mut fmt_tag = u16_to_le_bytes(1u16);
    out.append(&mut fmt_tag);
    let mut channels = u16_to_le_bytes(1u16);
    out.append(&mut channels);
    let mut rate_bytes = u32_to_le_bytes(rate);
    out.append(&mut rate_bytes);
    let mut byte_rate = u32_to_le_bytes(rate * 2);
    out.append(&mut byte_rate);
    let mut block_align = u16_to_le_bytes(2u16);
    out.append(&mut block_align);
    let mut bits = u16_to_le_bytes(16u16);
    out.append(&mut bits);
    out.push(0x64u8);
    out.push(0x61u8);
    out.push(0x74u8);
    out.push(0x61u8);
    let mut data_len_bytes = u32_to_le_bytes(data_len);
    out.append(&mut data_len_bytes);
    proof {
        assert(out@ =~= wav_header(rate, pcm@.len() as int));
        lemma_auto_spec_u16_to_from_le_bytes();
    }
    let mut k: usize = 0;
    let ghost header = out@;
    while k < pcm.len()
        invariant
            0 <= k <= pcm@.len(),
            out@ == header + pcm@.subrange(0, k as int),
        decreases pcm@.len() - k,
    {
        out.push(pcm[k]);
        proof {
            assert(header + pcm@.subrange(0, k + 1) =~= (header + pcm@.subrange(0, k as int)).push(
                pcm@[k as int],
            ));
        }
        k = k + 1;
    }
    proof {
        assert(pcm@.subrange(0, pcm@.len() as int) =~= pcm@);
    }
    out
}

/// The little-endian bytes of `s`, two per sample.
pub open spec fn le_bytes_of_samples(s: Seq<i16>) -> Seq<u8>
    decreases s.len(),
{
    if s.len() == 0 {
        Seq::empty()
    } else {
        le_bytes_of_samples(s.drop_last()) + spec_u16_to_le_bytes(s.last() as u16)
    }
}

/// Two bytes leave for every sample.
pub proof fn lemma_le_bytes_len(s: Seq<i16>)
    ensures
        le_bytes_of_samples(s).len() == 2 * s.len(),
    decreases s.len(),
{
    lemma_auto_spec_u16_to_from_le_bytes();
    if s.len() > 0 {
        lemma_le_bytes_len(s.drop_last());
    }
}

/// Serialize `samples[from..to]` as little-endian PCM16 bytes.
pub fn samples_to_le_bytes(samples: &Vec<i16>, from: usize, to: usize) -> (r: Vec<u8>)
    requires
        from <= to <= samples@.len(),
    ensures
        r@ == le_bytes_of_samples(samples@.subrange(from as int, to as int)),
        r@.len() == 2 * (to - from),
{
    let mut out: Vec<u8> = Vec::new();
    let mut k = from;
    while k < to
        invariant
            from <= k <= to <= samples@.len(),
            out@ == le_bytes_of_samples(samples@.subrange(from as int, k as int)),
            out@.len() == 2 * (k - from),
        decreases to - k,
    {
        let mut b = u16_to_le_bytes(samples[k] as u16);
        out.append(&mut b);
        proof {
            let sub = samples@.subrange(from as int, k + 1);
            assert(sub.drop_last() =~= samples@.subrange(from as int, k as int));
            assert(sub.last() == samples@[k as int]);
            lemma_auto_spec_u16_to_from_le_bytes();
        }
        k = k + 1;
    }
    out
}

/// An outbound `response.audio.delta` for this turn whose payload
/// decodes to exactly `payload`.
pub open spec fn is_audio_delta(
    e: ServerEvent,
    response_id: Seq<char>,
    item_id: Seq<char>,
    payload: Seq<u8>,
) -> bool {
    e matches ServerEvent::ResponseAudioDelta {
        event_id: _,
        response_id: r,
        item_id: i,
        output_index,
        content_index,
        delta,
    } && r@ == response_id && i@ == item_id && output_index == 0 && content_index == 1 && delta@
        == base64_of(payload) && base64_decoding(delta@) == Some(payload)
}

/// How many frames of `sz` samples cover `len` samples.
pub open spec fn spec_frame_count(len: int, sz: int) -> int {
    (len + sz - 1) / sz
}

/// The `i`-th frame of `samples` cut into frames of `FRAME_SAMPLES`.
pub open spec fn spec_sample_frame(samples: Seq<i16>, i: int) -> Seq<i16> {
    samples.subrange(
        i * (FRAME_SAMPLES as int),
        if (i + 1) * (FRAME_SAMPLES as int) <= samples.len() {
            (i + 1) * (FRAME_SAMPLES as int)
        } else {
            samples.len() as int
        },
    )
}

/// Every frame holds at most `FRAME_SAMPLES` samples, every frame but
/// the last holds exactly that many, and each serializes to two bytes
/// per sample: an audio delta of the WAV path decodes to at most 16000
/// bytes and only the final one of a turn may be shorter.
pub proof fn lemma_frame_sizes(samples: Seq<i16>, i: int)
    requires
        0 <= i < spec_frame_count(samples.len() as int, FRAME_SAMPLES as int),
    ensures
        spec_sample_frame(samples, i).len() <= FRAME_SAMPLES,
        i < spec_frame_count(samples.len() as int, FRAME_SAMPLES as int) - 1 ==> spec_sample_frame(
            samples,
            i,
        ).len() == FRAME_SAMPLES,
        le_bytes_of_samples(spec_sample_frame(samples, i)).len() == 2 * spec_sample_frame(
            samples,
            i,
        ).len(),
{
    let n = samples.len() as int;
    let sz = FRAME_SAMPLES as int;
    assert(spec_sample_frame(samples, i).len() <= sz) by (nonlinear_arith)
        requires
            0 <= i < spec_frame_count(n, sz),
            sz == 8000,
            n >= 0,
            spec_sample_frame(samples, i).len() == (if (i + 1) * sz <= n {
                (i + 1) * sz
            } else {
                n
            }) - i * sz,
    ;
    assert(i < spec_frame_count(n, sz) - 1 ==> spec_sample_frame(samples, i).len() == sz)
        by (nonlinear_arith)
        requires
            0 <= i < spec_frame_count(n, sz),
            sz == 8000,
            n >= 0,
            spec_frame_count(n, sz) == (n + sz - 1) / sz,
            spec_sample_frame(samples, i).len() == (if (i + 1) * sz <= n {
                (i + 1) * sz
            } else {
                n
            }) - i * sz,
    ;
    lemma_le_bytes_len(spec_sample_frame(samples, i));
}

/// Cut `samples` into half-second frames and return one audio delta
/// per frame, in order, each carrying the frame's bytes as base64.
pub fn wav_audio_deltas(response_id: &String, item_id: &String, samples: &Vec<i16>) -> (events: Vec<
    ServerEvent,
>)
    requires
        samples@.len() <= 0x1000_0000_0000,
    ensures
        events@.len() == spec_frame_count(samples@.len() as int, FRAME_SAMPLES as int),
        forall|i: int|
            0 <= i < events@.len() ==> is_audio_delta(
                events@[i],
                response_id@,
                item_id@,
                le_bytes_of_samples(spec_sample_frame(samples@, i)),
            ),
{
    let n = samples.len();
    let mut events: Vec<ServerEvent> = Vec::new();
    let mut start: usize = 0;
    while start < n
        invariant
            samples@.len() == n,
            n <= 0x1000_0000_0000,
            0 <= start <= n,
            start as int == (if events@.len() * (FRAME_SAMPLES as int) <= n as int {
                events@.len() * (FRAME_SAMPLES as int)
            } else {
                n as int
            }),
            events@.len() == 0 || (events@.len() - 1) * (FRAME_SAMPLES as int) < n as int,
            forall|i: int|
                0 <= i < events@.len() ==> is_audio_delta(
                    events@[i],
                    response_id@,
                    item_id@,
                    le_bytes_of_samples(spec_sample_frame(samples@, i)),
                ),
        decreases n - start,
    {
        let end = if n - start >= FRAME_SAMPLES {
            start + FRAME_SAMPLES
        } else {
            n
        };
        let payload = samples_to_le_bytes(samples, start, end);
        let delta = encode_base64(&payload);
        let ev = ServerEvent::ResponseAudioDelta {
            event_id: fresh_id(),
            response_id: response_id.clone(),
            item_id: item_id.clone(),
            output_index: 0,
            content_index: 1,
            delta,
        };
        proof {
            let c = events@.len() as int;
            assert(spec_sample_frame(samples@, c) =~= samples@.subrange(
                start as int,
                end as int,
            )) by {
                assert(c * (FRAME_SAMPLES as int) == start as int);
                assert((c + 1) * (FRAME_SAMPLES as int) == start as int + FRAME_SAMPLES as int)
                    by (nonlinear_arith)
                    requires
                        c * (FRAME_SAMPLES as int) == start as int,
                ;
            }
        }
        events.push(ev);
        start = end;
    }
    proof {
        let c = events@.len() as int;
        let n_ = n as int;
        let sz = FRAME_SAMPLES as int;
        assert(c == spec_frame_count(n_, sz)) by (nonlinear_arith)
            requires
                sz == 8000,
                n_ >= 0,
                c >= 0,
                start as int >= n_,
                start as int == (if c * sz <= n_ { c * sz } else { n_ }),
                c == 0 || (c - 1) * sz < n_,
                spec_frame_count(n_, sz) == (n_ + sz - 1) / sz,
        ;
    }
    events
}

/// Framer of the streamed TTS path: collects raw 16 kHz PCM16 bytes
/// and emits one audio delta per full 3200-byte frame, carrying the
/// residual across pushes; the residual leaves as a last short delta.
pub struct StreamFramer {
    pub response_id: String,
    pub item_id: String,
    pub rest: Vec<u8>,
}

impl StreamFramer {
    /// The residual always stays below one frame.
    pub open spec fn wf(self) -> bool {
        self.rest@.len() < FRAME_BYTES
    }

    /// A framer with an empty residual.
    pub fn new(response_id: String, item_id: String) -> (f: StreamFramer)
        ensures
            f.wf(),
            f.rest@ == Seq::<u8>::empty(),
            f.response_id == response_id,
            f.item_id == item_id,
    {
        StreamFramer { response_id, item_id, rest: Vec::new() }
    }

    /// Take in one chunk of streamed bytes: the residual plus the chunk
    /// is cut into full frames, one delta per frame in order, and what
    /// remains below a frame stays as the new residual.
    pub fn push_chunk(&mut self, chunk: &Vec<u8>) -> (events: Vec<ServerEvent>)
        requires
            old(self).wf(),
            old(self).rest@.len() + chunk@.len() <= 0x1000_0000_0000,
        ensures
            final(self).wf(),
            final(self).response_id == old(self).response_id,
            final(self).item_id == old(self).item_id,
            ({
                let total = old(self).rest@ + chunk@;
                let full = total.len() as int / (FRAME_BYTES as int);
                &&& events@.len() == full
                &&& forall|i: int|
                    0 <= i < full ==> is_audio_delta(
                        events@[i],
                        old(self).response_id@,
                        old(self).item_id@,
                        total.subrange(i * (FRAME_BYTES as int), (i + 1) * (FRAME_BYTES as int)),
                    )
                &&& final(self).rest@ == total.subrange(
                    full * (FRAME_BYTES as int),
                    total.len() as int,
                )
            }),
    {
        let ghost total = old(self).rest@ + chunk@;
        let mut buf: Vec<u8> = Vec::new();
        core::mem::swap(&mut buf, &mut self.rest);
        let mut k: usize = 0;
        while k < chunk.len()
            invariant
                0 <= k <= chunk@.len(),
                buf@ == old(self).rest@ + chunk@.subrange(0, k as int),
            decreases chunk@.len() - k,
        {
            buf.push(chunk[k]);
            proof {
                assert(old(self).rest@ + chunk@.subrange(0, k + 1) =~= (old(self).rest@
                    + chunk@.subrange(0, k as int)).push(chunk@[k as int]));
            }
            k = k + 1;
        }
        proof {
            assert(buf@ =~= total);
        }
        let mut events: Vec<ServerEvent> = Vec::new();
        let mut start: usize = 0;
        let n = buf.len();
        while n - start >= FRAME_BYTES
            invariant
                buf@ == total,
                n == total.len(),
                n <= 0x1000_0000_0000,
                0 <= start <= n,
                start == events@.len() * (FRAME_BYTES as int),
                forall|i: int|
                    0 <= i < events@.len() ==> is_audio_delta(
                        events@[i],
                        old(self).response_id@,
                        old(self).item_id@,
                        total.subrange(i * (FRAME_BYTES as int), (i + 1) * (FRAME_BYTES as int)),
                    ),
                self.response_id == old(self).response_id,
                self.item_id == old(self).item_id,
            decreases n - start,
        {
            let payload = subvec(&buf, start, start + FRAME_BYTES);
            let delta = encode_base64(&payload);
            let ev = ServerEvent::ResponseAudioDelta {
                event_id: fresh_id(),
                response_id: self.response_id.clone(),
                item_id: self.item_id.clone(),
                output_index: 0,
                content_index: 1,
                delta,
            };
            proof {
                let c = events@.len() as int;
                assert((c + 1) * (FRAME_BYTES as int) == start as int + FRAME_BYTES as int)
                    by (nonlinear_arith)
                    requires
                        c * (FRAME_BYTES as int) == start as int,
                ;
            }
            events.push(ev);
            start = start + FRAME_BYTES;
        }
        let tail = subvec(&buf, start, n);
        self.rest = tail;
        proof {
            let c = events@.len() as int;
            let sz = FRAME_BYTES as int;
            let n_ = n as int;
            assert(c == n_ / sz) by (nonlinear_arith)
                requires
                    sz == 3200,
                    n_ >= 0,
                    c >= 0,
                    start as int == c * sz,
                    start as int <= n_,
                    start as int + sz > n_,
            ;
        }
        events
    }

    /// The final short delta carrying the residual, if one is pending.
    pub fn finish(&self) -> (ev: Option<ServerEvent>)
        requires
            self.wf(),
        ensures
            self.rest@.len() == 0 ==> ev is None,
            self.rest@.len() > 0 ==> (ev matches Some(e) && is_audio_delta(
                e,
                self.response_id@,
                self.item_id@,
                self.rest@,
            )),
    {
        if self.rest.len() == 0 {
            None
        } else {
            let delta = encode_base64(&self.rest);
            Some(
                ServerEvent::ResponseAudioDelta {
                    event_id: fresh_id(),
                    response_id: self.response_id.clone(),
                    item_id: self.item_id.clone(),
                    output_index: 0,
                    content_index: 1,
                    delta,
                },
            )
        }
    }
}

/// Copy `v[from..to]` into a fresh vector.
pub fn subvec(v: &Vec<u8>, from: usize, to: usize) -> (r: Vec<u8>)
    requires
        from <= to <= v@.len(),
    ensures
        r@ == v@.subrange(from as int, to as int),
{
    let mut out: Vec<u8> = Vec::new();
    let mut k = from;
    while k < to
        invariant
            from <= k <= to <= v@.len(),
            out@ == v@.subrange(from as int, k as int),
        decreases to - k,
    {
        out.push(v[k]);
        proof {
            assert(v@.subrange(from as int, k + 1) =~= v@.subrange(from as int, k as int).push(
                v@[k as int],
            ));
        }
        k = k + 1;
    }
    out
}

} // verus!
