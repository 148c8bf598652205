use vstd::prelude::*;
use vstd::arithmetic::div_mod::{lemma_fundamental_div_mod, lemma_fundamental_div_mod_converse};
use vstd::arithmetic::mul::lemma_mul_inequality;

verus! {

// Native audio buffers arrive either interleaved (one buffer, channels
// already alternating frame by frame) or planar (one buffer per channel).
// Both shapes carry 32-bit samples little-endian; this module turns either
// shape into the single canonical interleaved stream of sample bit patterns.

/// The 32-bit word stored little-endian at word index `i` of `bytes`.
pub open spec fn le_word_at(bytes: Seq<u8>, i: int) -> u32 {
    (bytes[4 * i] + bytes[4 * i + 1] * 0x100 + bytes[4 * i + 2] * 0x1_0000
        + bytes[4 * i + 3] * 0x100_0000) as u32
}

/// All whole little-endian 32-bit words of a byte buffer, in order; a
/// trailing fragment shorter than four bytes carries no whole sample and is
/// dropped.
pub open spec fn le_words(bytes: Seq<u8>) -> Seq<u32> {
    Seq::new((bytes.len() / 4) as nat, |i: int| le_word_at(bytes, i))
}

/// Reinterprets a native byte buffer as its sequence of 32-bit samples.
pub fn words_from_le_bytes(bytes: &Vec<u8>) -> (r: Vec<u32>)
    ensures
        r@ == le_words(bytes@),
{
    let n: usize = bytes.len() / 4;
    proof {
        lemma_fundamental_div_mod(bytes@.len() as int, 4);
    }
    let mut out: Vec<u32> = Vec::new();
    let mut i: usize = 0;
    while i < n
        invariant
            i <= n,
            n == bytes@.len() / 4,
            4 * n <= bytes@.len(),
            bytes@.len() <= usize::MAX,
            out@.len() == i,
            forall|j: int| 0 <= j < i ==> out@[j] == le_word_at(bytes@, j),
        decreases n - i,
    {
        let b0 = bytes[4 * i];
        let b1 = bytes[4 * i + 1];
        let b2 = bytes[4 * i + 2];
        let b3 = bytes[4 * i + 3];
        let w: u32 = b0 as u32 + (b1 as u32) * 0x100 + (b2 as u32) * 0x1_0000
            + (b3 as u32) * 0x100_0000;
        out.push(w);
        i = i + 1;
    }
    proof {
        assert(out@ =~= le_words(bytes@));
    }
    out
}

/// The samples one poll-loop packet delivers: the device reports how many
/// whole frames it filled, and only those are taken — never more than the
/// buffer actually holds.
pub open spec fn packet_words(bytes: Seq<u8>, frames_read: u32, channels: u16) -> Seq<u32> {
    le_words(bytes).take(
        vstd::math::min(
            frames_read as int * channels as int,
            le_words(bytes).len() as int,
        ),
    )
}

/// Takes the samples of one poll-loop packet: the reported frame count bounds
/// how much of the buffer is live, and the buffer's end bounds it again.
pub fn packet_samples(bytes: &Vec<u8>, frames_read: u32, channels: u16) -> (r: Vec<u32>)
    ensures
        r@ == packet_words(bytes@, frames_read, channels),
{
    let mut words = words_from_le_bytes(bytes);
    proof {
        assert(frames_read as int * channels as int <= 0xFFFF_FFFF * 0xFFFF)
            by (nonlinear_arith)
            requires
                frames_read as int <= 0xFFFF_FFFF,
                channels as int <= 0xFFFF,
        ;
    }
    let want: u64 = frames_read as u64 * channels as u64;
    if want < words.len() as u64 {
        words.truncate(want as usize);
        proof {
            assert(words@ =~= packet_words(bytes@, frames_read, channels));
        }
    } else {
        proof {
            assert(words@ =~= packet_words(bytes@, frames_read, channels));
        }
    }
    words
}

/// The views of a vector of channel buffers.
pub open spec fn channel_views(chs: Seq<Vec<u32>>) -> Seq<Seq<u32>> {
    chs.map_values(|v: Vec<u32>| v@)
}

/// Length of the longest channel buffer; 0 when there are no channels.
pub open spec fn max_channel_len(chs: Seq<Seq<u32>>) -> nat
    decreases chs.len(),
{
    if chs.len() == 0 {
        0
    } else {
        let rest = max_channel_len(chs.drop_last());
        if chs.last().len() > rest {
            chs.last().len()
        } else {
            rest
        }
    }
}

/// Every channel is at most as long as the longest one.
pub proof fn lemma_max_channel_len_ge(chs: Seq<Seq<u32>>, c: int)
    requires
        0 <= c < chs.len(),
    ensures
        chs[c].len() <= max_channel_len(chs),
    decreases chs.len(),
{
    if c + 1 < chs.len() {
        lemma_max_channel_len_ge(chs.drop_last(), c);
    }
}

/// The sample that channel `c` contributes at frame `i`: its stored sample,
/// or silence (an all-zero pattern, which quantizes to 0) where the channel
/// is shorter than the frame index reaches.
pub open spec fn planar_at(chs: Seq<Seq<u32>>, i: int, c: int) -> u32 {
    if i < chs[c].len() {
        chs[c][i]
    } else {
        0
    }
}

/// The interleaved form of planar channel buffers: for each frame up to the
/// longest channel's length, one sample per channel in channel order, with
/// short channels padded by silence rather than truncating the others.
pub open spec fn interleaved(chs: Seq<Seq<u32>>) -> Seq<u32> {
    Seq::new(
        max_channel_len(chs) * chs.len(),
        |k: int| planar_at(chs, k / chs.len() as int, k % chs.len() as int),
    )
}

/// Interleaves planar channel buffers into one per-frame-ordered stream,
/// padding channels shorter than the longest with silence.
pub fn interleave_planar(channels: &Vec<Vec<u32>>) -> (r: Vec<u32>)
    requires
        channels@.len() >= 1,
        max_channel_len(channel_views(channels@)) * channels@.len() <= usize::MAX,
    ensures
        r@ == interleaved(channel_views(channels@)),
{
    let ghost chs = channel_views(channels@);
    let count: usize = channels.len();

    let mut max_len: usize = 0;
    let mut c: usize = 0;
    while c < count
        invariant
            c <= count,
            count == chs.len(),
            chs == channel_views(channels@),
            max_len == max_channel_len(chs.take(c as int)),
            max_len <= usize::MAX,
        decreases count - c,
    {
        proof {
            assert(chs.take(c + 1).drop_last() =~= chs.take(c as int));
            assert(chs.take(c + 1).last() == chs[c as int]);
            lemma_max_channel_len_ge(chs, c as int);
            lemma_mul_inequality(chs[c as int].len() as int, max_channel_len(chs) as int, chs.len() as int);
            assert(max_channel_len(chs) * chs.len() >= max_channel_len(chs) * 1) by {
                lemma_mul_inequality(1, chs.len() as int, max_channel_len(chs) as int);
                vstd::arithmetic::mul::lemma_mul_is_commutative(max_channel_len(chs) as int, chs.len() as int);
                vstd::arithmetic::mul::lemma_mul_is_commutative(max_channel_len(chs) as int, 1);
            }
        }
        let len_c = channels[c].len();
        if len_c > max_len {
            max_len = len_c;
        }
        c = c + 1;
    }
    proof {
        assert(chs.take(count as int) =~= chs);
    }

    let mut out: Vec<u32> = Vec::new();
    let mut i: usize = 0;
    while i < max_len
        invariant
            i <= max_len,
            count == chs.len(),
            count >= 1,
            chs == channel_views(channels@),
            max_len == max_channel_len(chs),
            max_len * count <= usize::MAX,
            out@.len() == i * count,
            forall|k: int| 0 <= k < out@.len()
                ==> out@[k] == planar_at(chs, k / count as int, k % count as int),
        decreases max_len - i,
    {
        let mut c2: usize = 0;
        while c2 < count
            invariant
                c2 <= count,
                i < max_len,
                count == chs.len(),
                count >= 1,
                chs == channel_views(channels@),
                max_len == max_channel_len(chs),
                max_len * count <= usize::MAX,
                out@.len() == i * count + c2,
                forall|k: int| 0 <= k < out@.len()
                    ==> out@[k] == planar_at(chs, k / count as int, k % count as int),
            decreases count - c2,
        {
            proof {
                lemma_mul_inequality(i + 1, max_len as int, count as int);
                lemma_fundamental_div_mod_converse(
                    i * count + c2, count as int, i as int, c2 as int);
            }
            let ch = &channels[c2];
            if i < ch.len() {
                out.push(ch[i]);
            } else {
                out.push(0u32);
            }
            c2 = c2 + 1;
        }
        proof {
            vstd::arithmetic::mul::lemma_mul_is_distributive_add_other_way(
                count as int, i as int, 1);
        }
        i = i + 1;
    }
    proof {
        assert(out@ =~= interleaved(chs));
    }
    out
}

/// The canonical interleaved sample stream held in a set of native buffers:
/// a single buffer is already interleaved and passes through word by word; a
/// set of per-channel buffers is interleaved with silence padding; no buffer
/// yields no samples.
pub open spec fn normalized_samples(buffers: Seq<Seq<u8>>) -> Seq<u32> {
    if buffers.len() == 0 {
        Seq::empty()
    } else if buffers.len() == 1 {
        le_words(buffers[0])
    } else {
        interleaved(buffers.map_values(|b: Seq<u8>| le_words(b)))
    }
}

/// The views of a vector of native byte buffers.
pub open spec fn buffer_views(buffers: Seq<Vec<u8>>) -> Seq<Seq<u8>> {
    buffers.map_values(|b: Vec<u8>| b@)
}

/// Normalizes one native buffer delivery into the canonical interleaved
/// sample stream, whatever shape the platform produced.
pub fn extract_audio_samples(buffers: &Vec<Vec<u8>>) -> (r: Vec<u32>)
    requires
        buffers@.len() >= 2 ==> max_channel_len(
            buffer_views(buffers@).map_values(|b: Seq<u8>| le_words(b)),
        ) * buffers@.len() <= usize::MAX,
    ensures
        r@ == normalized_samples(buffer_views(buffers@)),
{
    if buffers.len() == 0 {
        Vec::new()
    } else if buffers.len() == 1 {
        words_from_le_bytes(&buffers[0])
    } else {
        let ghost planar = buffer_views(buffers@).map_values(|b: Seq<u8>| le_words(b));
        let mut channels: Vec<Vec<u32>> = Vec::new();
        let mut c: usize = 0;
        while c < buffers.len()
            invariant
                c <= buffers@.len(),
                channels@.len() == c,
                planar == buffer_views(buffers@).map_values(|b: Seq<u8>| le_words(b)),
                forall|j: int| 0 <= j < c ==> channels@[j]@ == planar[j],
            decreases buffers@.len() - c,
        {
            let words = words_from_le_bytes(&buffers[c]);
            channels.push(words);
            c = c + 1;
        }
        proof {
            assert(channel_views(channels@) =~= planar);
        }
        interleave_planar(&channels)
    }
}

} // verus!
