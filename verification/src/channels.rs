//! Channel remapping of interleaved PCM.
//!
//! Samples are interleaved frame by frame: a frame holds one sample per
//! channel. Remapping keeps the frames and changes how many channels each one
//! has. A destination channel that the source also has copies it; one beyond
//! the source's channels copies the source's last channel.

use vstd::prelude::*;
use vstd::slice::slice_to_vec;

verus! {

/// The source channel that destination channel `ch` copies.
pub open spec fn source_channel(ch: nat, src_channels: nat) -> nat {
    if ch < src_channels {
        ch
    } else {
        (src_channels - 1) as nat
    }
}

/// Number of whole frames in `len` samples of `src_channels` channels.
pub open spec fn frame_count(len: nat, src_channels: nat) -> nat {
    len / src_channels
}

/// Number of samples after remapping `len` samples from `src_channels` to
/// `dst_channels` channels.
pub open spec fn remapped_len(len: nat, src_channels: nat, dst_channels: nat) -> nat {
    if src_channels == dst_channels {
        len
    } else {
        frame_count(len, src_channels) * dst_channels
    }
}

/// Position in the source of the sample that output position `k` copies.
pub open spec fn source_position(k: nat, src_channels: nat, dst_channels: nat) -> nat {
    (k / dst_channels) * src_channels + source_channel(k % dst_channels, src_channels)
}

/// The sequence that `samples` becomes when remapped from `src_channels` to
/// `dst_channels` channels.
pub open spec fn remapped<T>(samples: Seq<T>, src_channels: nat, dst_channels: nat) -> Seq<T> {
    if src_channels == dst_channels {
        samples
    } else {
        Seq::new(
            remapped_len(samples.len(), src_channels, dst_channels),
            |k: int| samples[source_position(k as nat, src_channels, dst_channels) as int],
        )
    }
}

/// Sample `ch` of frame `frame` sits at output position
/// `frame * dst_channels + ch`, and what it copies lies inside the source.
pub proof fn frame_position(
    len: nat,
    src_channels: nat,
    dst_channels: nat,
    frame: nat,
    ch: nat,
)
    requires
        src_channels > 0,
        frame < frame_count(len, src_channels),
        ch < dst_channels,
    ensures
        frame * dst_channels + ch < frame_count(len, src_channels) * dst_channels,
        (frame * dst_channels + ch) / dst_channels == frame,
        (frame * dst_channels + ch) % dst_channels == ch,
        source_position(frame * dst_channels + ch, src_channels, dst_channels) == frame
            * src_channels + source_channel(ch, src_channels),
        frame * src_channels + source_channel(ch, src_channels) < len,
{
    let frames = frame_count(len, src_channels);
    let k = frame * dst_channels + ch;
    assert(k < frames * dst_channels) by (nonlinear_arith)
        requires
            k == frame * dst_channels + ch,
            ch < dst_channels,
            frame + 1 <= frames,
    {
        assert((frame + 1) * dst_channels <= frames * dst_channels);
    }
    vstd::arithmetic::div_mod::lemma_fundamental_div_mod_converse(
        k as int,
        dst_channels as int,
        frame as int,
        ch as int,
    );
    let c = source_channel(ch, src_channels);
    assert(frame * src_channels + c < len) by (nonlinear_arith)
        requires
            src_channels > 0,
            c < src_channels,
            frame + 1 <= len / src_channels,
    {
        assert((len / src_channels) * src_channels <= len);
        assert((frame + 1) * src_channels <= (len / src_channels) * src_channels);
    }
}

/// Remapping to the same number of channels leaves the samples as they are.
pub proof fn remap_identity<T>(samples: Seq<T>, channels: nat)
    ensures
        remapped(samples, channels, channels) == samples,
{
}

/// In frame and channel coordinates: sample `ch` of output frame `frame` is the
/// source frame's sample on channel `ch`, or on its last channel where the
/// source has no channel `ch`.
pub proof fn remap_frame<T>(
    samples: Seq<T>,
    src_channels: nat,
    dst_channels: nat,
    frame: nat,
    ch: nat,
)
    requires
        src_channels > 0,
        src_channels != dst_channels,
        frame < frame_count(samples.len(), src_channels),
        ch < dst_channels,
    ensures
        frame * dst_channels + ch < remapped(samples, src_channels, dst_channels).len(),
        frame * src_channels + source_channel(ch, src_channels) < samples.len(),
        remapped(samples, src_channels, dst_channels)[(frame * dst_channels + ch) as int]
            == samples[(frame * src_channels + source_channel(ch, src_channels)) as int],
{
    frame_position(samples.len(), src_channels, dst_channels, frame, ch);
}

/// Expanding mono to stereo doubles the length and puts every source sample
/// on both channels of its frame.
pub proof fn mono_to_stereo<T>(samples: Seq<T>, i: int)
    requires
        0 <= i < samples.len(),
    ensures
        remapped(samples, 1, 2).len() == 2 * samples.len(),
        remapped(samples, 1, 2)[2 * i] == samples[i],
        remapped(samples, 1, 2)[2 * i + 1] == samples[i],
{
    remap_frame(samples, 1, 2, i as nat, 0);
    remap_frame(samples, 1, 2, i as nat, 1);
}

/// Expanding mono to any number of channels puts every source sample on each
/// channel of its frame.
pub proof fn mono_broadcast<T>(samples: Seq<T>, dst_channels: nat, frame: nat, ch: nat)
    requires
        dst_channels != 1,
        frame < samples.len(),
        ch < dst_channels,
    ensures
        remapped(samples, 1, dst_channels).len() == samples.len() * dst_channels,
        frame * dst_channels + ch < remapped(samples, 1, dst_channels).len(),
        remapped(samples, 1, dst_channels)[(frame * dst_channels + ch) as int] == samples[frame as int],
{
    remap_frame(samples, 1, dst_channels, frame, ch);
}

/// Remaps interleaved `samples` from `src_channels` to `dst_channels`
/// channels.
///
/// Equal channel counts return a copy of the input. Samples after the last
/// whole source frame are dropped. Between different channel counts the source
/// has to have a channel: without one it has no frames to remap.
pub fn interleave_channels<T: Copy>(samples: &[T], src_channels: u16, dst_channels: u16) -> (out:
    Vec<T>)
    requires
        src_channels == dst_channels || src_channels > 0,
    ensures
        out@ == remapped(samples@, src_channels as nat, dst_channels as nat),
{
    if src_channels == dst_channels {
        return slice_to_vec(samples);
    }
    let len: usize = samples.len();
    let src: usize = src_channels as usize;
    let dst: usize = dst_channels as usize;
    let frames: usize = len / src;
    let mut out: Vec<T> = Vec::new();
    let mut frame: usize = 0;
    while frame < frames
        invariant
            src == src_channels,
            dst == dst_channels,
            src > 0,
            src != dst,
            len == samples@.len(),
            frames == frame_count(len as nat, src as nat),
            frame <= frames,
            out@.len() == frame * dst,
            forall|k: int|
                0 <= k < out@.len() ==> out@[k] == samples@[source_position(
                    k as nat,
                    src as nat,
                    dst as nat,
                ) as int],
        decreases frames - frame,
    {
        let mut ch: usize = 0;
        while ch < dst
            invariant
                src > 0,
                src != dst,
                len == samples@.len(),
                frames == frame_count(len as nat, src as nat),
                frame < frames,
                ch <= dst,
                out@.len() == frame * dst + ch,
                forall|k: int|
                    0 <= k < out@.len() ==> out@[k] == samples@[source_position(
                        k as nat,
                        src as nat,
                        dst as nat,
                    ) as int],
            decreases dst - ch,
        {
            proof {
                frame_position(len as nat, src as nat, dst as nat, frame as nat, ch as nat);
            }
            let src_ch: usize = if ch < src {
                ch
            } else {
                src - 1
            };
            assert(frame * src + src_ch < len);
            let idx: usize = frame * src + src_ch;
            out.push(samples[idx]);
            ch += 1;
        }
        assert(out@.len() == (frame + 1) * dst) by (nonlinear_arith)
            requires
                out@.len() == frame * dst + dst,
        ;
        frame += 1;
    }
    assert(out@ =~= remapped(samples@, src_channels as nat, dst_channels as nat));
    out
}

} // verus!
