//! What a running stream writes when the device asks for a chunk.
//!
//! A stream owns a buffer of samples in the device's native representation and
//! a cursor into it. Each request for a chunk copies the samples under the
//! cursor and advances it. Past the end of the buffer, and while playback is
//! stopped, the chunk is silence and the cursor stays where it is.

use crate::engine::AudioOutputState;
use vstd::prelude::*;

verus! {

/// The representation of a sample as a device tells it.
#[derive(Debug, Clone, Copy, PartialEq, Eq, Structural)]
pub enum SampleFormat {
    I8,
    I16,
    I32,
    I64,
    U8,
    U16,
    U32,
    U64,
    F32,
    F64,
    /// A representation that is none of the above.
    Other,
}

/// The representations that streams are made for.
#[derive(Debug, Clone, Copy, PartialEq, Eq, Structural)]
pub enum StreamFormat {
    /// 32-bit floating point.
    F32,
    /// Signed 16-bit integer.
    I16,
    /// Unsigned 16-bit integer.
    U16,
}

/// The format of the stream for a device of this sample format, `None` where
/// no stream is made for it.
pub open spec fn stream_format_of(format: SampleFormat) -> Option<StreamFormat> {
    match format {
        SampleFormat::F32 => Some(StreamFormat::F32),
        SampleFormat::I16 => Some(StreamFormat::I16),
        SampleFormat::U16 => Some(StreamFormat::U16),
        _ => None,
    }
}

/// Picks the format of the stream for a device of this sample format.
pub fn stream_format(format: SampleFormat) -> (r: Option<StreamFormat>)
    ensures
        r == stream_format_of(format),
{
    match format {
        SampleFormat::F32 => Some(StreamFormat::F32),
        SampleFormat::I16 => Some(StreamFormat::I16),
        SampleFormat::U16 => Some(StreamFormat::U16),
        _ => None,
    }
}

/// Silence on a device that takes signed 16-bit samples.
pub const SILENCE_I16: i16 = 0;

/// Silence on a device that takes unsigned 16-bit samples: the mid-point of
/// the range.
pub const SILENCE_U16: u16 = 32768;

/// The sample written to slot `i` of a chunk.
pub open spec fn chunk_sample<T>(buffer: Seq<T>, cursor: nat, stopped: bool, silence: T, i: int) -> T {
    if !stopped && cursor + i < buffer.len() {
        buffer[cursor + i]
    } else {
        silence
    }
}

/// The chunk of `n` slots written with the cursor at `cursor`.
pub open spec fn chunk<T>(buffer: Seq<T>, cursor: nat, stopped: bool, silence: T, n: nat) -> Seq<T> {
    Seq::new(n, |i: int| chunk_sample(buffer, cursor, stopped, silence, i))
}

/// Where the cursor stands after a chunk of `n` slots.
pub open spec fn next_cursor(len: nat, cursor: nat, stopped: bool, n: nat) -> nat {
    if stopped || cursor >= len {
        cursor
    } else if cursor + n <= len {
        cursor + n
    } else {
        len
    }
}

/// Where the cursor stands after one chunk for each entry of `sizes`, the stop
/// switch keeping one position throughout.
pub open spec fn cursor_after(len: nat, cursor: nat, stopped: bool, sizes: Seq<nat>) -> nat
    decreases sizes.len(),
{
    if sizes.len() == 0 {
        cursor
    } else {
        cursor_after(len, next_cursor(len, cursor, stopped, sizes[0]), stopped, sizes.skip(1))
    }
}

/// While playback is stopped a chunk is silence in every slot and leaves the
/// cursor in place.
pub proof fn stopped_chunk_is_silent<T>(buffer: Seq<T>, cursor: nat, silence: T, n: nat)
    ensures
        next_cursor(buffer.len(), cursor, true, n) == cursor,
        chunk(buffer, cursor, true, silence, n) == Seq::new(n, |i: int| silence),
{
    assert(chunk(buffer, cursor, true, silence, n) =~= Seq::new(n, |i: int| silence));
}

/// However many chunks are asked for while playback is stopped, the cursor
/// does not move.
pub proof fn stopped_cursor_stays(len: nat, cursor: nat, sizes: Seq<nat>)
    ensures
        cursor_after(len, cursor, true, sizes) == cursor,
    decreases sizes.len(),
{
    if sizes.len() > 0 {
        stopped_cursor_stays(len, cursor, sizes.skip(1));
    }
}

/// Once the buffer is used up a chunk is silence in every slot, and the cursor
/// stays: an exhausted stream never plays again.
pub proof fn exhausted_chunk_is_silent<T>(
    buffer: Seq<T>,
    cursor: nat,
    stopped: bool,
    silence: T,
    n: nat,
)
    requires
        cursor >= buffer.len(),
    ensures
        next_cursor(buffer.len(), cursor, stopped, n) == cursor,
        chunk(buffer, cursor, stopped, silence, n) == Seq::new(n, |i: int| silence),
{
    assert(chunk(buffer, cursor, stopped, silence, n) =~= Seq::new(n, |i: int| silence));
}

/// The cursor never moves back, and one inside the buffer stays inside it.
pub proof fn cursor_advances(len: nat, cursor: nat, stopped: bool, n: nat)
    ensures
        cursor <= next_cursor(len, cursor, stopped, n),
        next_cursor(len, cursor, stopped, n) <= cursor + n,
        cursor <= len ==> next_cursor(len, cursor, stopped, n) <= len,
{
}

/// Two chunks asked for in a row hold what one chunk of their joint size
/// holds: how the device cuts its requests does not change what is played.
pub proof fn chunks_join<T>(buffer: Seq<T>, cursor: nat, silence: T, n: nat, m: nat)
    requires
        cursor <= buffer.len(),
    ensures
        chunk(buffer, cursor, false, silence, n) + chunk(
            buffer,
            next_cursor(buffer.len(), cursor, false, n),
            false,
            silence,
            m,
        ) == chunk(buffer, cursor, false, silence, n + m),
        next_cursor(buffer.len(), next_cursor(buffer.len(), cursor, false, n), false, m)
            == next_cursor(buffer.len(), cursor, false, n + m),
{
    let mid = next_cursor(buffer.len(), cursor, false, n);
    let joined = chunk(buffer, cursor, false, silence, n) + chunk(buffer, mid, false, silence, m);
    assert(joined =~= chunk(buffer, cursor, false, silence, n + m));
}

/// A chunk asked for with the cursor at the start and room for the whole
/// buffer is the buffer followed by silence.
pub proof fn first_chunk_plays_buffer<T>(buffer: Seq<T>, silence: T, n: nat)
    requires
        n >= buffer.len(),
    ensures
        chunk(buffer, 0, false, silence, n) == buffer + Seq::new(
            (n - buffer.len()) as nat,
            |i: int| silence,
        ),
        next_cursor(buffer.len(), 0, false, n) == buffer.len(),
{
    let rest = Seq::new((n - buffer.len()) as nat, |i: int| silence);
    assert(chunk(buffer, 0, false, silence, n) =~= buffer + rest);
}

/// Fills `out` with the next chunk of `buffer` and returns the new cursor.
///
/// With `stopped` set, or with the cursor at or past the end of the buffer,
/// every slot gets `silence` and the cursor is returned as it came.
pub fn fill_chunk<T: Copy>(
    buffer: &[T],
    cursor: usize,
    stopped: bool,
    silence: T,
    out: &mut [T],
) -> (next: usize)
    ensures
        final(out)@ == chunk(buffer@, cursor as nat, stopped, silence, old(out)@.len()),
        next == next_cursor(buffer@.len(), cursor as nat, stopped, old(out)@.len()),
{
    let n: usize = out.len();
    let len: usize = buffer.len();
    let mut idx: usize = cursor;
    let mut i: usize = 0;
    while i < n
        invariant
            n == old(out)@.len(),
            out@.len() == n,
            len == buffer@.len(),
            i <= n,
            idx == next_cursor(len as nat, cursor as nat, stopped, i as nat),
            forall|k: int|
                0 <= k < i ==> out@[k] == chunk_sample(buffer@, cursor as nat, stopped, silence, k),
        decreases n - i,
    {
        if !stopped && idx < len {
            out[i] = buffer[idx];
            idx += 1;
        } else {
            out[i] = silence;
        }
        i += 1;
    }
    assert(out@ =~= chunk(buffer@, cursor as nat, stopped, silence, n as nat));
    idx
}

/// A stream on one device: the samples it plays, in the device's native
/// representation, and how far it has played them.
pub struct StreamCallback<T> {
    buffer: Vec<T>,
    cursor: usize,
    silence: T,
    engine: AudioOutputState,
}

impl<T> StreamCallback<T> {
    /// The cursor never leaves the buffer.
    #[verifier::type_invariant]
    spec fn cursor_in_buffer(&self) -> bool {
        self.cursor <= self.buffer@.len()
    }

    /// The samples that the stream plays.
    pub closed spec fn buffer(&self) -> Seq<T> {
        self.buffer@
    }

    /// The position of the next sample to play.
    pub closed spec fn cursor(&self) -> nat {
        self.cursor as nat
    }

    /// What the stream writes for silence.
    pub closed spec fn silence(&self) -> T {
        self.silence
    }

    /// Whether every sample has been played.
    pub open spec fn exhausted(&self) -> bool {
        self.cursor() >= self.buffer().len()
    }

    /// Whether `after` and `out` are what a chunk of `n` slots leaves of the
    /// stream `self`, with the stop switch at `stopped`.
    pub open spec fn renders(&self, after: &Self, out: Seq<T>, stopped: bool, n: nat) -> bool {
        &&& after.buffer() == self.buffer()
        &&& after.silence() == self.silence()
        &&& after.cursor() == next_cursor(self.buffer().len(), self.cursor(), stopped, n)
        &&& out == chunk(self.buffer(), self.cursor(), stopped, self.silence(), n)
    }
}

impl<T: Copy> StreamCallback<T> {
    /// A stream that plays `buffer` from its start, writes `silence` when it
    /// has nothing to play, and listens to the stop switch of `engine`.
    pub fn new(buffer: Vec<T>, silence: T, engine: &AudioOutputState) -> (stream: Self)
        ensures
            stream.buffer() == buffer@,
            stream.cursor() == 0,
            stream.silence() == silence,
    {
        StreamCallback { buffer, cursor: 0, silence, engine: engine.clone() }
    }

    /// The position of the next sample to play, which is never past the end of
    /// the buffer.
    pub fn position(&self) -> (position: usize)
        ensures
            position == self.cursor(),
            position <= self.buffer().len(),
    {
        proof {
            use_type_invariant(self);
        }
        self.cursor
    }

    /// Tells whether every sample has been played.
    pub fn is_exhausted(&self) -> (done: bool)
        ensures
            done == self.exhausted(),
    {
        self.cursor >= self.buffer.len()
    }

    /// Fills `out` with the next chunk, with the stop switch at `stopped`.
    pub fn render_with(&mut self, stopped: bool, out: &mut [T])
        ensures
            old(self).renders(final(self), final(out)@, stopped, old(out)@.len()),
    {
        proof {
            use_type_invariant(&*self);
        }
        self.cursor = fill_chunk(self.buffer.as_slice(), self.cursor, stopped, self.silence, out);
    }

    /// Fills `out` with the next chunk: what the device asks for each time it
    /// needs samples. The stop switch is read once, before anything is
    /// written, and the chunk is written for what it said.
    pub fn render(&mut self, out: &mut [T])
        ensures
            old(self).renders(final(self), final(out)@, true, old(out)@.len()) || old(
                self,
            ).renders(final(self), final(out)@, false, old(out)@.len()),
    {
        let stopped = self.engine.is_stopped();
        self.render_with(stopped, out);
    }
}

impl StreamCallback<i16> {
    /// A stream for a device that takes signed 16-bit samples.
    pub fn signed16(buffer: Vec<i16>, engine: &AudioOutputState) -> (stream: Self)
        ensures
            stream.buffer() == buffer@,
            stream.cursor() == 0,
            stream.silence() == SILENCE_I16,
    {
        StreamCallback::new(buffer, SILENCE_I16, engine)
    }
}

impl StreamCallback<u16> {
    /// A stream for a device that takes unsigned 16-bit samples.
    pub fn unsigned16(buffer: Vec<u16>, engine: &AudioOutputState) -> (stream: Self)
        ensures
            stream.buffer() == buffer@,
            stream.cursor() == 0,
            stream.silence() == SILENCE_U16,
    {
        StreamCallback::new(buffer, SILENCE_U16, engine)
    }
}

} // verus!
