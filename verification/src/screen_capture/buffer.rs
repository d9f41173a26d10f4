//! Stream buffer for continuous video streams: a bounded queue of frames that,
//! when full by frame count or by bytes, makes room according to a drop mode.
use vstd::prelude::*;
use std::collections::VecDeque;
use crate::screen_capture::types::FrameData;
use crate::screen_capture::error::ScreenCaptureError;

verus! {

/// Mode for handling buffer overflow
#[derive(Debug, Clone, Copy, PartialEq, Eq, Structural)]
pub enum DropMode {
    /// Drop oldest frames when buffer is full
    DropOldest,
    /// Drop newest frames when buffer is full (better for maintaining temporal consistency)
    DropNewest,
    /// Drop alternating frames, starting from the oldest
    DropAlternating,
    /// Drop non-keyframes first, then oldest keyframes
    DropNonKeyframes,
}

/// Counters kept by the buffer.
#[derive(Debug, Clone, Copy, PartialEq, Eq, Structural)]
pub struct BufferStats {
    /// Number of frames added
    pub frames_added: u64,
    /// Number of frames dropped due to buffer overflow
    pub frames_dropped: u64,
    /// Number of frames read from the buffer
    pub frames_read: u64,
    /// Current number of frames in buffer
    pub frame_count: usize,
}

/// Number of bytes in one mebibyte, the unit of the byte limit.
pub const BYTES_PER_MB: usize = 1048576;

/// Total size of the data of the frames.
pub open spec fn bytes_of(frames: Seq<FrameData>) -> nat
    decreases frames.len(),
{
    if frames.len() == 0 {
        0
    } else {
        bytes_of(frames.drop_last()) + frames.last().data@.len()
    }
}

pub proof fn lemma_bytes_concat(a: Seq<FrameData>, b: Seq<FrameData>)
    ensures
        bytes_of(a + b) == bytes_of(a) + bytes_of(b),
    decreases b.len(),
{
    if b.len() == 0 {
        assert(a + b =~= a);
    } else {
        assert((a + b).drop_last() =~= a + b.drop_last());
        lemma_bytes_concat(a, b.drop_last());
    }
}

pub proof fn lemma_bytes_push(a: Seq<FrameData>, f: FrameData)
    ensures
        bytes_of(a.push(f)) == bytes_of(a) + f.data@.len(),
{
    assert(a.push(f).drop_last() =~= a);
}

pub proof fn lemma_bytes_remove(a: Seq<FrameData>, k: int)
    requires
        0 <= k < a.len(),
    ensures
        bytes_of(a.remove(k)) + a[k].data@.len() == bytes_of(a),
{
    let pre = a.take(k);
    let post = a.skip(k + 1);
    assert(a.remove(k) =~= pre + post);
    assert(a =~= pre + seq![a[k]] + post);
    lemma_bytes_concat(pre, post);
    lemma_bytes_concat(pre + seq![a[k]], post);
    lemma_bytes_concat(pre, seq![a[k]]);
    assert(seq![a[k]].drop_last() =~= Seq::<FrameData>::empty());
    assert(bytes_of(Seq::<FrameData>::empty()) == 0);
    assert(bytes_of(seq![a[k]]) == a[k].data@.len());
}

pub proof fn lemma_bytes_drop_first(a: Seq<FrameData>)
    requires
        a.len() > 0,
    ensures
        bytes_of(a.drop_first()) + a[0].data@.len() == bytes_of(a),
{
    assert(a.drop_first() =~= a.remove(0));
    lemma_bytes_remove(a, 0);
}

/// Index of the oldest frame at or after `i` that is not a keyframe, or the
/// length of `frames` when there is none.
pub open spec fn first_non_keyframe_from(frames: Seq<FrameData>, i: int) -> int
    decreases frames.len() - i,
{
    if i >= frames.len() {
        frames.len() as int
    } else if !frames[i].keyframe {
        i
    } else {
        first_non_keyframe_from(frames, i + 1)
    }
}

pub open spec fn first_non_keyframe(frames: Seq<FrameData>) -> int {
    first_non_keyframe_from(frames, 0)
}

proof fn lemma_first_non_keyframe_from(frames: Seq<FrameData>, i: int)
    requires
        0 <= i <= frames.len(),
    ensures
        i <= first_non_keyframe_from(frames, i) <= frames.len(),
        first_non_keyframe_from(frames, i) < frames.len() ==> !frames[first_non_keyframe_from(frames, i)].keyframe,
        forall|j: int| i <= j < first_non_keyframe_from(frames, i) ==> #[trigger] frames[j].keyframe,
    decreases frames.len() - i,
{
    if i < frames.len() && frames[i].keyframe {
        lemma_first_non_keyframe_from(frames, i + 1);
    }
}

/// Whether pushing a frame of `size` bytes finds the buffer full, by frame
/// count or by bytes.
pub open spec fn is_full(len: nat, max_size: nat, total: nat, size: nat, max_bytes: nat) -> bool {
    len >= max_size || total + size > max_bytes
}

/// The frames that remain after making room in a full buffer, and whether a
/// frame was dropped to do so.
pub open spec fn make_room(frames: Seq<FrameData>, mode: DropMode) -> (Seq<FrameData>, bool) {
    match mode {
        DropMode::DropNewest => (frames, false),
        DropMode::DropNonKeyframes => {
            let k = first_non_keyframe(frames);
            if k < frames.len() {
                (frames.remove(k), true)
            } else if frames.len() > 0 {
                (frames.drop_first(), true)
            } else {
                (frames, false)
            }
        },
        // Alternate dropping scans from the oldest frame, whose position is
        // even, so the oldest frame is the one it removes.
        _ => {
            if frames.len() > 0 {
                (frames.drop_first(), true)
            } else {
                (frames, false)
            }
        },
    }
}

/// The frames held after `push_frame(frame)`, and how many frames it drops.
pub open spec fn pushed(
    frames: Seq<FrameData>,
    max_size: nat,
    max_bytes: nat,
    mode: DropMode,
    frame: FrameData,
) -> (Seq<FrameData>, nat) {
    if !is_full(frames.len(), max_size, bytes_of(frames), frame.data@.len(), max_bytes) {
        (frames.push(frame), 0)
    } else if mode == DropMode::DropNewest {
        (frames, 1)
    } else {
        let (rest, dropped) = make_room(frames, mode);
        (rest.push(frame), if dropped {
            1
        } else {
            0
        })
    }
}

/// The number of oldest frames that `resize` drops to bring the buffer within
/// `max_size` frames and `max_bytes` bytes.
pub open spec fn trim_count(frames: Seq<FrameData>, max_size: nat, max_bytes: nat) -> nat
    decreases frames.len(),
{
    if frames.len() > max_size || bytes_of(frames) > max_bytes {
        if frames.len() == 0 {
            0
        } else {
            1 + trim_count(frames.drop_first(), max_size, max_bytes)
        }
    } else {
        0
    }
}

/// Stream buffer for managing continuous video streams
pub struct StreamBuffer {
    /// Queue of video frame chunks, oldest first
    chunks: VecDeque<FrameData>,
    /// Maximum number of chunks to store
    max_size: usize,
    /// Total bytes currently stored in the buffer
    total_bytes: usize,
    /// Maximum buffer size in bytes
    max_bytes: usize,
    /// What to drop when the buffer is full
    drop_mode: DropMode,
    /// Configured frame rate, used for latency estimates
    fps: u32,
    /// Stats about the buffer
    stats: BufferStats,
}

impl StreamBuffer {
    /// The frames held, oldest first.
    pub closed spec fn frames(&self) -> Seq<FrameData> {
        self.chunks@
    }

    pub closed spec fn max_frames(&self) -> nat {
        self.max_size as nat
    }

    pub closed spec fn byte_limit(&self) -> nat {
        self.max_bytes as nat
    }

    pub closed spec fn mode(&self) -> DropMode {
        self.drop_mode
    }

    pub closed spec fn frame_rate(&self) -> u32 {
        self.fps
    }

    pub closed spec fn counters(&self) -> BufferStats {
        self.stats
    }

    /// The buffer's bookkeeping agrees with its frames.
    pub closed spec fn wf(&self) -> bool {
        &&& self.total_bytes as nat == bytes_of(self.chunks@)
        &&& self.stats.frame_count == self.chunks@.len()
        &&& self.fps > 0
    }

    /// The number of bytes held.
    pub open spec fn bytes(&self) -> nat {
        bytes_of(self.frames())
    }

    /// Whether `push_frame(frame)` can run without its counters or byte
    /// total leaving the range of their machine integers.
    pub open spec fn can_push(&self, frame: &FrameData) -> bool {
        &&& self.bytes() + frame.data@.len() <= usize::MAX
        &&& self.counters().frames_added < u64::MAX
        &&& self.counters().frames_dropped < u64::MAX
    }

    /// Create a new stream buffer holding at most `max_frames` frames and
    /// `max_bytes_mb` mebibytes, for a stream of `fps` frames per second.
    pub fn new(max_frames: usize, max_bytes_mb: usize, fps: u32, drop_mode: DropMode) -> (b: Self)
        requires
            fps > 0,
            max_bytes_mb * BYTES_PER_MB <= usize::MAX,
        ensures
            b.wf(),
            b.frames() == Seq::<FrameData>::empty(),
            b.max_frames() == max_frames,
            b.byte_limit() == max_bytes_mb * BYTES_PER_MB,
            b.mode() == drop_mode,
            b.frame_rate() == fps,
            b.counters() == (BufferStats { frames_added: 0, frames_dropped: 0, frames_read: 0, frame_count: 0 }),
    {
        StreamBuffer {
            chunks: VecDeque::with_capacity(max_frames),
            max_size: max_frames,
            total_bytes: 0,
            max_bytes: max_bytes_mb * BYTES_PER_MB,
            drop_mode,
            fps,
            stats: BufferStats { frames_added: 0, frames_dropped: 0, frames_read: 0, frame_count: 0 },
        }
    }

    /// Removes the oldest frame, if any, counting it as dropped.
    fn drop_front(&mut self) -> (dropped: bool)
        requires
            old(self).wf(),
            old(self).stats.frames_dropped < u64::MAX,
        ensures
            final(self).wf(),
            dropped == (old(self).chunks@.len() > 0),
            dropped ==> final(self).chunks@ == old(self).chunks@.drop_first(),
            !dropped ==> final(self).chunks@ == old(self).chunks@,
            final(self).stats.frames_dropped == old(self).stats.frames_dropped + (if dropped { 1int } else { 0 }),
            final(self).stats.frames_added == old(self).stats.frames_added,
            final(self).stats.frames_read == old(self).stats.frames_read,
            final(self).max_size == old(self).max_size,
            final(self).max_bytes == old(self).max_bytes,
            final(self).drop_mode == old(self).drop_mode,
            final(self).fps == old(self).fps,
    {
        let ghost before = self.chunks@;
        match self.chunks.pop_front() {
            Some(old_frame) => {
                proof {
                    lemma_bytes_drop_first(before);
                    assert(before.subrange(1, before.len() as int) =~= before.drop_first());
                }
                self.total_bytes = self.total_bytes - old_frame.data.len();
                self.stats.frames_dropped = self.stats.frames_dropped + 1;
                self.stats.frame_count = self.chunks.len();
                true
            },
            None => false,
        }
    }

    /// Whether `push_frame(frame)` can run without its counters or byte
    /// total leaving the range of their machine integers.
    pub fn can_accept(&self, frame: &FrameData) -> (b: bool)
        requires
            self.wf(),
        ensures
            b == self.can_push(frame),
    {
        self.total_bytes <= usize::MAX - frame.data.len() && self.stats.frames_added < u64::MAX
            && self.stats.frames_dropped < u64::MAX
    }

    /// Push a new frame to the buffer. When the buffer is full (by frames or
    /// by bytes) the drop mode decides what makes room: the oldest frame,
    /// the new frame itself, or the oldest frame that is not a keyframe.
    #[verifier::loop_isolation(false)]
    pub fn push_frame(&mut self, frame: FrameData) -> (res: Result<(), ScreenCaptureError>)
        requires
            old(self).wf(),
            old(self).can_push(&frame),
        ensures
            res is Ok,
            final(self).wf(),
            ({
                let (frames, dropped) = pushed(
                    old(self).frames(),
                    old(self).max_frames(),
                    old(self).byte_limit(),
                    old(self).mode(),
                    frame,
                );
                &&& final(self).frames() == frames
                &&& final(self).counters().frames_dropped == old(self).counters().frames_dropped + dropped
            }),
            final(self).counters().frames_added == old(self).counters().frames_added + 1,
            final(self).counters().frames_read == old(self).counters().frames_read,
            final(self).counters().frame_count == final(self).frames().len(),
            final(self).max_frames() == old(self).max_frames(),
            final(self).byte_limit() == old(self).byte_limit(),
            final(self).mode() == old(self).mode(),
            final(self).frame_rate() == old(self).frame_rate(),
    {
        let frame_size = frame.data.len();
        let ghost before = self.chunks@;
        self.stats.frames_added = self.stats.frames_added + 1;
        let is_buffer_full = self.chunks.len() >= self.max_size || self.total_bytes + frame_size
            > self.max_bytes;
        assert(is_buffer_full == is_full(before.len(), self.max_size as nat, bytes_of(before), frame_size as nat, self.max_bytes as nat));
        if is_buffer_full {
            match self.drop_mode {
                DropMode::DropNewest => {
                    self.stats.frames_dropped = self.stats.frames_dropped + 1;
                    return Ok(());
                },
                DropMode::DropNonKeyframes => {
                    let mut i: usize = 0;
                    let n = self.chunks.len();
                    proof {
                        lemma_first_non_keyframe_from(before, 0);
                    }
                    while i < n && self.chunks[i].keyframe
                        invariant
                            n == self.chunks@.len(),
                            self.chunks@ == before,
                            i <= n,
                            first_non_keyframe(before) == first_non_keyframe_from(before, i as int),
                        decreases n - i,
                    {
                        i = i + 1;
                    }
                    if i < n {
                        proof {
                            lemma_bytes_remove(before, i as int);
                        }
                        match self.chunks.remove(i) {
                            Some(removed) => {
                                self.total_bytes = self.total_bytes - removed.data.len();
                                self.stats.frames_dropped = self.stats.frames_dropped + 1;
                            },
                            None => {},
                        }
                    } else {
                        self.drop_front();
                        proof {
                            if before.len() > 0 {
                                lemma_bytes_drop_first(before);
                            }
                        }
                    }
                },
                _ => {
                    self.drop_front();
                    proof {
                        if before.len() > 0 {
                            lemma_bytes_drop_first(before);
                        }
                    }
                },
            }
        }
        let ghost mid = self.chunks@;
        proof {
            lemma_bytes_push(mid, frame);
        }
        self.chunks.push_back(frame);
        self.total_bytes = self.total_bytes + frame_size;
        self.stats.frame_count = self.chunks.len();
        Ok(())
    }

    /// Get the next (oldest) frame from the buffer, removing it.
    pub fn get_next_frame(&mut self) -> (res: Option<FrameData>)
        requires
            old(self).wf(),
            old(self).counters().frames_read < u64::MAX,
        ensures
            final(self).wf(),
            old(self).frames().len() == 0 ==> res is None && final(self).frames() == old(self).frames()
                && final(self).counters() == old(self).counters(),
            old(self).frames().len() > 0 ==> res == Some(old(self).frames()[0]) && final(self).frames()
                == old(self).frames().drop_first() && final(self).counters().frames_read
                == old(self).counters().frames_read + 1,
            final(self).counters().frames_added == old(self).counters().frames_added,
            final(self).counters().frames_dropped == old(self).counters().frames_dropped,
            final(self).max_frames() == old(self).max_frames(),
            final(self).byte_limit() == old(self).byte_limit(),
            final(self).mode() == old(self).mode(),
            final(self).frame_rate() == old(self).frame_rate(),
    {
        let ghost before = self.chunks@;
        match self.chunks.pop_front() {
            Some(frame) => {
                proof {
                    lemma_bytes_drop_first(before);
                    assert(before.subrange(1, before.len() as int) =~= before.drop_first());
                }
                self.total_bytes = self.total_bytes - frame.data.len();
                self.stats.frames_read = self.stats.frames_read + 1;
                self.stats.frame_count = self.chunks.len();
                Some(frame)
            },
            None => None,
        }
    }

    /// Peek at the next frame without removing it
    pub fn peek_next_frame(&self) -> (res: Option<&FrameData>)
        ensures
            self.frames().len() == 0 ==> res is None,
            self.frames().len() > 0 ==> res == Some(&self.frames()[0]),
    {
        if self.chunks.len() == 0 {
            None
        } else {
            Some(&self.chunks[0])
        }
    }

    /// Get the number of frames in the buffer
    pub fn len(&self) -> (n: usize)
        ensures
            n == self.frames().len(),
    {
        self.chunks.len()
    }

    /// Check if the buffer is empty
    pub fn is_empty(&self) -> (b: bool)
        ensures
            b == (self.frames().len() == 0),
    {
        self.chunks.len() == 0
    }

    /// Clear the buffer
    pub fn clear(&mut self)
        requires
            old(self).wf(),
        ensures
            final(self).wf(),
            final(self).frames() == Seq::<FrameData>::empty(),
            final(self).counters().frames_added == old(self).counters().frames_added,
            final(self).counters().frames_dropped == old(self).counters().frames_dropped,
            final(self).counters().frames_read == old(self).counters().frames_read,
            final(self).max_frames() == old(self).max_frames(),
            final(self).byte_limit() == old(self).byte_limit(),
            final(self).mode() == old(self).mode(),
            final(self).frame_rate() == old(self).frame_rate(),
    {
        self.chunks.clear();
        self.total_bytes = 0;
        self.stats.frame_count = 0;
    }

    /// Get the buffer statistics
    pub fn get_stats(&self) -> (s: &BufferStats)
        ensures
            *s == self.counters(),
    {
        &self.stats
    }

    /// Get the current buffer size in bytes
    pub fn get_bytes(&self) -> (n: usize)
        requires
            self.wf(),
        ensures
            n == self.bytes(),
    {
        self.total_bytes
    }

    /// Get the maximum buffer size in bytes
    pub fn get_max_bytes(&self) -> (n: usize)
        ensures
            n == self.byte_limit(),
    {
        self.max_bytes
    }

    /// Get the maximum number of frames
    pub fn get_max_frames(&self) -> (n: usize)
        ensures
            n == self.max_frames(),
    {
        self.max_size
    }

    /// Get the frame rate used for latency estimates
    pub fn get_fps(&self) -> (fps: u32)
        ensures
            fps == self.frame_rate(),
    {
        self.fps
    }

    /// Get the drop mode
    pub fn get_drop_mode(&self) -> (m: DropMode)
        ensures
            m == self.mode(),
    {
        self.drop_mode
    }

    /// Adjust the buffer size, dropping the oldest frames until the buffer
    /// holds at most `max_frames` frames and `max_bytes_mb` mebibytes.
    pub fn resize(&mut self, max_frames: usize, max_bytes_mb: usize)
        requires
            old(self).wf(),
            max_bytes_mb * BYTES_PER_MB <= usize::MAX,
            old(self).counters().frames_dropped + old(self).frames().len() <= u64::MAX,
        ensures
            final(self).wf(),
            final(self).max_frames() == max_frames,
            final(self).byte_limit() == max_bytes_mb * BYTES_PER_MB,
            final(self).frames() == old(self).frames().skip(
                trim_count(old(self).frames(), max_frames as nat, (max_bytes_mb * BYTES_PER_MB) as nat) as int,
            ),
            final(self).counters().frames_dropped == old(self).counters().frames_dropped + trim_count(
                old(self).frames(),
                max_frames as nat,
                (max_bytes_mb * BYTES_PER_MB) as nat,
            ),
            final(self).counters().frames_added == old(self).counters().frames_added,
            final(self).counters().frames_read == old(self).counters().frames_read,
            final(self).frames().len() <= max_frames,
            final(self).bytes() <= max_bytes_mb * BYTES_PER_MB,
            final(self).mode() == old(self).mode(),
            final(self).frame_rate() == old(self).frame_rate(),
    {
        self.max_size = max_frames;
        self.max_bytes = max_bytes_mb * BYTES_PER_MB;
        let ghost start = self.chunks@;
        let ghost limit_f = max_frames as nat;
        let ghost limit_b = (max_bytes_mb * BYTES_PER_MB) as nat;
        let ghost mut k: int = 0;
        assert(start.skip(0) =~= start);
        while self.chunks.len() > self.max_size || self.total_bytes > self.max_bytes
            invariant
                self.wf(),
                self.max_size == max_frames,
                self.max_bytes == max_bytes_mb * BYTES_PER_MB,
                limit_f == max_frames as nat,
                limit_b == self.max_bytes as nat,
                0 <= k <= start.len(),
                self.chunks@ == start.skip(k),
                trim_count(start, limit_f, limit_b) == k + trim_count(start.skip(k), limit_f, limit_b),
                self.stats.frames_dropped == old(self).stats.frames_dropped + k,
                old(self).stats.frames_dropped + start.len() <= u64::MAX,
                self.stats.frames_added == old(self).stats.frames_added,
                self.stats.frames_read == old(self).stats.frames_read,
                self.drop_mode == old(self).drop_mode,
                self.fps == old(self).fps,
            decreases self.chunks@.len(),
        {
            if self.chunks.len() == 0 {
                // An empty buffer holds no bytes, so it is within any limit.
                assert(bytes_of(self.chunks@) == 0);
                assert(false);
            }
            proof {
                assert(self.chunks@.len() > limit_f || bytes_of(self.chunks@) > limit_b);
                assert(start.skip(k).drop_first() =~= start.skip(k + 1));
                assert(trim_count(start.skip(k), limit_f, limit_b) == 1 + trim_count(
                    start.skip(k + 1),
                    limit_f,
                    limit_b,
                ));
            }
            self.drop_front();
            proof {
                k = k + 1;
            }
        }
        assert(trim_count(start.skip(k), limit_f, limit_b) == 0);
    }

    /// Set a new frame rate for latency calculation
    pub fn set_fps(&mut self, fps: u32)
        requires
            old(self).wf(),
            fps > 0,
        ensures
            final(self).wf(),
            final(self).frame_rate() == fps,
            final(self).frames() == old(self).frames(),
            final(self).counters() == old(self).counters(),
            final(self).max_frames() == old(self).max_frames(),
            final(self).byte_limit() == old(self).byte_limit(),
            final(self).mode() == old(self).mode(),
    {
        self.fps = fps;
    }

    /// In a well-formed buffer the frame count of the statistics is the
    /// number of frames held.
    pub proof fn lemma_frame_count(&self)
        requires
            self.wf(),
        ensures
            self.counters().frame_count == self.frames().len(),
    {
    }

    /// Get all frames, oldest first, draining the buffer
    pub fn drain(&mut self) -> (frames: Vec<FrameData>)
        requires
            old(self).wf(),
            old(self).counters().frames_read + old(self).frames().len() <= u64::MAX,
        ensures
            final(self).wf(),
            frames@ == old(self).frames(),
            final(self).frames() == Seq::<FrameData>::empty(),
            final(self).bytes() == 0,
            final(self).counters().frame_count == 0,
            final(self).counters().frames_read == old(self).counters().frames_read + old(self).frames().len(),
            final(self).counters().frames_added == old(self).counters().frames_added,
            final(self).counters().frames_dropped == old(self).counters().frames_dropped,
            final(self).max_frames() == old(self).max_frames(),
            final(self).byte_limit() == old(self).byte_limit(),
            final(self).mode() == old(self).mode(),
            final(self).frame_rate() == old(self).frame_rate(),
    {
        let mut frames: Vec<FrameData> = Vec::new();
        let ghost start = self.chunks@;
        while self.chunks.len() > 0
            invariant
                self.wf(),
                start == frames@ + self.chunks@,
                self.stats.frames_read == old(self).stats.frames_read + frames@.len(),
                old(self).stats.frames_read + start.len() <= u64::MAX,
                self.stats.frames_added == old(self).stats.frames_added,
                self.stats.frames_dropped == old(self).stats.frames_dropped,
                self.max_size == old(self).max_size,
                self.max_bytes == old(self).max_bytes,
                self.drop_mode == old(self).drop_mode,
                self.fps == old(self).fps,
            decreases self.chunks@.len(),
        {
            if let Some(frame) = self.get_next_frame() {
                frames.push(frame);
            }
            assert(start =~= frames@ + self.chunks@);
        }
        assert(frames@ + self.chunks@ =~= frames@);
        frames
    }

    /// Change the drop mode
    pub fn set_drop_mode(&mut self, mode: DropMode)
        requires
            old(self).wf(),
        ensures
            final(self).wf(),
            final(self).mode() == mode,
            final(self).frames() == old(self).frames(),
            final(self).counters() == old(self).counters(),
            final(self).max_frames() == old(self).max_frames(),
            final(self).byte_limit() == old(self).byte_limit(),
            final(self).frame_rate() == old(self).frame_rate(),
    {
        self.drop_mode = mode;
    }
}

// ---------------------------------------------------------------------------
// Laws of pushing
// ---------------------------------------------------------------------------

/// Every frame pushed is either held or counted as dropped: the frames held
/// after a push and the frames it drops add up to the frames held before
/// plus the one pushed.
pub proof fn law_push_accounts_for_every_frame(
    frames: Seq<FrameData>,
    max_size: nat,
    max_bytes: nat,
    mode: DropMode,
    frame: FrameData,
)
    ensures
        pushed(frames, max_size, max_bytes, mode, frame).0.len() + pushed(frames, max_size, max_bytes, mode, frame).1
            == frames.len() + 1,
{
    if is_full(frames.len(), max_size, bytes_of(frames), frame.data@.len(), max_bytes) && mode
        == DropMode::DropNonKeyframes {
        lemma_first_non_keyframe_from(frames, 0);
    }
}

/// A buffer that holds at least one frame never holds more frames than its
/// limit.
pub proof fn law_push_respects_frame_limit(
    frames: Seq<FrameData>,
    max_size: nat,
    max_bytes: nat,
    mode: DropMode,
    frame: FrameData,
)
    requires
        max_size >= 1,
        frames.len() <= max_size,
    ensures
        pushed(frames, max_size, max_bytes, mode, frame).0.len() <= max_size,
{
    law_push_accounts_for_every_frame(frames, max_size, max_bytes, mode, frame);
    if is_full(frames.len(), max_size, bytes_of(frames), frame.data@.len(), max_bytes) && mode
        == DropMode::DropNonKeyframes {
        lemma_first_non_keyframe_from(frames, 0);
    }
}

/// A frame pushed into a buffer with room is held last, after the frames
/// already held, and nothing is dropped.
pub proof fn law_push_with_room_appends(
    frames: Seq<FrameData>,
    max_size: nat,
    max_bytes: nat,
    mode: DropMode,
    frame: FrameData,
)
    requires
        !is_full(frames.len(), max_size, bytes_of(frames), frame.data@.len(), max_bytes),
    ensures
        pushed(frames, max_size, max_bytes, mode, frame) == (frames.push(frame), 0nat),
{
}

/// A push keeps the order of the frames held and removes at most one of
/// them: the frame pushed is held last after the others, unless the buffer
/// is full and drops the newest frame, in which case nothing changes.
pub proof fn law_push_removes_at_most_one(
    frames: Seq<FrameData>,
    max_size: nat,
    max_bytes: nat,
    mode: DropMode,
    frame: FrameData,
)
    ensures
        ({
            let (held, dropped) = pushed(frames, max_size, max_bytes, mode, frame);
            ||| dropped == 0 && held == frames.push(frame)
            ||| dropped == 1 && held == frames && mode == DropMode::DropNewest
            ||| dropped == 1 && exists|k: int| 0 <= k < frames.len() && held == #[trigger] frames.remove(k).push(frame)
        }),
{
    if is_full(frames.len(), max_size, bytes_of(frames), frame.data@.len(), max_bytes) && mode != DropMode::DropNewest {
        if frames.len() > 0 {
            assert(frames.drop_first() =~= frames.remove(0));
        }
        if mode == DropMode::DropNonKeyframes {
            lemma_first_non_keyframe_from(frames, 0);
        }
        if frames.len() == 0 {
            assert(frames.push(frame) == frames.push(frame));
        }
    }
}

/// When the buffer is full and drops the oldest frame, it drops exactly the
/// oldest frame and holds the new one last.
pub proof fn law_drop_oldest_drops_the_oldest(
    frames: Seq<FrameData>,
    max_size: nat,
    max_bytes: nat,
    frame: FrameData,
)
    requires
        frames.len() > 0,
        is_full(frames.len(), max_size, bytes_of(frames), frame.data@.len(), max_bytes),
    ensures
        pushed(frames, max_size, max_bytes, DropMode::DropOldest, frame) == (frames.drop_first().push(frame), 1nat),
{
}

/// When the buffer is full and drops the newest frame, it keeps what it
/// holds and drops the frame pushed.
pub proof fn law_drop_newest_keeps_what_is_held(
    frames: Seq<FrameData>,
    max_size: nat,
    max_bytes: nat,
    frame: FrameData,
)
    requires
        is_full(frames.len(), max_size, bytes_of(frames), frame.data@.len(), max_bytes),
    ensures
        pushed(frames, max_size, max_bytes, DropMode::DropNewest, frame) == (frames, 1nat),
{
}

/// When the buffer is full and drops non-keyframes first, the frame dropped
/// is the oldest frame that is not a keyframe, when there is one: every
/// keyframe held stays.
pub proof fn law_keyframes_outlast_other_frames(
    frames: Seq<FrameData>,
    max_size: nat,
    max_bytes: nat,
    frame: FrameData,
    k: int,
)
    requires
        is_full(frames.len(), max_size, bytes_of(frames), frame.data@.len(), max_bytes),
        0 <= k < frames.len(),
        !frames[k].keyframe,
        forall|j: int| 0 <= j < k ==> #[trigger] frames[j].keyframe,
    ensures
        pushed(frames, max_size, max_bytes, DropMode::DropNonKeyframes, frame) == (frames.remove(k).push(frame), 1nat),
{
    lemma_first_non_keyframe_from(frames, 0);
    let f = first_non_keyframe(frames);
    if f < k {
        assert(frames[f].keyframe);
    }
}

} // verus!
