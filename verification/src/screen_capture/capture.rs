//! Assembling the encoder's output stream into frames: the bytes read are
//! appended to what is pending, the complete frames are taken out, and the
//! rest waits for more data.
use vstd::prelude::*;
use crate::screen_capture::ffmpeg::{frames_upto, is_frame_marker, scan_len, split_frames_spec, split_stream_frames};
use crate::screen_capture::types::FrameData;
use crate::text::owned;

verus! {

/// The most pending encoder output kept (10 MiB); past it something went
/// wrong and the pending data is discarded.
pub const PENDING_LIMIT: usize = 10485760;

/// The frames completed by a chunk of output arriving after `pending`, and
/// what stays pending.
pub open spec fn after_chunk(pending: Seq<u8>, chunk: Seq<u8>) -> (Seq<Seq<u8>>, Seq<u8>) {
    let buf = pending + chunk;
    let (frames, used) = split_frames_spec(buf);
    let rest = buf.skip(used as int);
    (frames, if rest.len() > PENDING_LIMIT {
        Seq::empty()
    } else {
        rest
    })
}

/// The encoder output read but not yet part of a complete frame.
pub struct StreamAssembler {
    pending: Vec<u8>,
}

impl StreamAssembler {
    pub closed spec fn pending(&self) -> Seq<u8> {
        self.pending@
    }

    #[verifier::type_invariant]
    spec fn within_limit(&self) -> bool {
        self.pending@.len() <= PENDING_LIMIT
    }

    /// Nothing pending.
    pub fn new() -> (a: Self)
        ensures
            a.pending() == Seq::<u8>::empty(),
    {
        StreamAssembler { pending: Vec::new() }
    }

    /// How many bytes are pending.
    pub fn pending_len(&self) -> (n: usize)
        ensures
            n == self.pending().len(),
    {
        self.pending.len()
    }

    /// Take in a chunk of encoder output; returns the frames it completes,
    /// oldest first.
    pub fn take_chunk(&mut self, chunk: &[u8]) -> (frames: Vec<Vec<u8>>)
        requires
            chunk@.len() <= usize::MAX - PENDING_LIMIT,
        ensures
            frames@.map_values(|f: Vec<u8>| f@) == after_chunk(old(self).pending(), chunk@).0,
            final(self).pending() == after_chunk(old(self).pending(), chunk@).1,
    {
        proof {
            use_type_invariant(&*self);
        }
        let mut buf: Vec<u8> = Vec::new();
        std::mem::swap(&mut buf, &mut self.pending);
        let ghost start = buf@;
        let mut i: usize = 0;
        while i < chunk.len()
            invariant
                i <= chunk@.len(),
                buf@ == start + chunk@.take(i as int),
            decreases chunk.len() - i,
        {
            buf.push(chunk[i]);
            assert(chunk@.take(i as int + 1) =~= chunk@.take(i as int).push(chunk@[i as int]));
            i = i + 1;
        }
        assert(chunk@.take(chunk@.len() as int) =~= chunk@);
        let (frames, used) = split_stream_frames(&buf);
        proof {
            crate::screen_capture::ffmpeg::lemma_split_used(buf@);
        }
        let mut rest: Vec<u8> = Vec::new();
        let mut j: usize = used;
        while j < buf.len()
            invariant
                used <= j <= buf@.len(),
                rest@ == buf@.subrange(used as int, j as int),
            decreases buf.len() - j,
        {
            rest.push(buf[j]);
            assert(buf@.subrange(used as int, j + 1) =~= buf@.subrange(used as int, j as int).push(buf@[j as int]));
            j = j + 1;
        }
        assert(rest@ =~= buf@.skip(used as int));
        if rest.len() > PENDING_LIMIT {
            rest = Vec::new();
            assert(rest@ =~= Seq::<u8>::empty());
        }
        self.pending = rest;
        frames
    }
}

/// A frame of the matroska stream, taken as a keyframe.
pub fn matroska_frame(data: Vec<u8>, timestamp: u64, width: u32, height: u32) -> (f: FrameData)
    ensures
        f.data@ == data@,
        f.timestamp == timestamp,
        f.keyframe,
        f.width == width,
        f.height == height,
        f.format@ == "matroska"@,
{
    FrameData { data, timestamp, keyframe: true, width, height, format: owned("matroska") }
}

/// The frames' bytes, one frame after the other.
pub open spec fn joined(frames: Seq<Seq<u8>>) -> Seq<u8>
    decreases frames.len(),
{
    if frames.len() == 0 {
        Seq::empty()
    } else {
        joined(frames.drop_last()) + frames.last()
    }
}

proof fn lemma_frames_cover_prefix(buf: Seq<u8>, n: nat)
    requires
        n <= buf.len(),
    ensures
        frames_upto(buf, n).1 <= n,
        joined(frames_upto(buf, n).0) == buf.take(frames_upto(buf, n).1 as int),
    decreases n,
{
    if n == 0 {
        assert(buf.take(0) =~= Seq::<u8>::empty());
    } else {
        lemma_frames_cover_prefix(buf, (n - 1) as nat);
        let (frames, start) = frames_upto(buf, (n - 1) as nat);
        let i = (n - 1) as nat;
        if is_frame_marker(buf, i as int) && i > start {
            let nf = frames.push(buf.subrange(start as int, i as int));
            assert(nf.drop_last() =~= frames);
            assert(buf.take(start as int) + buf.subrange(start as int, i as int) =~= buf.take(i as int));
        }
    }
}

/// Assembling loses and repeats nothing: the frames completed, one after
/// the other, then what stays pending, are exactly the output read so far
/// (unless the pending data outgrew its limit and was discarded).
pub proof fn law_assembly_keeps_every_byte(pending: Seq<u8>, chunk: Seq<u8>)
    ensures
        ({
            let buf = pending + chunk;
            let (frames, rest) = after_chunk(pending, chunk);
            buf.len() - split_frames_spec(buf).1 <= PENDING_LIMIT ==> joined(frames) + rest == buf
        }),
{
    let buf = pending + chunk;
    lemma_frames_cover_prefix(buf, scan_len(buf.len()));
    let used = split_frames_spec(buf).1;
    assert(buf.take(used as int) + buf.skip(used as int) =~= buf);
}


/// Whether `s` begins with a frame marker `0x87 0x00`.
pub open spec fn starts_with_marker(s: Seq<u8>) -> bool {
    s.len() >= 2 && s[0] == 0x87 && s[1] == 0x00
}

/// Whether no frame marker starts inside `f` (past its first byte).
pub open spec fn marker_free(f: Seq<u8>) -> bool {
    forall|j: int| 1 <= j < f.len() - 1 ==> !#[trigger] is_frame_marker(f, j)
}

/// The output of the encoder, read in the chunks `chunks`, one after the
/// other.
pub open spec fn stream_of(chunks: Seq<Seq<u8>>) -> Seq<u8>
    decreases chunks.len(),
{
    if chunks.len() == 0 {
        Seq::empty()
    } else {
        stream_of(chunks.drop_last()) + chunks.last()
    }
}

/// Taking in the chunks `chunks` in order, starting with nothing pending:
/// the frames completed, oldest first, what stays pending, and whether no
/// pending data was ever discarded for outgrowing its limit.
pub open spec fn assembled(chunks: Seq<Seq<u8>>) -> (Seq<Seq<u8>>, Seq<u8>, bool)
    decreases chunks.len(),
{
    if chunks.len() == 0 {
        (Seq::empty(), Seq::empty(), true)
    } else {
        let (frames, pending, kept) = assembled(chunks.drop_last());
        let buf = pending + chunks.last();
        let (more, rest) = after_chunk(pending, chunks.last());
        (frames + more, rest, kept && buf.len() - split_frames_spec(buf).1 <= PENDING_LIMIT)
    }
}

proof fn lemma_joined_concat(a: Seq<Seq<u8>>, b: Seq<Seq<u8>>)
    ensures
        joined(a + b) == joined(a) + joined(b),
    decreases b.len(),
{
    if b.len() == 0 {
        assert(a + b =~= a);
        assert(joined(a) + joined(b) =~= joined(a));
    } else {
        assert((a + b).drop_last() =~= a + b.drop_last());
        lemma_joined_concat(a, b.drop_last());
        assert(joined(a + b) =~= joined(a) + joined(b));
    }
}

/// The shape of the frames found scanning `[0, n)` of `buf`: each is not
/// empty and holds no marker past its first byte; each but the first, and
/// the first when `buf` begins with a marker, begins with one; the data
/// left starts at a marker when any frame was taken, and holds no marker
/// among the positions scanned past its first.
proof fn lemma_split_shape(buf: Seq<u8>, n: nat)
    requires
        n <= scan_len(buf.len()),
    ensures
        ({
            let (fs, start) = frames_upto(buf, n);
            &&& start <= n
            &&& start > 0 ==> is_frame_marker(buf, start as int)
            &&& fs.len() > 0 <==> start > 0
            &&& forall|j: int| start < j < n ==> !#[trigger] is_frame_marker(buf, j)
            &&& forall|m: int|
                0 <= m < fs.len() ==> (#[trigger] fs[m]).len() > 0 && marker_free(fs[m]) && ((m > 0
                    || is_frame_marker(buf, 0)) ==> starts_with_marker(fs[m]))
        }),
    decreases n,
{
    if n > 0 {
        lemma_split_shape(buf, (n - 1) as nat);
        let (fs, start) = frames_upto(buf, (n - 1) as nat);
        let i = (n - 1) as nat;
        if is_frame_marker(buf, i as int) && i > start {
            let f = buf.subrange(start as int, i as int);
            if start > 0 || is_frame_marker(buf, 0) {
                assert(is_frame_marker(buf, start as int));
                assert(i >= start + 2);
            }
            assert forall|j: int| 1 <= j < f.len() - 1 implies !#[trigger] is_frame_marker(f, j) by {
                assert(f[j] == buf[start + j]);
                assert(f[j + 1] == buf[start + j + 1]);
                assert(!is_frame_marker(buf, start + j));
            }
            let nfs = fs.push(f);
            assert forall|m: int| 0 <= m < nfs.len() implies (#[trigger] nfs[m]).len() > 0 && marker_free(nfs[m])
                && ((m > 0 || is_frame_marker(buf, 0)) ==> starts_with_marker(nfs[m])) by {
                if m == fs.len() {
                    if m > 0 || is_frame_marker(buf, 0) {
                        if start == 0 {
                            assert(is_frame_marker(buf, 0));
                        } else {
                            assert(is_frame_marker(buf, start as int));
                        }
                        assert(f[0] == buf[start as int]);
                        assert(f[1] == buf[start as int + 1]);
                    }
                } else {
                    assert(nfs[m] == fs[m]);
                }
            }
        }
    }
}

/// Assembling a whole stream: as long as no pending data was discarded for
/// outgrowing its limit, the frames completed, one after the other, then
/// what stays pending, are exactly the stream read; every frame is a
/// nonempty run of the stream that starts at the start of the stream or at
/// a `0x87 0x00` marker, holds no marker past its first byte, and is
/// followed by a marker (the next frame, or the pending data, begins with
/// one).
pub proof fn law_stream_is_cut_at_markers(chunks: Seq<Seq<u8>>)
    ensures
        ({
            let (frames, pending, kept) = assembled(chunks);
            kept ==> {
                &&& joined(frames) + pending == stream_of(chunks)
                &&& forall|m: int| 0 <= m < frames.len() ==> (#[trigger] frames[m]).len() > 0 && marker_free(frames[m])
                &&& forall|m: int| 0 < m < frames.len() ==> starts_with_marker(#[trigger] frames[m])
                &&& frames.len() > 0 ==> starts_with_marker(pending)
            }
        }),
    decreases chunks.len(),
{
    if chunks.len() > 0 {
        law_stream_is_cut_at_markers(chunks.drop_last());
        let (frames, pending, kept) = assembled(chunks.drop_last());
        let chunk = chunks.last();
        let buf = pending + chunk;
        let (more, used) = split_frames_spec(buf);
        let rest = buf.skip(used as int);
        if kept && buf.len() - used <= PENDING_LIMIT {
            law_assembly_keeps_every_byte(pending, chunk);
            lemma_split_shape(buf, scan_len(buf.len()));
            lemma_joined_concat(frames, more);
            assert(after_chunk(pending, chunk) == (more, rest));
            if frames.len() > 0 {
                assert(buf[0] == pending[0] && buf[1] == pending[1]);
                assert(is_frame_marker(buf, 0));
            }
            if used > 0 {
                assert(rest[0] == buf[used as int] && rest[1] == buf[used as int + 1]);
            } else {
                assert(rest =~= buf);
                if frames.len() > 0 {
                    assert(buf[0] == pending[0] && buf[1] == pending[1]);
                }
            }
            let all = frames + more;
            assert forall|m: int| 0 <= m < all.len() implies (#[trigger] all[m]).len() > 0 && marker_free(all[m])
                && (m > 0 ==> starts_with_marker(all[m])) by {
                if m >= frames.len() {
                    assert(all[m] == more[m - frames.len()]);
                } else {
                    assert(all[m] == frames[m]);
                }
            }
            assert(joined(all) + rest =~= joined(frames) + (joined(more) + rest));
        }
    }
}

} // verus!
