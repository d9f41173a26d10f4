//! What the clipboard manager keeps and decides: the bounded history of
//! entries, the detection of changes while the clipboard is watched, what a
//! remote entry asks of the local clipboard, and the form entries are sent
//! in.
use vstd::prelude::*;
use base64::Engine as _;
use crate::clipboard::error::{ClipboardError, ClipboardErrorKind};
use crate::clipboard::types::{ClipboardContentType, ClipboardEntry, ClipboardMetadata, EntryView, MetadataView, entry_views};
use crate::screen_capture::types::DisplayServer;
use crate::screen_capture::utils::{base64_encode, base64_of};
use crate::text::{owned, str_eq};

verus! {

/// The error type of Base64 decoding.
#[verifier::external_type_specification]
#[verifier::external_body]
pub struct ExDecodeError(base64::DecodeError);

/// `base64::engine::general_purpose::STANDARD.decode`: standard Base64 with
/// canonical padding, the inverse of encoding. It succeeds exactly on the
/// encodings of byte strings, and gives back the bytes encoded.
#[verifier::external_body]
fn base64_decode(text: &str) -> (r: Result<Vec<u8>, base64::DecodeError>)
    ensures
        r matches Ok(b) ==> base64_of(b@) == text@,
        r is Err ==> forall|b: Seq<u8>| base64_of(b) != text@,
{
    base64::engine::general_purpose::STANDARD.decode(text)
}

/// Which clipboard provider serves a display server.
#[derive(Debug, Clone, Copy, PartialEq, Eq, Structural)]
pub enum ClipboardBackend {
    X11,
    Wayland,
}

/// The clipboard provider for a display server; an unknown display server
/// has none.
pub fn clipboard_backend(server: DisplayServer) -> (res: Result<ClipboardBackend, ClipboardError>)
    ensures
        server == DisplayServer::X11 ==> res == Ok::<ClipboardBackend, ClipboardError>(ClipboardBackend::X11),
        server == DisplayServer::Wayland ==> res == Ok::<ClipboardBackend, ClipboardError>(ClipboardBackend::Wayland),
        server == DisplayServer::Unknown ==> (res matches Err(e) && e.is(
            ClipboardErrorKind::UnsupportedPlatform,
            "Unknown display server"@,
        )),
{
    match server {
        DisplayServer::X11 => Ok(ClipboardBackend::X11),
        DisplayServer::Wayland => Ok(ClipboardBackend::Wayland),
        DisplayServer::Unknown => Err(ClipboardError::UnsupportedPlatform(owned("Unknown display server"))),
    }
}

// ---------------------------------------------------------------------------
// History
// ---------------------------------------------------------------------------

/// Adding an entry to a history of at most `max` entries: the oldest entry
/// leaves when the history grows past `max`.
pub open spec fn bounded_add(h: Seq<EntryView>, e: EntryView, max: nat) -> Seq<EntryView> {
    if h.len() + 1 > max {
        h.push(e).drop_first()
    } else {
        h.push(e)
    }
}

/// Whether the history holds an entry with id `id`.
pub open spec fn has_id(h: Seq<EntryView>, id: Seq<char>) -> bool {
    exists|i: int| 0 <= i < h.len() && (#[trigger] h[i]).id == id
}

/// The clipboard history: the most recent entries, oldest first, at most a
/// fixed number of them.
pub struct ClipboardHistory {
    entries: Vec<ClipboardEntry>,
    max_size: usize,
}

impl ClipboardHistory {
    /// The entries, oldest first.
    pub closed spec fn entries(&self) -> Seq<EntryView> {
        entry_views(self.entries@)
    }

    /// The most entries the history keeps.
    pub closed spec fn capacity(&self) -> nat {
        self.max_size as nat
    }

    #[verifier::type_invariant]
    spec fn bounded(&self) -> bool {
        self.entries@.len() <= self.max_size
    }

    /// An empty history of at most `max_size` entries.
    pub fn new(max_size: usize) -> (h: Self)
        ensures
            h.entries().len() == 0,
            h.capacity() == max_size,
    {
        let h = ClipboardHistory { entries: Vec::new(), max_size };
        assert(h.entries() =~= Seq::<EntryView>::empty());
        h
    }

    /// The number of entries.
    pub fn len(&self) -> (n: usize)
        ensures
            n == self.entries().len(),
    {
        self.entries.len()
    }

    /// Add an entry; the oldest leaves when the history is full.
    pub fn push(&mut self, entry: ClipboardEntry)
        ensures
            final(self).entries() == bounded_add(old(self).entries(), entry@, old(self).capacity()),
            final(self).capacity() == old(self).capacity(),
            final(self).entries().len() <= final(self).capacity(),
    {
        proof {
            use_type_invariant(&*self);
        }
        let ghost before = self.entries();
        let ghost e = entry@;
        let mut entries: Vec<ClipboardEntry> = Vec::new();
        std::mem::swap(&mut entries, &mut self.entries);
        entries.push(entry);
        assert(entry_views(entries@) =~= before.push(e));
        if entries.len() > self.max_size {
            let ghost pushed = entry_views(entries@);
            entries.remove(0);
            assert(entry_views(entries@) =~= pushed.drop_first());
        }
        self.entries = entries;
    }

    fn find_index(&self, id: &str) -> (r: Option<usize>)
        ensures
            match r {
                Some(i) => i < self.entries().len() && self.entries()[i as int].id == id@ && forall|j: int|
                    0 <= j < i ==> (#[trigger] self.entries()[j]).id != id@,
                None => !has_id(self.entries(), id@),
            },
    {
        let mut i: usize = 0;
        while i < self.entries.len()
            invariant
                i <= self.entries@.len(),
                forall|j: int| 0 <= j < i ==> (#[trigger] self.entries()[j]).id != id@,
            decreases self.entries.len() - i,
        {
            assert(self.entries()[i as int] == self.entries@[i as int]@);
            if str_eq(self.entries[i].id.as_str(), id) {
                return Some(i);
            }
            i = i + 1;
        }
        None
    }

    /// Add an entry received from a peer, unless an entry with its id is
    /// already held.
    pub fn add_remote(&mut self, entry: ClipboardEntry)
        ensures
            has_id(old(self).entries(), entry.id@) ==> final(self).entries() == old(self).entries(),
            !has_id(old(self).entries(), entry.id@) ==> final(self).entries() == bounded_add(
                old(self).entries(),
                entry@,
                old(self).capacity(),
            ),
            final(self).capacity() == old(self).capacity(),
            final(self).entries().len() <= final(self).capacity(),
    {
        proof {
            use_type_invariant(&*self);
        }
        match self.find_index(entry.id.as_str()) {
            Some(_) => {},
            None => self.push(entry),
        }
    }

    /// Remove every entry.
    pub fn clear(&mut self)
        ensures
            final(self).entries().len() == 0,
            final(self).capacity() == old(self).capacity(),
    {
        self.entries = Vec::new();
        assert(self.entries() =~= Seq::<EntryView>::empty());
    }

    /// A copy of the entries, oldest first.
    pub fn snapshot(&self) -> (v: Vec<ClipboardEntry>)
        ensures
            entry_views(v@) == self.entries(),
    {
        let mut v: Vec<ClipboardEntry> = Vec::new();
        let mut i: usize = 0;
        while i < self.entries.len()
            invariant
                i <= self.entries@.len(),
                entry_views(v@) == self.entries().take(i as int),
            decreases self.entries.len() - i,
        {
            let e = self.entries[i].duplicate();
            let ghost before = v@;
            v.push(e);
            assert(entry_views(v@) =~= entry_views(before).push(e@));
            assert(self.entries().take(i as int + 1) =~= self.entries().take(i as int).push(self.entries@[i as int]@));
            i = i + 1;
        }
        assert(self.entries().take(self.entries@.len() as int) =~= self.entries());
        v
    }

    /// A copy of the first entry with id `id`, for export.
    pub fn find(&self, id: &str) -> (res: Result<ClipboardEntry, ClipboardError>)
        ensures
            has_id(self.entries(), id@) ==> (res matches Ok(e) && e.id@ == id@ && exists|i: int|
                0 <= i < self.entries().len() && self.entries()[i] == e@ && forall|j: int|
                    0 <= j < i ==> (#[trigger] self.entries()[j]).id != id@),
            !has_id(self.entries(), id@) ==> (res matches Err(e) && e.is(ClipboardErrorKind::EntryNotFound, id@)),
    {
        match self.find_index(id) {
            Some(i) => {
                let e = self.entries[i].duplicate();
                assert(self.entries()[i as int] == e@);
                Ok(e)
            },
            None => Err(ClipboardError::EntryNotFound(owned(id))),
        }
    }
}

// ---------------------------------------------------------------------------
// Watching the clipboard
// ---------------------------------------------------------------------------

/// What a look at the clipboard found: the new text when it changed, and
/// how long to wait before looking again.
#[derive(Debug)]
pub struct WatchStep {
    pub changed: Option<String>,
    pub poll_interval_ms: u64,
}

/// The text differs from the last one known; before any is known, any
/// text that is not empty.
pub open spec fn is_change(last: Option<Seq<char>>, current: Seq<char>) -> bool {
    match last {
        Some(l) => l != current,
        None => current.len() > 0,
    }
}

/// Half a second after a read, a second after finding the clipboard empty,
/// two seconds after any other error.
pub open spec fn poll_interval(read: Result<String, ClipboardError>) -> u64 {
    match read {
        Ok(_) => 500,
        Err(e) => if e.kind() == ClipboardErrorKind::EmptyClipboard {
            1000
        } else {
            2000
        },
    }
}

/// The last clipboard text known, for change detection.
pub struct ClipboardWatch {
    last_content: Option<String>,
}

impl ClipboardWatch {
    pub closed spec fn last(&self) -> Option<Seq<char>> {
        match self.last_content {
            Some(s) => Some(s@),
            None => None,
        }
    }

    /// Nothing known yet.
    pub fn new() -> (w: Self)
        ensures
            w.last() is None,
    {
        ClipboardWatch { last_content: None }
    }

    /// Take in what a read of the clipboard gave.
    pub fn observe(&mut self, read: &Result<String, ClipboardError>) -> (step: WatchStep)
        ensures
            step.poll_interval_ms == poll_interval(*read),
            match read {
                Ok(c) => if is_change(old(self).last(), c@) {
                    &&& step.changed matches Some(t) && t@ == c@
                    &&& final(self).last() == Some(c@)
                } else {
                    &&& step.changed is None
                    &&& final(self).last() == old(self).last()
                },
                Err(_) => step.changed is None && final(self).last() == old(self).last(),
            },
    {
        match read {
            Ok(current) => {
                let changed = match &self.last_content {
                    Some(last) => !str_eq(last.as_str(), current.as_str()),
                    None => !current.as_str().is_empty(),
                };
                if changed {
                    self.last_content = Some(owned(current.as_str()));
                    WatchStep { changed: Some(owned(current.as_str())), poll_interval_ms: 500 }
                } else {
                    WatchStep { changed: None, poll_interval_ms: 500 }
                }
            },
            Err(e) => {
                let poll = match e {
                    ClipboardError::EmptyClipboard => 1000,
                    _ => 2000,
                };
                WatchStep { changed: None, poll_interval_ms: poll }
            },
        }
    }

    /// Record text written to the clipboard from here.
    pub fn remember(&mut self, text: &str)
        ensures
            final(self).last() == Some(text@),
    {
        self.last_content = Some(owned(text));
    }
}

/// The UTF-8 length of a text.
pub open spec fn byte_len(t: Seq<char>) -> nat {
    vstd::utf8::encode_utf8(t).len()
}

/// The entry for a text found on the local clipboard.
pub fn text_entry(id: String, text: &str, timestamp: i64) -> (e: ClipboardEntry)
    ensures
        e.id@ == id@,
        e.content_type == ClipboardContentType::Text,
        e.data@ == text@,
        e.metadata.size == byte_len(text@) as usize,
        e.metadata.mime_type@ == "text/plain"@,
        e.metadata.source@ == "local"@,
        e.timestamp == timestamp,
{
    ClipboardEntry {
        id,
        content_type: ClipboardContentType::Text,
        data: owned(text),
        metadata: ClipboardMetadata { size: text.len(), mime_type: owned("text/plain"), source: owned("local") },
        timestamp,
    }
}

/// The entry made of a text found on the local clipboard.
pub open spec fn text_entry_view(id: Seq<char>, text: Seq<char>, timestamp: i64) -> EntryView {
    EntryView {
        id,
        content_type: ClipboardContentType::Text,
        data: text,
        metadata: MetadataView { size: byte_len(text) as usize, mime_type: "text/plain"@, source: "local"@ },
        timestamp,
    }
}

/// The text a read of the clipboard gave, if it gave one.
pub open spec fn read_text(read: Result<String, ClipboardError>) -> Option<Seq<char>> {
    match read {
        Ok(t) => Some(t@),
        Err(_) => None,
    }
}

/// What one look at the clipboard does to the last text known and to the
/// history: a changed text becomes the last one known and enters the
/// history as an entry with id `id` made at `timestamp`; anything else
/// changes nothing.
pub open spec fn poll_step(
    last: Option<Seq<char>>,
    hist: Seq<EntryView>,
    max: nat,
    read: Option<Seq<char>>,
    id: Seq<char>,
    timestamp: i64,
) -> (Option<Seq<char>>, Seq<EntryView>) {
    match read {
        Some(t) => if is_change(last, t) {
            (Some(t), bounded_add(hist, text_entry_view(id, t, timestamp), max))
        } else {
            (last, hist)
        },
        None => (last, hist),
    }
}

/// One look at the clipboard while it is watched: the read is taken in by
/// the watch, and a changed text enters the history as a new text entry
/// with id `id` made at `timestamp`. Returns the watch's step and the entry
/// added, for the change callbacks.
pub fn record_poll(
    watch: &mut ClipboardWatch,
    history: &mut ClipboardHistory,
    read: &Result<String, ClipboardError>,
    id: String,
    timestamp: i64,
) -> (res: (WatchStep, Option<ClipboardEntry>))
    ensures
        res.0.poll_interval_ms == poll_interval(*read),
        (final(watch).last(), final(history).entries()) == poll_step(
            old(watch).last(),
            old(history).entries(),
            old(history).capacity(),
            read_text(*read),
            id@,
            timestamp,
        ),
        final(history).capacity() == old(history).capacity(),
        match res.1 {
            Some(e) => read_text(*read) matches Some(t) && is_change(old(watch).last(), t) && e@
                == text_entry_view(id@, t, timestamp) && (res.0.changed matches Some(c) && c@ == t),
            None => res.0.changed is None && !(read_text(*read) matches Some(t) && is_change(
                old(watch).last(),
                t,
            )),
        },
{
    let step = watch.observe(read);
    let entry = match &step.changed {
        Some(t) => Some(text_entry(id, t.as_str(), timestamp)),
        None => None,
    };
    match entry {
        Some(e) => {
            history.push(e.duplicate());
            (step, Some(e))
        },
        None => (step, None),
    }
}

/// A run of looks at the clipboard: the last text known, the history, and
/// the texts reported as changes, oldest first, after the reads `reads`
/// (the `i`th look using `ids[i]` and `times[i]` for the entry it would
/// add).
pub open spec fn poll_run(
    last: Option<Seq<char>>,
    hist: Seq<EntryView>,
    max: nat,
    reads: Seq<Option<Seq<char>>>,
    ids: Seq<Seq<char>>,
    times: Seq<i64>,
) -> (Option<Seq<char>>, Seq<EntryView>, Seq<Seq<char>>)
    decreases reads.len(),
{
    if reads.len() == 0 {
        (last, hist, Seq::empty())
    } else {
        let n = reads.len() - 1;
        let (l, h, rep) = poll_run(last, hist, max, reads.drop_last(), ids, times);
        let (l2, h2) = poll_step(l, h, max, reads[n], ids[n], times[n]);
        (l2, h2, match reads[n] {
            Some(t) => if is_change(l, t) {
                rep.push(t)
            } else {
                rep
            },
            None => rep,
        })
    }
}

// ---------------------------------------------------------------------------
// Synchronisation
// ---------------------------------------------------------------------------

/// What a remote entry asks of the local clipboard.
#[derive(Debug)]
pub enum ClipboardAction {
    /// Put this text on the clipboard
    SetText(String),
    /// Put this image, of this MIME type, on the clipboard
    SetImage(Vec<u8>, String),
}

/// What to do with an entry received from a peer: text and HTML are put on
/// the clipboard as text, an image is decoded from Base64 first, files
/// cannot be put on the clipboard.
pub fn remote_action(entry: &ClipboardEntry) -> (res: Result<ClipboardAction, ClipboardError>)
    ensures
        entry.content_type == ClipboardContentType::Text || entry.content_type == ClipboardContentType::Html ==> (
        res matches Ok(ClipboardAction::SetText(t)) && t@ == entry.data@),
        entry.content_type == ClipboardContentType::Image ==> if exists|b: Seq<u8>| base64_of(b) == entry.data@ {
            res matches Ok(ClipboardAction::SetImage(b, m)) && base64_of(b@) == entry.data@ && m@
                == entry.metadata.mime_type@
        } else {
            res matches Err(e) && e.kind() == ClipboardErrorKind::DecodingError
        },
        entry.content_type == ClipboardContentType::Files ==> (res matches Err(e) && e.is(
            ClipboardErrorKind::UnsupportedOperation,
            "Cannot set files to clipboard"@,
        )),
{
    match entry.content_type {
        ClipboardContentType::Text => Ok(ClipboardAction::SetText(owned(entry.data.as_str()))),
        ClipboardContentType::Html => Ok(ClipboardAction::SetText(owned(entry.data.as_str()))),
        ClipboardContentType::Image => match base64_decode(entry.data.as_str()) {
            Ok(bytes) => Ok(ClipboardAction::SetImage(bytes, owned(entry.metadata.mime_type.as_str()))),
            Err(e) => Err(ClipboardError::DecodingError(e.to_string())),
        },
        ClipboardContentType::Files => Err(
            ClipboardError::UnsupportedOperation(owned("Cannot set files to clipboard")),
        ),
    }
}

/// The form an entry is sent in: its data Base64-encoded (image data is
/// already), the rest as it is.
pub fn sync_entry(entry: &ClipboardEntry) -> (s: ClipboardEntry)
    ensures
        s.id@ == entry.id@,
        s.content_type == entry.content_type,
        s.data@ == (if entry.content_type == ClipboardContentType::Image {
            entry.data@
        } else {
            base64_of(vstd::utf8::encode_utf8(entry.data@))
        }),
        s.metadata@ == entry.metadata@,
        s.timestamp == entry.timestamp,
{
    let data = match entry.content_type {
        ClipboardContentType::Image => owned(entry.data.as_str()),
        _ => base64_encode(entry.data.as_str().as_bytes()),
    };
    ClipboardEntry {
        id: owned(entry.id.as_str()),
        content_type: entry.content_type,
        data,
        metadata: entry.metadata.duplicate(),
        timestamp: entry.timestamp,
    }
}

// ---------------------------------------------------------------------------
// Laws
// ---------------------------------------------------------------------------

/// A history of at most `max` entries stays so after an entry is added, and
/// (for a history of at least one entry) holds the entry added, last.
pub proof fn law_history_keeps_newest(h: Seq<EntryView>, e: EntryView, max: nat)
    requires
        h.len() <= max,
    ensures
        bounded_add(h, e, max).len() <= max,
        max >= 1 ==> bounded_add(h, e, max).last() == e,
        max >= 1 ==> has_id(bounded_add(h, e, max), e.id),
{
    if max >= 1 {
        let r = bounded_add(h, e, max);
        assert(r[r.len() - 1] == e);
    }
}

/// Once a remote entry is in the history, receiving it again changes
/// nothing (for a history of at least one entry).
pub proof fn law_remote_entry_added_once(h: Seq<EntryView>, e: EntryView, max: nat)
    requires
        h.len() <= max,
        max >= 1,
    ensures
        has_id(
            if has_id(h, e.id) {
                h
            } else {
                bounded_add(h, e, max)
            },
            e.id,
        ),
{
    law_history_keeps_newest(h, e, max);
}

/// The last text known after a look at the clipboard that found `current`.
pub open spec fn known_after(last: Option<Seq<char>>, current: Seq<char>) -> Option<Seq<char>> {
    if is_change(last, current) {
        Some(current)
    } else {
        last
    }
}

/// A text is reported as a change at most once: looking again and finding
/// the same text reports nothing.
pub proof fn law_change_reported_once(last: Option<Seq<char>>, current: Seq<char>)
    ensures
        !is_change(known_after(last, current), current),
{
}

/// Text written to the clipboard from here is not reported back as a
/// change.
pub proof fn law_own_writes_not_echoed(text: Seq<char>)
    ensures
        !is_change(Some(text), text),
{
}


/// Watching the clipboard over a run of looks: the history never holds more
/// than its capacity; each text reported differs from the one reported
/// before it (and from the last text known at the start, or is not empty
/// when none was known); the last text reported is the last one known and,
/// with room for one entry, the newest entry of the history is the text
/// entry of it (text type, its UTF-8 size, "text/plain", "local");
/// a run that reports nothing changes nothing; and while the history has
/// room, it gains exactly one entry per text reported, after the entries it
/// held.
pub proof fn law_watching_adds_one_entry_per_change(
    last: Option<Seq<char>>,
    hist: Seq<EntryView>,
    max: nat,
    reads: Seq<Option<Seq<char>>>,
    ids: Seq<Seq<char>>,
    times: Seq<i64>,
)
    requires
        hist.len() <= max,
    ensures
        ({
            let (l, h, rep) = poll_run(last, hist, max, reads, ids, times);
            &&& h.len() <= max
            &&& rep.len() <= reads.len()
            &&& forall|i: int| 0 <= i < rep.len() - 1 ==> rep[i] != #[trigger] rep[i + 1]
            &&& rep.len() > 0 ==> is_change(last, rep[0])
            &&& rep.len() > 0 ==> l == Some(rep.last())
            &&& rep.len() == 0 ==> l == last && h == hist
            &&& rep.len() > 0 && max >= 1 ==> exists|i: int|
                0 <= i < reads.len() && h.last() == text_entry_view(#[trigger] ids[i], rep.last(), times[i])
            &&& hist.len() + rep.len() <= max ==> h.len() == hist.len() + rep.len() && h.take(
                hist.len() as int,
            ) == hist
        }),
    decreases reads.len(),
{
    if reads.len() > 0 {
        let n = reads.len() - 1;
        law_watching_adds_one_entry_per_change(last, hist, max, reads.drop_last(), ids, times);
        let (l, h, rep) = poll_run(last, hist, max, reads.drop_last(), ids, times);
        let (l2, h2, rep2) = poll_run(last, hist, max, reads, ids, times);
        if let Some(t) = reads[n] {
            if is_change(l, t) {
                let e = text_entry_view(ids[n], t, times[n]);
                law_history_keeps_newest(h, e, max);
                assert(rep2 == rep.push(t));
                if max >= 1 {
                    assert(h2.last() == text_entry_view(ids[n], rep2.last(), times[n]));
                }
                if rep.len() > 0 {
                    assert(rep2[rep.len() - 1] == rep.last());
                }
                if hist.len() + rep2.len() <= max {
                    assert(h2 == h.push(e));
                    assert(h2.take(hist.len() as int) =~= h.take(hist.len() as int));
                }
            }
        }
    }
}

} // verus!
