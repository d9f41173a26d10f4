//! Types of clipboard synchronisation.
use vstd::prelude::*;
use crate::text::{owned, string_views};

verus! {

/// Kind of clipboard content
#[derive(Debug, Clone, Copy, PartialEq, Eq, Structural)]
pub enum ClipboardContentType {
    Text,
    Image,
    Html,
    Files,
}

/// Metadata of a clipboard entry
#[derive(Debug)]
pub struct ClipboardMetadata {
    /// Size of the data in bytes
    pub size: usize,
    /// MIME type of the content
    pub mime_type: String,
    /// Where the entry came from (local, remote, ...)
    pub source: String,
}

pub struct MetadataView {
    pub size: usize,
    pub mime_type: Seq<char>,
    pub source: Seq<char>,
}

impl View for ClipboardMetadata {
    type V = MetadataView;

    open spec fn view(&self) -> MetadataView {
        MetadataView { size: self.size, mime_type: self.mime_type@, source: self.source@ }
    }
}

/// An entry of the clipboard
#[derive(Debug)]
pub struct ClipboardEntry {
    /// Unique id of the entry
    pub id: String,
    /// Kind of content
    pub content_type: ClipboardContentType,
    /// The data (text, or Base64 for binary data)
    pub data: String,
    pub metadata: ClipboardMetadata,
    /// Creation time, in milliseconds since the Unix epoch (UTC)
    pub timestamp: i64,
}

pub struct EntryView {
    pub id: Seq<char>,
    pub content_type: ClipboardContentType,
    pub data: Seq<char>,
    pub metadata: MetadataView,
    pub timestamp: i64,
}

impl View for ClipboardEntry {
    type V = EntryView;

    open spec fn view(&self) -> EntryView {
        EntryView {
            id: self.id@,
            content_type: self.content_type,
            data: self.data@,
            metadata: self.metadata@,
            timestamp: self.timestamp,
        }
    }
}

pub open spec fn entry_views(s: Seq<ClipboardEntry>) -> Seq<EntryView> {
    s.map_values(|e: ClipboardEntry| e@)
}

impl ClipboardMetadata {
    /// A copy of the metadata.
    pub fn duplicate(&self) -> (m: ClipboardMetadata)
        ensures
            m@ == self@,
    {
        ClipboardMetadata { size: self.size, mime_type: owned(self.mime_type.as_str()), source: owned(self.source.as_str()) }
    }
}

impl ClipboardEntry {
    /// A copy of the entry.
    pub fn duplicate(&self) -> (e: ClipboardEntry)
        ensures
            e@ == self@,
    {
        ClipboardEntry {
            id: owned(self.id.as_str()),
            content_type: self.content_type,
            data: owned(self.data.as_str()),
            metadata: self.metadata.duplicate(),
            timestamp: self.timestamp,
        }
    }
}

/// Configuration of clipboard synchronisation
#[derive(Debug, Clone, Copy, PartialEq, Eq, Structural)]
pub struct ClipboardSyncConfig {
    /// Whether synchronisation is on
    pub enabled: bool,
    /// Largest content synchronised, in bytes
    pub max_content_size: usize,
    /// Whether images are synchronised
    pub sync_images: bool,
    /// Whether HTML is synchronised
    pub sync_html: bool,
    /// Whether files are synchronised
    pub sync_files: bool,
    /// Synchronise automatically on changes
    pub auto_sync: bool,
    /// Size of the history
    pub history_size: usize,
}

impl Default for ClipboardSyncConfig {
    /// On, up to 10 MiB, images and HTML but not files (for safety),
    /// automatic, 50 entries of history.
    fn default() -> (c: Self)
        ensures
            c == (ClipboardSyncConfig {
                enabled: true,
                max_content_size: 10485760,
                sync_images: true,
                sync_html: true,
                sync_files: false,
                auto_sync: true,
                history_size: 50,
            }),
    {
        ClipboardSyncConfig {
            enabled: true,
            max_content_size: 10 * 1024 * 1024,
            sync_images: true,
            sync_html: true,
            sync_files: false,
            auto_sync: true,
            history_size: 50,
        }
    }
}

/// Kinds of synchronisation events
#[derive(Debug, Clone, Copy, PartialEq, Eq, Structural)]
pub enum ClipboardSyncEventType {
    /// New content was added to the clipboard
    ContentAdded,
    /// Content was received from a remote peer
    ContentReceived,
    /// Content was sent to a remote peer
    ContentSent,
    /// Content was deleted from the history
    ContentDeleted,
    /// The history was cleared
    HistoryCleared,
}

/// A synchronisation event
#[derive(Debug)]
pub struct ClipboardSyncEvent {
    pub event_type: ClipboardSyncEventType,
    /// The entry concerned
    pub entry: ClipboardEntry,
    /// Where the event came from
    pub source: String,
    /// When it happened, in milliseconds since the Unix epoch (UTC)
    pub timestamp: i64,
}

/// Statistics of clipboard synchronisation
#[derive(Debug, Clone, Copy, PartialEq, Eq, Structural)]
pub struct ClipboardSyncStats {
    pub entries_synced: u64,
    pub total_bytes_synced: u64,
    pub entries_sent: u64,
    pub entries_received: u64,
    pub sync_errors: u64,
    /// Last synchronisation, in milliseconds since the Unix epoch (UTC)
    pub last_sync: Option<i64>,
}

impl Default for ClipboardSyncStats {
    /// All counts zero, never synchronised.
    fn default() -> (s: Self)
        ensures
            s == (ClipboardSyncStats {
                entries_synced: 0,
                total_bytes_synced: 0,
                entries_sent: 0,
                entries_received: 0,
                sync_errors: 0,
                last_sync: None,
            }),
    {
        ClipboardSyncStats {
            entries_synced: 0,
            total_bytes_synced: 0,
            entries_sent: 0,
            entries_received: 0,
            sync_errors: 0,
            last_sync: None,
        }
    }
}

/// Filter of clipboard synchronisation
#[derive(Debug)]
pub struct ClipboardSyncFilter {
    /// Shortest text synchronised
    pub min_text_length: usize,
    /// Longest text synchronised
    pub max_text_length: usize,
    /// Blocked MIME types
    pub blocked_mime_types: Vec<String>,
    /// Allowed MIME types (empty allows all)
    pub allowed_mime_types: Vec<String>,
    /// Blocked file extensions
    pub blocked_file_extensions: Vec<String>,
    /// Regular expressions of blocked content
    pub blocked_content_patterns: Vec<String>,
}

fn texts(items: &[&str]) -> (v: Vec<String>)
    ensures
        string_views(v@) == items@.map_values(|s: &str| s@),
{
    let mut v: Vec<String> = Vec::new();
    let mut i: usize = 0;
    while i < items.len()
        invariant
            i <= items@.len(),
            string_views(v@) == items@.take(i as int).map_values(|s: &str| s@),
        decreases items.len() - i,
    {
        let x = owned(items[i]);
        let ghost before = v@;
        v.push(x);
        assert(string_views(v@) =~= string_views(before).push(x@));
        assert(items@.take(i as int + 1).map_values(|s: &str| s@) =~= items@.take(i as int).map_values(
            |s: &str| s@,
        ).push(items@[i as int]@));
        i = i + 1;
    }
    assert(items@.take(items@.len() as int) =~= items@);
    v
}

impl Default for ClipboardSyncFilter {
    /// Texts of 1 byte to 1 MiB; executables blocked by MIME type and by
    /// extension; no allow list, no blocked patterns.
    fn default() -> (f: Self)
        ensures
            f.min_text_length == 1,
            f.max_text_length == 1048576,
            string_views(f.blocked_mime_types@) == seq!["application/octet-stream"@, "application/x-executable"@],
            f.allowed_mime_types@.len() == 0,
            string_views(f.blocked_file_extensions@) == seq!["exe"@, "bat"@, "cmd"@, "com"@, "scr"@, "dll"@],
            f.blocked_content_patterns@.len() == 0,
    {
        let blocked_mime = ["application/octet-stream", "application/x-executable"];
        let blocked_ext = ["exe", "bat", "cmd", "com", "scr", "dll"];
        let blocked_mime_types = texts(&blocked_mime);
        let blocked_file_extensions = texts(&blocked_ext);
        assert(blocked_mime@.map_values(|s: &str| s@) =~= seq!["application/octet-stream"@, "application/x-executable"@]);
        assert(blocked_ext@.map_values(|s: &str| s@) =~= seq!["exe"@, "bat"@, "cmd"@, "com"@, "scr"@, "dll"@]);
        ClipboardSyncFilter {
            min_text_length: 1,
            max_text_length: 1024 * 1024,
            blocked_mime_types,
            allowed_mime_types: Vec::new(),
            blocked_file_extensions,
            blocked_content_patterns: Vec::new(),
        }
    }
}

} // verus!
