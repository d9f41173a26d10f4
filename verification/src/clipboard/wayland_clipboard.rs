//! The Wayland clipboard, through `wl-paste` and `wl-copy`: which
//! invocation each clipboard operation makes, and what its output means.
use vstd::prelude::*;
use crate::clipboard::error::{ClipboardError, ClipboardErrorKind};
use crate::clipboard::tools::{
    read_call, reading_call, remove_tags, replace_all_text, replace_text, strings1, strings2, strip_tags, write_call,
    writing_call, CallView, ClipboardTool, ToolCall, ToolFailure, ToolRun,
};
use crate::text::{concat, decode_lossy, owned, string_views, utf8_lossy};

verus! {

/// Simple HTML to text: tags removed, then the common entities decoded.
pub open spec fn html_text(html: Seq<char>) -> Seq<char> {
    let t = strip_tags(html);
    let t1 = replace_text(t, "&amp;"@, "&"@);
    let t2 = replace_text(t1, "&lt;"@, "<"@);
    let t3 = replace_text(t2, "&gt;"@, ">"@);
    let t4 = replace_text(t3, "&quot;"@, "\""@);
    let t5 = replace_text(t4, "&apos;"@, "'"@);
    let t6 = replace_text(t5, "&nbsp;"@, " "@);
    let t7 = replace_text(t6, "&#39;"@, "'"@);
    let t8 = replace_text(t7, "&#x27;"@, "'"@);
    let t9 = replace_text(t8, "&#x2F;"@, "/"@);
    let t10 = replace_text(t9, "&#x60;"@, "`"@);
    replace_text(t10, "&#x3D;"@, "="@)
}

/// Simple HTML to text conversion
pub fn html_to_text(html: &str) -> (t: String)
    ensures
        t@ == html_text(html@),
{
    proof {
        reveal_strlit("&amp;");
        reveal_strlit("&lt;");
        reveal_strlit("&gt;");
        reveal_strlit("&quot;");
        reveal_strlit("&apos;");
        reveal_strlit("&nbsp;");
        reveal_strlit("&#39;");
        reveal_strlit("&#x27;");
        reveal_strlit("&#x2F;");
        reveal_strlit("&#x60;");
        reveal_strlit("&#x3D;");
    }
    let t = remove_tags(html);
    let t1 = replace_all_text(t.as_str(), "&amp;", "&");
    let t2 = replace_all_text(t1.as_str(), "&lt;", "<");
    let t3 = replace_all_text(t2.as_str(), "&gt;", ">");
    let t4 = replace_all_text(t3.as_str(), "&quot;", "\"");
    let t5 = replace_all_text(t4.as_str(), "&apos;", "'");
    let t6 = replace_all_text(t5.as_str(), "&nbsp;", " ");
    let t7 = replace_all_text(t6.as_str(), "&#39;", "'");
    let t8 = replace_all_text(t7.as_str(), "&#x27;", "'");
    let t9 = replace_all_text(t8.as_str(), "&#x2F;", "/");
    let t10 = replace_all_text(t9.as_str(), "&#x60;", "`");
    replace_all_text(t10.as_str(), "&#x3D;", "=")
}

/// `cat '<file>' | wl-copy -t '<mime>'`: the shell command that puts the
/// image in `temp_file` on the clipboard.
pub open spec fn image_copy_text(temp_file: Seq<char>, mime: Seq<char>) -> Seq<char> {
    "cat '"@ + temp_file + "' | wl-copy -t '"@ + mime + "'"@
}

/// The shell command that puts the image in `temp_file` on the clipboard
/// as `mime`.
pub fn image_copy_command(temp_file: &str, mime: &str) -> (s: String)
    ensures
        s@ == image_copy_text(temp_file@, mime@),
{
    let a = concat("cat '", temp_file);
    let b = concat(a.as_str(), "' | wl-copy -t '");
    let c = concat(b.as_str(), mime);
    concat(c.as_str(), "'")
}

/// What a run of the image copy command means.
pub fn image_copy_outcome(run: &ToolRun) -> (res: Result<(), ClipboardError>)
    ensures
        match run {
            Err(ToolFailure::Execute(e)) => res matches Err(x) && x.is(
                ClipboardErrorKind::IoError,
                "Failed to execute wl-copy with image: "@ + e@,
            ),
            Err(ToolFailure::Spawn(e)) => res matches Err(x) && x.is(
                ClipboardErrorKind::IoError,
                "Failed to execute wl-copy with image: "@ + e@,
            ),
            Err(ToolFailure::WriteInput(e)) => res matches Err(x) && x.is(
                ClipboardErrorKind::IoError,
                "Failed to execute wl-copy with image: "@ + e@,
            ),
            Err(ToolFailure::Wait(e)) => res matches Err(x) && x.is(
                ClipboardErrorKind::IoError,
                "Failed to execute wl-copy with image: "@ + e@,
            ),
            Ok(out) => if out.success {
                res is Ok
            } else {
                res matches Err(x) && x.is(ClipboardErrorKind::IoError, "wl-copy failed: "@ + utf8_lossy(out.stderr@))
            },
        },
{
    match run {
        Err(ToolFailure::Execute(e)) => Err(
            ClipboardError::IoError(concat("Failed to execute wl-copy with image: ", e.as_str())),
        ),
        Err(ToolFailure::Spawn(e)) => Err(
            ClipboardError::IoError(concat("Failed to execute wl-copy with image: ", e.as_str())),
        ),
        Err(ToolFailure::WriteInput(e)) => Err(
            ClipboardError::IoError(concat("Failed to execute wl-copy with image: ", e.as_str())),
        ),
        Err(ToolFailure::Wait(e)) => Err(
            ClipboardError::IoError(concat("Failed to execute wl-copy with image: ", e.as_str())),
        ),
        Ok(out) => {
            if out.success {
                Ok(())
            } else {
                let err = decode_lossy(out.stderr.as_slice());
                Err(ClipboardError::IoError(concat("wl-copy failed: ", err.as_str())))
            }
        },
    }
}

/// Wayland clipboard provider
pub struct WaylandClipboardProvider {
    /// Whether the wl-clipboard tools are installed
    has_wl_clipboard: bool,
    /// Whether wl-copy is installed
    has_wl_copy: bool,
    /// Whether wl-paste is installed
    has_wl_paste: bool,
}

impl WaylandClipboardProvider {
    pub closed spec fn available(&self) -> bool {
        self.has_wl_clipboard
    }

    #[verifier::type_invariant]
    spec fn tools_present(&self) -> bool {
        &&& self.has_wl_copy
        &&& self.has_wl_paste
        &&& self.has_wl_clipboard
    }

    /// Create a provider, given whether `wl-copy` and `wl-paste` are
    /// installed; both are needed.
    pub fn new(has_wl_copy: bool, has_wl_paste: bool) -> (res: Result<Self, ClipboardError>)
        ensures
            has_wl_copy && has_wl_paste ==> (res matches Ok(p) && p.available()),
            !(has_wl_copy && has_wl_paste) ==> (res matches Err(e) && e.is(
                ClipboardErrorKind::ClipboardUnavailable,
                "wl-clipboard tools (wl-copy, wl-paste) are not available. Please install wl-clipboard package."@,
            )),
    {
        let has_wl_clipboard = has_wl_copy && has_wl_paste;
        if !has_wl_clipboard {
            return Err(
                ClipboardError::ClipboardUnavailable(
                    owned(
                        "wl-clipboard tools (wl-copy, wl-paste) are not available. Please install wl-clipboard package.",
                    ),
                ),
            );
        }
        Ok(WaylandClipboardProvider { has_wl_clipboard, has_wl_copy, has_wl_paste })
    }

    /// Whether the clipboard tools are installed.
    pub fn is_available(&self) -> (b: bool)
        ensures
            b == self.available(),
            b,
    {
        proof {
            use_type_invariant(self);
        }
        self.has_wl_clipboard
    }

    /// A provider using the same tools.
    pub fn create_clone(&self) -> (p: Self)
        ensures
            p.available() == self.available(),
    {
        proof {
            use_type_invariant(self);
        }
        WaylandClipboardProvider {
            has_wl_clipboard: self.has_wl_clipboard,
            has_wl_copy: self.has_wl_copy,
            has_wl_paste: self.has_wl_paste,
        }
    }

    /// How to read the clipboard's text (without a trailing newline added).
    pub fn get_text_call(&self) -> (c: ToolCall)
        ensures
            c@ == read_call(ClipboardTool::WlPaste, seq!["-n"@]),
    {
        reading_call(ClipboardTool::WlPaste, strings1("-n"))
    }

    /// How to put `text` on the clipboard.
    pub fn set_text_call(&self, text: &str) -> (c: ToolCall)
        ensures
            c@ == write_call(ClipboardTool::WlCopy, Seq::empty(), text@),
    {
        let args: Vec<String> = Vec::new();
        assert(string_views(args@) =~= Seq::<Seq<char>>::empty());
        writing_call(ClipboardTool::WlCopy, args, text)
    }

    /// How to list the MIME types on the clipboard.
    pub fn mime_types_call(&self) -> (c: ToolCall)
        ensures
            c@ == read_call(ClipboardTool::WlPaste, seq!["-l"@]),
    {
        reading_call(ClipboardTool::WlPaste, strings1("-l"))
    }

    /// How to read an image: PNG, then JPEG, then GIF (each run's output is
    /// taken as it is, see [`crate::clipboard::tools::raw_image`]).
    pub fn get_image_calls(&self) -> (v: Vec<ToolCall>)
        ensures
            v@.map_values(|c: ToolCall| c@) == seq![
                read_call(ClipboardTool::WlPaste, seq!["-t"@, "image/png"@]),
                read_call(ClipboardTool::WlPaste, seq!["-t"@, "image/jpeg"@]),
                read_call(ClipboardTool::WlPaste, seq!["-t"@, "image/gif"@]),
            ],
    {
        let mut v: Vec<ToolCall> = Vec::new();
        v.push(reading_call(ClipboardTool::WlPaste, strings2("-t", "image/png")));
        v.push(reading_call(ClipboardTool::WlPaste, strings2("-t", "image/jpeg")));
        v.push(reading_call(ClipboardTool::WlPaste, strings2("-t", "image/gif")));
        assert(v@.map_values(|c: ToolCall| c@) =~= seq![
            read_call(ClipboardTool::WlPaste, seq!["-t"@, "image/png"@]),
            read_call(ClipboardTool::WlPaste, seq!["-t"@, "image/jpeg"@]),
            read_call(ClipboardTool::WlPaste, seq!["-t"@, "image/gif"@]),
        ]);
        v
    }

    /// How to read HTML.
    pub fn get_html_call(&self) -> (c: ToolCall)
        ensures
            c@ == read_call(ClipboardTool::WlPaste, seq!["-t"@, "text/html"@]),
    {
        reading_call(ClipboardTool::WlPaste, strings2("-t", "text/html"))
    }

    /// The HTML read, when it succeeded and is not empty; otherwise the text
    /// is read instead (`None`).
    pub fn html_result(read: Result<String, ClipboardError>) -> (res: Option<String>)
        ensures
            match read {
                Ok(t) => if t@.len() > 0 {
                    res matches Some(h) && h@ == t@
                } else {
                    res is None
                },
                Err(_) => res is None,
            },
    {
        match read {
            Ok(t) => {
                if t.as_str().is_empty() {
                    None
                } else {
                    Some(t)
                }
            },
            Err(_) => None,
        }
    }

    /// How to put HTML on the clipboard: as HTML, then its text as plain
    /// text.
    pub fn set_html_calls(&self, html: &str) -> (v: Vec<ToolCall>)
        ensures
            v@.map_values(|c: ToolCall| c@) == seq![
                write_call(ClipboardTool::WlCopy, seq!["-t"@, "text/html"@], html@),
                write_call(ClipboardTool::WlCopy, seq!["-t"@, "text/plain"@], html_text(html@)),
            ],
    {
        let text = html_to_text(html);
        let mut v: Vec<ToolCall> = Vec::new();
        v.push(writing_call(ClipboardTool::WlCopy, strings2("-t", "text/html"), html));
        v.push(writing_call(ClipboardTool::WlCopy, strings2("-t", "text/plain"), text.as_str()));
        assert(v@.map_values(|c: ToolCall| c@) =~= seq![
            write_call(ClipboardTool::WlCopy, seq!["-t"@, "text/html"@], html@),
            write_call(ClipboardTool::WlCopy, seq!["-t"@, "text/plain"@], html_text(html@)),
        ]);
        v
    }

    /// How to read the list of files.
    pub fn get_files_call(&self) -> (c: ToolCall)
        ensures
            c@ == read_call(ClipboardTool::WlPaste, seq!["-t"@, "text/uri-list"@]),
    {
        reading_call(ClipboardTool::WlPaste, strings2("-t", "text/uri-list"))
    }
}

} // verus!
