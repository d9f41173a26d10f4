//! The command-line clipboard tools (`xclip`, `xsel`, `wl-paste`,
//! `wl-copy`): their invocations, what a run of one means, and the texts
//! they exchange (MIME type lists, URI lists, HTML).
use vstd::prelude::*;
use crate::clipboard::error::{ClipboardError, ClipboardErrorKind};
use crate::screen_capture::utils::CommandOutput;
use crate::text::{
    chars_of, concat, contains, contains_chars, decode_lossy, lines, lower, lowercase_chars, owned, split_lines,
    starts_with, string_of, string_views, trim, trim_chars, utf8_lossy, views,
};

verus! {

/// A clipboard tool
#[derive(Debug, Clone, Copy, PartialEq, Eq, Structural)]
pub enum ClipboardTool {
    XClip,
    XSel,
    WlPaste,
    WlCopy,
}

pub open spec fn tool_name(t: ClipboardTool) -> Seq<char> {
    match t {
        ClipboardTool::XClip => "xclip"@,
        ClipboardTool::XSel => "xsel"@,
        ClipboardTool::WlPaste => "wl-paste"@,
        ClipboardTool::WlCopy => "wl-copy"@,
    }
}

/// The program name of a tool.
pub fn program_name(t: ClipboardTool) -> (s: String)
    ensures
        s@ == tool_name(t),
{
    match t {
        ClipboardTool::XClip => owned("xclip"),
        ClipboardTool::XSel => owned("xsel"),
        ClipboardTool::WlPaste => owned("wl-paste"),
        ClipboardTool::WlCopy => owned("wl-copy"),
    }
}

/// An invocation of a clipboard tool, with the text to write to its
/// standard input, if any.
#[derive(Debug)]
pub struct ToolCall {
    pub tool: ClipboardTool,
    pub args: Vec<String>,
    pub input: Option<String>,
    /// Whether the call reads the clipboard (an unsuccessful read may mean
    /// that the clipboard is empty)
    pub reading: bool,
}

pub struct CallView {
    pub tool: ClipboardTool,
    pub args: Seq<Seq<char>>,
    pub input: Option<Seq<char>>,
    pub reading: bool,
}

impl View for ToolCall {
    type V = CallView;

    open spec fn view(&self) -> CallView {
        CallView {
            tool: self.tool,
            args: string_views(self.args@),
            input: match self.input {
                Some(s) => Some(s@),
                None => None,
            },
            reading: self.reading,
        }
    }
}

pub open spec fn call_view(tool: ClipboardTool, args: Seq<Seq<char>>, input: Option<Seq<char>>, reading: bool) -> CallView {
    CallView { tool, args, input, reading }
}

/// A read of the clipboard with `tool`.
pub open spec fn read_call(tool: ClipboardTool, args: Seq<Seq<char>>) -> CallView {
    call_view(tool, args, None, true)
}

/// A write of `input` to the clipboard with `tool`.
pub open spec fn write_call(tool: ClipboardTool, args: Seq<Seq<char>>, input: Seq<char>) -> CallView {
    call_view(tool, args, Some(input), false)
}

/// A read of the clipboard with `tool`.
pub fn reading_call(tool: ClipboardTool, args: Vec<String>) -> (c: ToolCall)
    ensures
        c@ == read_call(tool, string_views(args@)),
{
    ToolCall { tool, args, input: None, reading: true }
}

/// A write of `input` to the clipboard with `tool`.
pub fn writing_call(tool: ClipboardTool, args: Vec<String>, input: &str) -> (c: ToolCall)
    ensures
        c@ == write_call(tool, string_views(args@), input@),
{
    ToolCall { tool, args, input: Some(owned(input)), reading: false }
}

/// How running a tool failed before it could report an exit status.
#[derive(Debug)]
pub enum ToolFailure {
    /// The tool could not be run (no input to write)
    Execute(String),
    /// The tool could not be started (input to write)
    Spawn(String),
    /// Its input could not be written
    WriteInput(String),
    /// Waiting for it failed
    Wait(String),
}

/// The result of running a tool: what it wrote and how it exited, or how
/// running it failed.
pub type ToolRun = Result<CommandOutput, ToolFailure>;

/// A text result, or the kind and description of an error.
pub type TextOutcome = Result<Seq<char>, (ClipboardErrorKind, Seq<char>)>;

pub open spec fn io_error(detail: Seq<char>) -> TextOutcome {
    Err((ClipboardErrorKind::IoError, detail))
}

pub open spec fn empty_clipboard() -> TextOutcome {
    Err((ClipboardErrorKind::EmptyClipboard, Seq::empty()))
}

/// `res` is what `o` describes.
pub open spec fn reports_text(res: Result<String, ClipboardError>, o: TextOutcome) -> bool {
    match o {
        Ok(t) => res matches Ok(s) && s@ == t,
        Err((k, d)) => res matches Err(e) && e.is(k, d),
    }
}

/// What a run of `tool` means: its standard output (decoded lossily) when
/// it succeeded. An unsuccessful read means an empty clipboard when the tool
/// says so (`xsel` always); every other failure is an I/O error naming the
/// tool and what went wrong.
pub open spec fn run_outcome(tool: ClipboardTool, reading: bool, run: ToolRun) -> TextOutcome {
    let name = tool_name(tool);
    match run {
        Err(ToolFailure::Execute(e)) => io_error("Failed to execute "@ + name + ": "@ + e@),
        Err(ToolFailure::Spawn(e)) => io_error("Failed to spawn "@ + name + ": "@ + e@),
        Err(ToolFailure::WriteInput(e)) => io_error("Failed to write to "@ + name + " stdin: "@ + e@),
        Err(ToolFailure::Wait(e)) => io_error("Failed to wait for "@ + name + ": "@ + e@),
        Ok(out) => if out.success {
            Ok(utf8_lossy(out.stdout@))
        } else {
            let err = utf8_lossy(out.stderr@);
            if reading && tool == ClipboardTool::XSel {
                empty_clipboard()
            } else if reading && tool == ClipboardTool::XClip && contains(err, "selection is empty"@) {
                empty_clipboard()
            } else if reading && tool == ClipboardTool::WlPaste && (contains(err, "No selection"@) || contains(
                err,
                "nothing to paste"@,
            )) {
                empty_clipboard()
            } else {
                io_error(name + " failed: "@ + err)
            }
        },
    }
}

fn has_text(hay: &Vec<char>, needle: &str) -> (b: bool)
    ensures
        b == contains(hay@, needle@),
{
    let n = chars_of(needle);
    contains_chars(hay, &n)
}

/// What a run of the tool invoked by `call` means.
pub fn call_outcome(call: &ToolCall, run: &ToolRun) -> (res: Result<String, ClipboardError>)
    ensures
        reports_text(res, run_outcome(call.tool, call.reading, *run)),
{
    let name = program_name(call.tool);
    match run {
        Err(ToolFailure::Execute(e)) => {
            let a = concat("Failed to execute ", name.as_str());
            let b = concat(a.as_str(), ": ");
            Err(ClipboardError::IoError(concat(b.as_str(), e.as_str())))
        },
        Err(ToolFailure::Spawn(e)) => {
            let a = concat("Failed to spawn ", name.as_str());
            let b = concat(a.as_str(), ": ");
            Err(ClipboardError::IoError(concat(b.as_str(), e.as_str())))
        },
        Err(ToolFailure::WriteInput(e)) => {
            let a = concat("Failed to write to ", name.as_str());
            let b = concat(a.as_str(), " stdin: ");
            Err(ClipboardError::IoError(concat(b.as_str(), e.as_str())))
        },
        Err(ToolFailure::Wait(e)) => {
            let a = concat("Failed to wait for ", name.as_str());
            let b = concat(a.as_str(), ": ");
            Err(ClipboardError::IoError(concat(b.as_str(), e.as_str())))
        },
        Ok(out) => {
            if out.success {
                return Ok(decode_lossy(out.stdout.as_slice()));
            }
            let err = decode_lossy(out.stderr.as_slice());
            let err_chars = chars_of(err.as_str());
            let reading = call.reading;
            if reading && call.tool == ClipboardTool::XSel {
                Err(ClipboardError::EmptyClipboard)
            } else if reading && call.tool == ClipboardTool::XClip && has_text(&err_chars, "selection is empty") {
                Err(ClipboardError::EmptyClipboard)
            } else if reading && call.tool == ClipboardTool::WlPaste && (has_text(&err_chars, "No selection")
                || has_text(&err_chars, "nothing to paste")) {
                Err(ClipboardError::EmptyClipboard)
            } else {
                let a = concat(name.as_str(), " failed: ");
                Err(ClipboardError::IoError(concat(a.as_str(), err.as_str())))
            }
        },
    }
}

/// An empty text read from the clipboard means the clipboard is empty; an
/// error passes through.
pub fn require_text(read: Result<String, ClipboardError>) -> (res: Result<String, ClipboardError>)
    ensures
        match read {
            Ok(t) => if t@.len() == 0 {
                res matches Err(e) && e.kind() == ClipboardErrorKind::EmptyClipboard
            } else {
                res == Ok::<String, ClipboardError>(t)
            },
            Err(e) => res == Err::<String, ClipboardError>(e),
        },
{
    match read {
        Ok(t) => {
            if t.as_str().is_empty() {
                Err(ClipboardError::EmptyClipboard)
            } else {
                Ok(t)
            }
        },
        Err(e) => Err(e),
    }
}

fn copy_bytes(b: &[u8]) -> (v: Vec<u8>)
    ensures
        v@ == b@,
{
    let mut v: Vec<u8> = Vec::new();
    let mut i: usize = 0;
    while i < b.len()
        invariant
            i <= b@.len(),
            v@ == b@.take(i as int),
        decreases b.len() - i,
    {
        v.push(b[i]);
        assert(b@.take(i as int + 1) =~= b@.take(i as int).push(b@[i as int]));
        i = i + 1;
    }
    assert(b@.take(b@.len() as int) =~= b@);
    v
}

/// The image a read produced: the bytes of the text read, when it is not
/// empty.
pub fn image_bytes(read: &Result<String, ClipboardError>) -> (r: Option<Vec<u8>>)
    ensures
        match read {
            Ok(t) => if t@.len() > 0 {
                r matches Some(v) && v@ == vstd::utf8::encode_utf8(t@)
            } else {
                r is None
            },
            Err(_) => r is None,
        },
{
    match read {
        Ok(t) => {
            if t.as_str().is_empty() {
                None
            } else {
                Some(copy_bytes(t.as_str().as_bytes()))
            }
        },
        Err(_) => None,
    }
}

/// The image a run produced: what it wrote, when it succeeded and wrote
/// something.
pub fn raw_image(run: &ToolRun) -> (r: Option<Vec<u8>>)
    ensures
        match run {
            Ok(out) => if out.success && out.stdout@.len() > 0 {
                r matches Some(v) && v@ == out.stdout@
            } else {
                r is None
            },
            Err(_) => r is None,
        },
{
    match run {
        Ok(out) => {
            if out.success && out.stdout.len() > 0 {
                Some(copy_bytes(out.stdout.as_slice()))
            } else {
                None
            }
        },
        Err(_) => None,
    }
}

fn push_text(v: &mut Vec<String>, a: &str)
    ensures
        string_views(final(v)@) == string_views(old(v)@).push(a@),
{
    let x = owned(a);
    v.push(x);
    assert(string_views(v@) =~= string_views(old(v)@).push(a@));
}

pub(crate) fn strings1(a: &str) -> (v: Vec<String>)
    ensures
        string_views(v@) == seq![a@],
{
    let mut v: Vec<String> = Vec::new();
    push_text(&mut v, a);
    assert(string_views(v@) =~= seq![a@]);
    v
}

pub(crate) fn strings2(a: &str, b: &str) -> (v: Vec<String>)
    ensures
        string_views(v@) == seq![a@, b@],
{
    let mut v = strings1(a);
    push_text(&mut v, b);
    assert(string_views(v@) =~= seq![a@, b@]);
    v
}

pub(crate) fn strings3(a: &str, b: &str, c: &str) -> (v: Vec<String>)
    ensures
        string_views(v@) == seq![a@, b@, c@],
{
    let mut v = strings2(a, b);
    push_text(&mut v, c);
    assert(string_views(v@) =~= seq![a@, b@, c@]);
    v
}

pub(crate) fn strings4(a: &str, b: &str, c: &str, d: &str) -> (v: Vec<String>)
    ensures
        string_views(v@) == seq![a@, b@, c@, d@],
{
    let mut v = strings3(a, b, c);
    push_text(&mut v, d);
    assert(string_views(v@) =~= seq![a@, b@, c@, d@]);
    v
}

pub(crate) fn strings5(a: &str, b: &str, c: &str, d: &str, e: &str) -> (v: Vec<String>)
    ensures
        string_views(v@) == seq![a@, b@, c@, d@, e@],
{
    let mut v = strings4(a, b, c, d);
    push_text(&mut v, e);
    assert(string_views(v@) =~= seq![a@, b@, c@, d@, e@]);
    v
}

// ---------------------------------------------------------------------------
// Lists in tool output
// ---------------------------------------------------------------------------

/// The lines of a list, trimmed, without the empty ones.
pub open spec fn trimmed_lines(ls: Seq<Seq<char>>) -> Seq<Seq<char>>
    decreases ls.len(),
{
    if ls.len() == 0 {
        Seq::empty()
    } else {
        let r = trimmed_lines(ls.drop_last());
        let t = trim(ls.last());
        if t.len() > 0 {
            r.push(t)
        } else {
            r
        }
    }
}

/// The MIME types a tool lists, one per line.
pub fn parse_mime_types(output: &str) -> (v: Vec<String>)
    ensures
        string_views(v@) == trimmed_lines(lines(output@)),
{
    let chars = chars_of(output);
    let ls = split_lines(&chars);
    let mut v: Vec<String> = Vec::new();
    let mut i: usize = 0;
    while i < ls.len()
        invariant
            i <= ls@.len(),
            views(ls@) == lines(output@),
            string_views(v@) == trimmed_lines(views(ls@).take(i as int)),
        decreases ls.len() - i,
    {
        let ghost s = views(ls@).take(i as int + 1);
        assert(s.drop_last() =~= views(ls@).take(i as int));
        assert(s.last() == ls@[i as int]@);
        let t = trim_chars(ls[i].as_slice());
        if t.len() > 0 {
            let x = string_of(t.as_slice());
            let ghost before = v@;
            v.push(x);
            assert(string_views(v@) =~= string_views(before).push(x@));
        }
        i = i + 1;
    }
    assert(views(ls@).take(ls@.len() as int) =~= views(ls@));
    v
}

/// `text/plain`, the format assumed when no list can be had.
pub fn plain_text_formats() -> (v: Vec<String>)
    ensures
        string_views(v@) == seq!["text/plain"@],
{
    strings1("text/plain")
}

/// The MIME types a read listed (`text/plain` alone when the tool cannot
/// list them: no read); an error passes through.
pub fn mime_types_result(read: Option<Result<String, ClipboardError>>) -> (res: Result<Vec<String>, ClipboardError>)
    ensures
        match read {
            None => res matches Ok(v) && string_views(v@) == seq!["text/plain"@],
            Some(Ok(t)) => res matches Ok(v) && string_views(v@) == trimmed_lines(lines(t@)),
            Some(Err(e)) => res matches Err(x) && x == e,
        },
{
    match read {
        None => Ok(plain_text_formats()),
        Some(Ok(t)) => Ok(parse_mime_types(t.as_str())),
        Some(Err(e)) => Err(e),
    }
}

/// The formats available: the MIME types listed, or `text/plain` when they
/// cannot be had.
pub fn formats_or_plain(types: Result<Vec<String>, ClipboardError>) -> (v: Vec<String>)
    ensures
        match types {
            Ok(t) => v@ == t@,
            Err(_) => string_views(v@) == seq!["text/plain"@],
        },
{
    match types {
        Ok(t) => t,
        Err(_) => plain_text_formats(),
    }
}

/// The image found, or an empty clipboard when none was.
pub fn image_or_empty(found: Option<Vec<u8>>) -> (res: Result<Vec<u8>, ClipboardError>)
    ensures
        match found {
            Some(b) => res == Ok::<Vec<u8>, ClipboardError>(b),
            None => res matches Err(e) && e.kind() == ClipboardErrorKind::EmptyClipboard,
        },
{
    match found {
        Some(b) => Ok(b),
        None => Err(ClipboardError::EmptyClipboard),
    }
}

/// A line of a URI list names a file unless it is empty or a comment.
pub open spec fn names_file(l: Seq<char>) -> bool {
    l.len() > 0 && l[0] != '#'
}

/// The lines of a URI list that name files, each mapped by `f`.
pub open spec fn uri_entries(ls: Seq<Seq<char>>, f: spec_fn(Seq<char>) -> Seq<char>) -> Seq<Seq<char>>
    decreases ls.len(),
{
    if ls.len() == 0 {
        Seq::empty()
    } else {
        let r = uri_entries(ls.drop_last(), f);
        if names_file(ls.last()) {
            r.push(f(ls.last()))
        } else {
            r
        }
    }
}

/// A file URI without its `file://` scheme; other lines as they are.
pub open spec fn strip_file_scheme(l: Seq<char>) -> Seq<char> {
    if starts_with(l, "file://"@) {
        l.skip(7)
    } else {
        l
    }
}

/// The text `urlencoding::decode` makes of `s` (percent-decoding, then
/// UTF-8 validation), or `None` when the decoded bytes are not UTF-8.
pub uninterp spec fn url_decoded(s: Seq<char>) -> Option<Seq<char>>;

/// `urlencoding::decode`: the percent-decoded text, when it is UTF-8. A text
/// without `%` decodes to itself.
#[verifier::external_body]
pub(crate) fn url_decode(s: &str) -> (r: Option<String>)
    ensures
        r is None <==> url_decoded(s@) is None,
        r matches Some(t) ==> url_decoded(s@) == Some(t@),
        !s@.contains('%') ==> r is Some,
        r matches Some(t) ==> (!s@.contains('%') ==> t@ == s@),
{
    match urlencoding::decode(s) {
        Ok(t) => Some(t.into_owned()),
        Err(_) => None,
    }
}

/// A file URI without its scheme and percent-decoded (left encoded when it
/// does not decode to UTF-8); other lines as they are.
pub open spec fn decode_file_uri(l: Seq<char>) -> Seq<char> {
    if starts_with(l, "file://"@) {
        match url_decoded(l.skip(7)) {
            Some(d) => d,
            None => l.skip(7),
        }
    } else {
        l
    }
}

/// The files of a URI list: its lines that are neither empty nor comments,
/// with `file://` removed, percent-decoded when `decode`.
pub fn parse_uri_list(output: &str, decode: bool) -> (v: Vec<String>)
    ensures
        string_views(v@) == uri_entries(lines(output@), uri_mapper(decode)),
{
    let ghost f = uri_mapper(decode);
    let chars = chars_of(output);
    let ls = split_lines(&chars);
    let scheme = chars_of("file://");
    proof {
        reveal_strlit("file://");
    }
    let mut v: Vec<String> = Vec::new();
    let mut i: usize = 0;
    while i < ls.len()
        invariant
            i <= ls@.len(),
            views(ls@) == lines(output@),
            scheme@ == "file://"@,
            f == uri_mapper(decode),
            string_views(v@) == uri_entries(views(ls@).take(i as int), f),
        decreases ls.len() - i,
    {
        let ghost s = views(ls@).take(i as int + 1);
        assert(s.drop_last() =~= views(ls@).take(i as int));
        assert(s.last() == ls@[i as int]@);
        let line = &ls[i];
        if line.len() > 0 && line[0] != '#' {
            proof {
                reveal_strlit("file://");
            }
            let x = if crate::text::starts_with_chars(line.as_slice(), scheme.as_slice()) {
                let rest_chars = crate::text::slice_from(line.as_slice(), 7);
                let rest = string_of(rest_chars);
                assert(rest@ == line@.skip(7));
                if decode {
                    match url_decode(rest.as_str()) {
                        Some(d) => d,
                        None => rest,
                    }
                } else {
                    rest
                }
            } else {
                string_of(line.as_slice())
            };
            assert(x@ == f(line@));
            let ghost before = v@;
            v.push(x);
            assert(string_views(v@) =~= string_views(before).push(x@));
        }
        i = i + 1;
    }
    assert(views(ls@).take(ls@.len() as int) =~= views(ls@));
    v
}

/// How the lines of a URI list become files.
pub open spec fn uri_mapper(decode: bool) -> spec_fn(Seq<char>) -> Seq<char> {
    if decode {
        |l: Seq<char>| decode_file_uri(l)
    } else {
        |l: Seq<char>| strip_file_scheme(l)
    }
}

/// The files of a URI list read from the clipboard; an empty read means an
/// empty clipboard, and an error passes through.
pub fn files_from(read: Result<String, ClipboardError>, decode: bool) -> (res: Result<Vec<String>, ClipboardError>)
    ensures
        match read {
            Ok(t) => if t@.len() == 0 {
                res matches Err(e) && e.kind() == ClipboardErrorKind::EmptyClipboard
            } else {
                res matches Ok(v) && string_views(v@) == uri_entries(lines(t@), uri_mapper(decode))
            },
            Err(e) => res matches Err(x) && x == e,
        },
{
    match read {
        Ok(t) => {
            if t.as_str().is_empty() {
                Err(ClipboardError::EmptyClipboard)
            } else {
                Ok(parse_uri_list(t.as_str(), decode))
            }
        },
        Err(e) => Err(e),
    }
}

// ---------------------------------------------------------------------------
// Image formats
// ---------------------------------------------------------------------------

/// The MIME type for an image format name (compared without case), PNG when
/// unknown; `webp` is known when `with_webp`.
pub open spec fn image_mime(format: Seq<char>, with_webp: bool) -> Seq<char> {
    let f = format.map_values(|c: char| lower(c));
    if f == "png"@ {
        "image/png"@
    } else if f == "jpg"@ || f == "jpeg"@ {
        "image/jpeg"@
    } else if f == "gif"@ {
        "image/gif"@
    } else if f == "bmp"@ {
        "image/bmp"@
    } else if with_webp && f == "webp"@ {
        "image/webp"@
    } else {
        "image/png"@
    }
}

/// An image format is announced as `image/` followed by its name, in
/// lower case, for PNG, GIF, BMP and (when known) WebP; JPG and JPEG both as
/// `image/jpeg`; and PNG is announced for any other format only.
pub proof fn law_image_formats_keep_their_names(format: Seq<char>, with_webp: bool)
    ensures
        ({
            let l = format.map_values(|c: char| lower(c));
            &&& (l == "png"@ || l == "gif"@ || l == "bmp"@ || (with_webp && l == "webp"@)) ==> image_mime(
                format,
                with_webp,
            ) == "image/"@ + l
            &&& (l == "jpg"@ || l == "jpeg"@) ==> image_mime(format, with_webp) == "image/jpeg"@
            &&& image_mime(format, with_webp) == "image/png"@ ==> (l == "png"@ || (l != "jpg"@ && l != "jpeg"@
                && l != "gif"@ && l != "bmp"@ && !(with_webp && l == "webp"@)))
        }),
{
    reveal_strlit("png");
    reveal_strlit("gif");
    reveal_strlit("bmp");
    reveal_strlit("webp");
    reveal_strlit("jpg");
    reveal_strlit("jpeg");
    reveal_strlit("image/");
    reveal_strlit("image/png");
    reveal_strlit("image/gif");
    reveal_strlit("image/bmp");
    reveal_strlit("image/webp");
    reveal_strlit("image/jpeg");
    assert("image/"@ + "png"@ =~= "image/png"@);
    assert("image/"@ + "gif"@ =~= "image/gif"@);
    assert("image/"@ + "bmp"@ =~= "image/bmp"@);
    assert("image/"@ + "webp"@ =~= "image/webp"@);
    assert("image/png"@[6] != "image/gif"@[6]);
    assert("image/png"@[6] != "image/bmp"@[6]);
    assert("image/png"@[6] != "image/webp"@[6]);
    assert("image/png"@[6] != "image/jpeg"@[6]);
    assert("png"@[0] != "gif"@[0]);
    assert("png"@[0] != "bmp"@[0]);
    assert("png"@[0] != "webp"@[0]);
    assert("png"@[0] != "jpg"@[0]);
    assert("png"@.len() != "jpeg"@.len());
    assert("gif"@[0] != "bmp"@[0]);
    assert("gif"@[0] != "jpg"@[0]);
    assert("gif"@.len() != "jpeg"@.len());
    assert("bmp"@[0] != "jpg"@[0]);
    assert("bmp"@.len() != "jpeg"@.len());
    assert("webp"@.len() != "jpg"@.len());
    assert("webp"@[0] != "jpeg"@[0]);
    assert("webp"@.len() != "gif"@.len());
    assert("webp"@.len() != "bmp"@.len());
}

fn chars_equal(a: &Vec<char>, b: &str) -> (r: bool)
    ensures
        r == (a@ == b@),
{
    let s = string_of(a.as_slice());
    crate::text::str_eq(s.as_str(), b)
}

/// The MIME type for an image format name.
pub fn image_mime_type(format: &str, with_webp: bool) -> (m: String)
    ensures
        m@ == image_mime(format@, with_webp),
{
    let chars = chars_of(format);
    let f = lowercase_chars(chars.as_slice());
    let name = if chars_equal(&f, "png") {
        "image/png"
    } else if chars_equal(&f, "jpg") || chars_equal(&f, "jpeg") {
        "image/jpeg"
    } else if chars_equal(&f, "gif") {
        "image/gif"
    } else if chars_equal(&f, "bmp") {
        "image/bmp"
    } else if with_webp && chars_equal(&f, "webp") {
        "image/webp"
    } else {
        "image/png"
    };
    owned(name)
}

// ---------------------------------------------------------------------------
// HTML to text
// ---------------------------------------------------------------------------

/// The position of the `>` that closes a tag opened at the start of `s`:
/// the first `>` after at least one other character.
pub open spec fn tag_close(s: Seq<char>) -> Option<int> {
    if s.len() >= 3 && s[0] == '<' && s[1] != '>' && exists|k: int| 2 <= k < s.len() && s[k] == '>' {
        Some(choose|k: int| 2 <= k < s.len() && s[k] == '>' && forall|j: int| 2 <= j < k ==> s[j] != '>')
    } else {
        None
    }
}

/// `s` without its tags: every `<`, at least one character other than `>`,
/// then `>`, taken leftmost first without overlap (the matches of the
/// regular expression `<[^>]+>`).
pub open spec fn strip_tags(s: Seq<char>) -> Seq<char>
    decreases s.len(),
{
    if s.len() == 0 {
        s
    } else {
        match tag_close(s) {
            Some(k) => if 0 <= k < s.len() {
                strip_tags(s.skip(k + 1))
            } else {
                s
            },
            None => seq![s[0]] + strip_tags(s.skip(1)),
        }
    }
}

/// What `Regex::new(pattern)` and `replace_all(text, replacement)` give.
pub uninterp spec fn regex_replaced(pattern: Seq<char>, text: Seq<char>, replacement: Seq<char>) -> Seq<char>;

/// `regex::Regex::new(pattern)` then `replace_all(text, replacement)`:
/// `None` when the pattern does not compile, else the text with every
/// leftmost-first, non-overlapping match replaced. For the pattern
/// `<[^>]+>` and an empty replacement, that removes the tags.
#[verifier::external_body]
fn regex_replace_all(pattern: &str, text: &str, replacement: &str) -> (r: Option<String>)
    ensures
        r matches Some(s) ==> s@ == regex_replaced(pattern@, text@, replacement@),
        pattern@ == "<[^>]+>"@ && replacement@.len() == 0 ==> r is Some,
        r matches Some(s) ==> (pattern@ == "<[^>]+>"@ && replacement@.len() == 0 ==> s@ == strip_tags(text@)),
{
    match regex::Regex::new(pattern) {
        Ok(re) => Some(re.replace_all(text, replacement).into_owned()),
        Err(_) => None,
    }
}

/// `s` with every occurrence of `from` replaced by `to`, leftmost first,
/// without overlap (`str::replace`).
pub open spec fn replace_text(s: Seq<char>, from: Seq<char>, to: Seq<char>) -> Seq<char>
    recommends
        from.len() > 0,
    decreases s.len(),
{
    if s.len() == 0 || from.len() == 0 {
        s
    } else if s.len() >= from.len() && s.take(from.len() as int) == from {
        to + replace_text(s.skip(from.len() as int), from, to)
    } else {
        seq![s[0]] + replace_text(s.skip(1), from, to)
    }
}

/// `s` with every occurrence of `from` replaced by `to`.
pub fn replace_all_text(s: &str, from: &str, to: &str) -> (r: String)
    requires
        from@.len() > 0,
    ensures
        r@ == replace_text(s@, from@, to@),
{
    let text = chars_of(s);
    let pat = chars_of(from);
    let rep = chars_of(to);
    let mut out: Vec<char> = Vec::new();
    let mut i: usize = 0;
    assert(text@.skip(0) =~= text@);
    assert(out@ + replace_text(text@, from@, to@) =~= replace_text(text@, from@, to@));
    while i < text.len()
        invariant
            i <= text@.len(),
            pat@ == from@,
            rep@ == to@,
            text@ == s@,
            from@.len() > 0,
            out@ + replace_text(text@.skip(i as int), from@, to@) == replace_text(s@, from@, to@),
        decreases text.len() - i,
    {
        let ghost rest = text@.skip(i as int);
        let ghost n = from@.len();
        if crate::text::matches_at(text.as_slice(), pat.as_slice(), i) {
            assert(rest.take(n as int) =~= text@.subrange(i as int, i + n));
            assert(rest.skip(n as int) =~= text@.skip(i + n));
            let ghost before = out@;
            let mut j: usize = 0;
            while j < rep.len()
                invariant
                    j <= rep@.len(),
                    out@ == before + rep@.take(j as int),
                decreases rep.len() - j,
            {
                out.push(rep[j]);
                assert(rep@.take(j as int + 1) =~= rep@.take(j as int).push(rep@[j as int]));
                j = j + 1;
            }
            assert(rep@.take(rep@.len() as int) =~= rep@);
            assert(out@ + replace_text(text@.skip(i + n), from@, to@) =~= before + (to@ + replace_text(
                rest.skip(n as int),
                from@,
                to@,
            )));
            i = i + pat.len();
        } else {
            proof {
                if rest.len() >= n {
                    assert(rest.take(n as int) =~= text@.subrange(i as int, i + n));
                }
            }
            assert(rest.skip(1) =~= text@.skip(i as int + 1));
            let ghost before = out@;
            out.push(text[i]);
            assert(out@ + replace_text(text@.skip(i + 1), from@, to@) =~= before + (seq![text@[i as int]]
                + replace_text(rest.skip(1), from@, to@)));
            i = i + 1;
        }
    }
    assert(text@.skip(text@.len() as int) =~= Seq::<char>::empty());
    assert(out@ =~= out@ + Seq::<char>::empty());
    string_of(out.as_slice())
}

/// Tags removed (see [`strip_tags`]), with the regular expression
/// `<[^>]+>`.
pub fn remove_tags(html: &str) -> (r: String)
    ensures
        r@ == strip_tags(html@),
{
    proof {
        reveal_strlit("");
    }
    match regex_replace_all("<[^>]+>", html, "") {
        Some(s) => s,
        None => owned(html),
    }
}

} // verus!
