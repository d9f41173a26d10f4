//! The X11 clipboard, through `xclip` (preferred) or `xsel`: which
//! invocation each clipboard operation makes, and what its output means.
use vstd::prelude::*;
use crate::clipboard::error::{ClipboardError, ClipboardErrorKind};
use crate::clipboard::tools::{
    image_mime, image_mime_type, read_call, reading_call, remove_tags, replace_all_text, replace_text, strings2,
    strings3, strings4, strings5, strip_tags, write_call, writing_call, CallView, ClipboardTool, ToolCall,
};
use crate::text::{owned, string_views};

verus! {

/// The tool an X11 provider uses
#[derive(Debug, Clone, Copy, PartialEq, Eq, Structural)]
pub enum X11ClipboardTool {
    XClip,
    XSel,
    /// Neither tool is installed
    Unavailable,
}

/// `xclip` when installed, else `xsel` when installed.
pub open spec fn preferred(has_xclip: bool, has_xsel: bool) -> X11ClipboardTool {
    if has_xclip {
        X11ClipboardTool::XClip
    } else if has_xsel {
        X11ClipboardTool::XSel
    } else {
        X11ClipboardTool::Unavailable
    }
}

/// A planned invocation, or the kind and description of the error that
/// refuses the operation.
pub type CallPlan = Result<CallView, (ClipboardErrorKind, Seq<char>)>;

pub open spec fn no_tool<T>() -> Result<T, (ClipboardErrorKind, Seq<char>)> {
    Err((ClipboardErrorKind::ClipboardUnavailable, "No clipboard tool available"@))
}

pub open spec fn refused<T>(detail: Seq<char>) -> Result<T, (ClipboardErrorKind, Seq<char>)> {
    Err((ClipboardErrorKind::UnsupportedOperation, detail))
}

/// `res` is what `plan` describes.
pub open spec fn reports_call(res: Result<ToolCall, ClipboardError>, plan: CallPlan) -> bool {
    match plan {
        Ok(c) => res matches Ok(call) && call@ == c,
        Err((k, d)) => res matches Err(e) && e.is(k, d),
    }
}

/// `res` is what `plan` describes, with `None` for no invocation.
pub open spec fn reports_optional_call(
    res: Result<Option<ToolCall>, ClipboardError>,
    plan: Result<Option<CallView>, (ClipboardErrorKind, Seq<char>)>,
) -> bool {
    match plan {
        Ok(Some(c)) => res matches Ok(Some(call)) && call@ == c,
        Ok(None) => res matches Ok(None),
        Err((k, d)) => res matches Err(e) && e.is(k, d),
    }
}

/// `res` is what `plan` describes.
pub open spec fn reports_calls(
    res: Result<Vec<ToolCall>, ClipboardError>,
    plan: Result<Seq<CallView>, (ClipboardErrorKind, Seq<char>)>,
) -> bool {
    match plan {
        Ok(cs) => res matches Ok(v) && v@.map_values(|c: ToolCall| c@) == cs,
        Err((k, d)) => res matches Err(e) && e.is(k, d),
    }
}

pub open spec fn xclip_read(args: Seq<Seq<char>>) -> CallView {
    read_call(ClipboardTool::XClip, seq!["-selection"@, "clipboard"@] + args)
}

pub open spec fn xclip_write(args: Seq<Seq<char>>, input: Seq<char>) -> CallView {
    write_call(ClipboardTool::XClip, seq!["-selection"@, "clipboard"@] + args, input)
}

/// Simple HTML to text: tags removed, then the basic entities decoded.
pub open spec fn html_text(html: Seq<char>) -> Seq<char> {
    let t = strip_tags(html);
    let t1 = replace_text(t, "&amp;"@, "&"@);
    let t2 = replace_text(t1, "&lt;"@, "<"@);
    let t3 = replace_text(t2, "&gt;"@, ">"@);
    let t4 = replace_text(t3, "&quot;"@, "\""@);
    let t5 = replace_text(t4, "&apos;"@, "'"@);
    replace_text(t5, "&nbsp;"@, " "@)
}

/// Simple HTML to text conversion
pub fn html_to_text(html: &str) -> (t: String)
    ensures
        t@ == html_text(html@),
{
    proof {
        reveal_strlit("&amp;");
        reveal_strlit("&lt;");
        reveal_strlit("&gt;");
        reveal_strlit("&quot;");
        reveal_strlit("&apos;");
        reveal_strlit("&nbsp;");
    }
    let t = remove_tags(html);
    let t1 = replace_all_text(t.as_str(), "&amp;", "&");
    let t2 = replace_all_text(t1.as_str(), "&lt;", "<");
    let t3 = replace_all_text(t2.as_str(), "&gt;", ">");
    let t4 = replace_all_text(t3.as_str(), "&quot;", "\"");
    let t5 = replace_all_text(t4.as_str(), "&apos;", "'");
    replace_all_text(t5.as_str(), "&nbsp;", " ")
}

/// X11 clipboard provider
pub struct X11ClipboardProvider {
    /// Whether xclip is installed
    has_xclip: bool,
    /// Whether xsel is installed
    has_xsel: bool,
    /// The tool used
    preferred_tool: X11ClipboardTool,
}

impl X11ClipboardProvider {
    pub closed spec fn tool(&self) -> X11ClipboardTool {
        self.preferred_tool
    }

    pub closed spec fn xclip_present(&self) -> bool {
        self.has_xclip
    }

    pub closed spec fn xsel_present(&self) -> bool {
        self.has_xsel
    }

    #[verifier::type_invariant]
    spec fn uses_preferred(&self) -> bool {
        self.preferred_tool == preferred(self.has_xclip, self.has_xsel)
    }

    /// Create a provider, given which tools are installed; one of them is
    /// needed.
    pub fn new(has_xclip: bool, has_xsel: bool) -> (res: Result<Self, ClipboardError>)
        ensures
            has_xclip || has_xsel ==> (res matches Ok(p) && p.tool() == preferred(has_xclip, has_xsel)
                && p.xclip_present() == has_xclip && p.xsel_present() == has_xsel),
            !has_xclip && !has_xsel ==> (res matches Err(e) && e.is(
                ClipboardErrorKind::ClipboardUnavailable,
                "Neither xclip nor xsel is available. Please install one of them."@,
            )),
    {
        if !has_xclip && !has_xsel {
            return Err(
                ClipboardError::ClipboardUnavailable(
                    owned("Neither xclip nor xsel is available. Please install one of them."),
                ),
            );
        }
        let preferred_tool = if has_xclip {
            X11ClipboardTool::XClip
        } else if has_xsel {
            X11ClipboardTool::XSel
        } else {
            X11ClipboardTool::Unavailable
        };
        Ok(X11ClipboardProvider { has_xclip, has_xsel, preferred_tool })
    }

    /// The tool in use.
    pub fn preferred_tool(&self) -> (t: X11ClipboardTool)
        ensures
            t == self.tool(),
    {
        self.preferred_tool
    }

    /// Whether a clipboard tool is in use.
    pub fn is_available(&self) -> (b: bool)
        ensures
            b == (self.tool() != X11ClipboardTool::Unavailable),
    {
        match self.preferred_tool {
            X11ClipboardTool::XClip => true,
            X11ClipboardTool::XSel => true,
            X11ClipboardTool::Unavailable => false,
        }
    }

    /// A provider using the same tools.
    pub fn create_clone(&self) -> (p: Self)
        ensures
            p.tool() == self.tool(),
            p.xclip_present() == self.xclip_present(),
            p.xsel_present() == self.xsel_present(),
    {
        proof {
            use_type_invariant(self);
        }
        X11ClipboardProvider {
            has_xclip: self.has_xclip,
            has_xsel: self.has_xsel,
            preferred_tool: self.preferred_tool,
        }
    }

    /// How to read the clipboard's text.
    pub fn get_text_call(&self) -> (res: Result<ToolCall, ClipboardError>)
        ensures
            reports_call(
                res,
                match self.tool() {
                    X11ClipboardTool::XClip => Ok(xclip_read(seq!["-o"@])),
                    X11ClipboardTool::XSel => Ok(read_call(ClipboardTool::XSel, seq!["-b"@, "-o"@])),
                    X11ClipboardTool::Unavailable => no_tool(),
                },
            ),
    {
        match self.preferred_tool {
            X11ClipboardTool::XClip => {
                let args = strings3("-selection", "clipboard", "-o");
                assert(string_views(args@) =~= seq!["-selection"@, "clipboard"@] + seq!["-o"@]);
                Ok(reading_call(ClipboardTool::XClip, args))
            },
            X11ClipboardTool::XSel => Ok(reading_call(ClipboardTool::XSel, strings2("-b", "-o"))),
            X11ClipboardTool::Unavailable => Err(ClipboardError::ClipboardUnavailable(owned("No clipboard tool available"))),
        }
    }

    /// How to put `text` on the clipboard; an empty text is not written.
    pub fn set_text_call(&self, text: &str) -> (res: Result<Option<ToolCall>, ClipboardError>)
        ensures
            reports_optional_call(
                res,
                if text@.len() == 0 {
                    Ok(None)
                } else {
                    match self.tool() {
                        X11ClipboardTool::XClip => Ok(Some(xclip_write(seq!["-i"@], text@))),
                        X11ClipboardTool::XSel => Ok(Some(write_call(ClipboardTool::XSel, seq!["-b"@, "-i"@], text@))),
                        X11ClipboardTool::Unavailable => no_tool(),
                    }
                },
            ),
    {
        if text.is_empty() {
            return Ok(None);
        }
        match self.preferred_tool {
            X11ClipboardTool::XClip => {
                let args = strings3("-selection", "clipboard", "-i");
                assert(string_views(args@) =~= seq!["-selection"@, "clipboard"@] + seq!["-i"@]);
                Ok(Some(writing_call(ClipboardTool::XClip, args, text)))
            },
            X11ClipboardTool::XSel => Ok(Some(writing_call(ClipboardTool::XSel, strings2("-b", "-i"), text))),
            X11ClipboardTool::Unavailable => Err(ClipboardError::ClipboardUnavailable(owned("No clipboard tool available"))),
        }
    }

    /// How to list the MIME types on the clipboard; `xsel` cannot list them
    /// (no invocation: the list is `text/plain` alone).
    pub fn mime_types_call(&self) -> (res: Result<Option<ToolCall>, ClipboardError>)
        ensures
            reports_optional_call(
                res,
                match self.tool() {
                    X11ClipboardTool::XClip => Ok(Some(xclip_read(seq!["-t"@, "TARGETS"@, "-o"@]))),
                    X11ClipboardTool::XSel => Ok(None),
                    X11ClipboardTool::Unavailable => no_tool(),
                },
            ),
    {
        match self.preferred_tool {
            X11ClipboardTool::XClip => {
                let args = strings5("-selection", "clipboard", "-t", "TARGETS", "-o");
                assert(string_views(args@) =~= seq!["-selection"@, "clipboard"@] + seq!["-t"@, "TARGETS"@, "-o"@]);
                Ok(Some(reading_call(ClipboardTool::XClip, args)))
            },
            X11ClipboardTool::XSel => Ok(None),
            X11ClipboardTool::Unavailable => Err(ClipboardError::ClipboardUnavailable(owned("No clipboard tool available"))),
        }
    }

    /// How to read an image: PNG first, then JPEG; `xsel` cannot.
    pub fn get_image_calls(&self) -> (res: Result<Vec<ToolCall>, ClipboardError>)
        ensures
            reports_calls(
                res,
                match self.tool() {
                    X11ClipboardTool::XClip => Ok(
                        seq![
                            xclip_read(seq!["-t"@, "image/png"@, "-o"@]),
                            xclip_read(seq!["-t"@, "image/jpeg"@, "-o"@]),
                        ],
                    ),
                    X11ClipboardTool::XSel => refused("Image clipboard not supported with xsel"@),
                    X11ClipboardTool::Unavailable => no_tool(),
                },
            ),
    {
        match self.preferred_tool {
            X11ClipboardTool::XClip => {
                let a1 = strings5("-selection", "clipboard", "-t", "image/png", "-o");
                let a2 = strings5("-selection", "clipboard", "-t", "image/jpeg", "-o");
                assert(string_views(a1@) =~= seq!["-selection"@, "clipboard"@] + seq!["-t"@, "image/png"@, "-o"@]);
                assert(string_views(a2@) =~= seq!["-selection"@, "clipboard"@] + seq!["-t"@, "image/jpeg"@, "-o"@]);
                let mut v: Vec<ToolCall> = Vec::new();
                v.push(reading_call(ClipboardTool::XClip, a1));
                v.push(reading_call(ClipboardTool::XClip, a2));
                assert(v@.map_values(|c: ToolCall| c@) =~= seq![
                    xclip_read(seq!["-t"@, "image/png"@, "-o"@]),
                    xclip_read(seq!["-t"@, "image/jpeg"@, "-o"@]),
                ]);
                Ok(v)
            },
            X11ClipboardTool::XSel => Err(
                ClipboardError::UnsupportedOperation(owned("Image clipboard not supported with xsel")),
            ),
            X11ClipboardTool::Unavailable => Err(ClipboardError::ClipboardUnavailable(owned("No clipboard tool available"))),
        }
    }

    /// How to put the image held in the file `temp_file`, of format
    /// `format`, on the clipboard; `xsel` cannot.
    pub fn set_image_call(&self, format: &str, temp_file: &str) -> (res: Result<ToolCall, ClipboardError>)
        ensures
            reports_call(
                res,
                match self.tool() {
                    X11ClipboardTool::XClip => Ok(
                        crate::clipboard::tools::call_view(
                            ClipboardTool::XClip,
                            seq!["-selection"@, "clipboard"@, "-t"@, image_mime(format@, false), "-i"@, temp_file@],
                            None,
                            false,
                        ),
                    ),
                    X11ClipboardTool::XSel => refused("Image clipboard not supported with xsel"@),
                    X11ClipboardTool::Unavailable => no_tool(),
                },
            ),
    {
        match self.preferred_tool {
            X11ClipboardTool::XClip => {
                let mime = image_mime_type(format, false);
                let mut args = strings4("-selection", "clipboard", "-t", mime.as_str());
                let ghost a4 = string_views(args@);
                let i_flag = owned("-i");
                let file = owned(temp_file);
                args.push(i_flag);
                assert(string_views(args@) =~= a4.push("-i"@));
                let ghost a5 = string_views(args@);
                args.push(file);
                assert(string_views(args@) =~= a5.push(temp_file@));
                assert(string_views(args@) =~= seq![
                    "-selection"@,
                    "clipboard"@,
                    "-t"@,
                    image_mime(format@, false),
                    "-i"@,
                    temp_file@,
                ]);
                Ok(ToolCall { tool: ClipboardTool::XClip, args, input: None, reading: false })
            },
            X11ClipboardTool::XSel => Err(
                ClipboardError::UnsupportedOperation(owned("Image clipboard not supported with xsel")),
            ),
            X11ClipboardTool::Unavailable => Err(ClipboardError::ClipboardUnavailable(owned("No clipboard tool available"))),
        }
    }

    /// How to read HTML; with `xsel` (no invocation) the text is read
    /// instead.
    pub fn get_html_call(&self) -> (res: Result<Option<ToolCall>, ClipboardError>)
        ensures
            reports_optional_call(
                res,
                match self.tool() {
                    X11ClipboardTool::XClip => Ok(Some(xclip_read(seq!["-t"@, "text/html"@, "-o"@]))),
                    X11ClipboardTool::XSel => Ok(None),
                    X11ClipboardTool::Unavailable => no_tool(),
                },
            ),
    {
        match self.preferred_tool {
            X11ClipboardTool::XClip => {
                let args = strings5("-selection", "clipboard", "-t", "text/html", "-o");
                assert(string_views(args@) =~= seq!["-selection"@, "clipboard"@] + seq!["-t"@, "text/html"@, "-o"@]);
                Ok(Some(reading_call(ClipboardTool::XClip, args)))
            },
            X11ClipboardTool::XSel => Ok(None),
            X11ClipboardTool::Unavailable => Err(ClipboardError::ClipboardUnavailable(owned("No clipboard tool available"))),
        }
    }

    /// The HTML read: empty HTML means the text is read instead (`None`);
    /// an error passes through.
    pub fn html_result(read: Result<String, ClipboardError>) -> (res: Result<Option<String>, ClipboardError>)
        ensures
            match read {
                Ok(t) => if t@.len() == 0 {
                    res matches Ok(None)
                } else {
                    res matches Ok(Some(h)) && h@ == t@
                },
                Err(e) => res matches Err(x) && x == e,
            },
    {
        match read {
            Ok(t) => {
                if t.as_str().is_empty() {
                    Ok(None)
                } else {
                    Ok(Some(t))
                }
            },
            Err(e) => Err(e),
        }
    }

    /// How to put HTML on the clipboard: with `xclip` as HTML, then its text
    /// as plain text; with `xsel` its text only (nothing when it is empty).
    pub fn set_html_calls(&self, html: &str) -> (res: Result<Vec<ToolCall>, ClipboardError>)
        ensures
            reports_calls(
                res,
                match self.tool() {
                    X11ClipboardTool::XClip => Ok(
                        seq![
                            xclip_write(seq!["-t"@, "text/html"@, "-i"@], html@),
                            xclip_write(seq!["-t"@, "text/plain"@, "-i"@], html_text(html@)),
                        ],
                    ),
                    X11ClipboardTool::XSel => Ok(
                        if html_text(html@).len() == 0 {
                            Seq::empty()
                        } else {
                            seq![write_call(ClipboardTool::XSel, seq!["-b"@, "-i"@], html_text(html@))]
                        },
                    ),
                    X11ClipboardTool::Unavailable => no_tool(),
                },
            ),
    {
        match self.preferred_tool {
            X11ClipboardTool::XClip => {
                let text = html_to_text(html);
                let a1 = strings5("-selection", "clipboard", "-t", "text/html", "-i");
                let a2 = strings5("-selection", "clipboard", "-t", "text/plain", "-i");
                assert(string_views(a1@) =~= seq!["-selection"@, "clipboard"@] + seq!["-t"@, "text/html"@, "-i"@]);
                assert(string_views(a2@) =~= seq!["-selection"@, "clipboard"@] + seq!["-t"@, "text/plain"@, "-i"@]);
                let mut v: Vec<ToolCall> = Vec::new();
                v.push(writing_call(ClipboardTool::XClip, a1, html));
                v.push(writing_call(ClipboardTool::XClip, a2, text.as_str()));
                assert(v@.map_values(|c: ToolCall| c@) =~= seq![
                    xclip_write(seq!["-t"@, "text/html"@, "-i"@], html@),
                    xclip_write(seq!["-t"@, "text/plain"@, "-i"@], html_text(html@)),
                ]);
                Ok(v)
            },
            X11ClipboardTool::XSel => {
                let text = html_to_text(html);
                let mut v: Vec<ToolCall> = Vec::new();
                if !text.as_str().is_empty() {
                    v.push(writing_call(ClipboardTool::XSel, strings2("-b", "-i"), text.as_str()));
                }
                assert(v@.map_values(|c: ToolCall| c@) =~= (if html_text(html@).len() == 0 {
                    Seq::empty()
                } else {
                    seq![write_call(ClipboardTool::XSel, seq!["-b"@, "-i"@], html_text(html@))]
                }));
                Ok(v)
            },
            X11ClipboardTool::Unavailable => Err(ClipboardError::ClipboardUnavailable(owned("No clipboard tool available"))),
        }
    }

    /// How to read the list of files; `xsel` cannot.
    pub fn get_files_call(&self) -> (res: Result<ToolCall, ClipboardError>)
        ensures
            reports_call(
                res,
                match self.tool() {
                    X11ClipboardTool::XClip => Ok(xclip_read(seq!["-t"@, "text/uri-list"@, "-o"@])),
                    X11ClipboardTool::XSel => refused("File clipboard not supported with xsel"@),
                    X11ClipboardTool::Unavailable => no_tool(),
                },
            ),
    {
        match self.preferred_tool {
            X11ClipboardTool::XClip => {
                let args = strings5("-selection", "clipboard", "-t", "text/uri-list", "-o");
                assert(string_views(args@) =~= seq!["-selection"@, "clipboard"@] + seq![
                    "-t"@,
                    "text/uri-list"@,
                    "-o"@,
                ]);
                Ok(reading_call(ClipboardTool::XClip, args))
            },
            X11ClipboardTool::XSel => Err(
                ClipboardError::UnsupportedOperation(owned("File clipboard not supported with xsel")),
            ),
            X11ClipboardTool::Unavailable => Err(ClipboardError::ClipboardUnavailable(owned("No clipboard tool available"))),
        }
    }
}

} // verus!
