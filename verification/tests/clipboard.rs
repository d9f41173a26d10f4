use smoldesk::clipboard::error::{
    clipboard_unavailable_error, content_too_large_error, invalid_format_error, permission_denied_error,
    unsupported_operation_error, ClipboardError, ClipboardErrorExt, ClipboardErrorKind,
};
use smoldesk::clipboard::history::{
    record_poll, remote_action, sync_entry, text_entry, ClipboardAction, ClipboardHistory, ClipboardWatch,
};
use smoldesk::clipboard::tools::{
    call_outcome, files_from, formats_or_plain, image_bytes, image_mime_type, image_or_empty, mime_types_result,
    parse_mime_types, parse_uri_list, raw_image, replace_all_text, remove_tags, require_text, ClipboardTool,
    ToolCall, ToolFailure,
};
use smoldesk::clipboard::types::{
    ClipboardContentType, ClipboardEntry, ClipboardMetadata, ClipboardSyncConfig, ClipboardSyncFilter,
    ClipboardSyncStats,
};
use smoldesk::clipboard::wayland_clipboard::{self, WaylandClipboardProvider};
use smoldesk::clipboard::x11_clipboard::{self, X11ClipboardProvider, X11ClipboardTool};
use smoldesk::screen_capture::utils::CommandOutput;

fn entry(id: &str, kind: ClipboardContentType, data: &str) -> ClipboardEntry {
    ClipboardEntry {
        id: id.to_string(),
        content_type: kind,
        data: data.to_string(),
        metadata: ClipboardMetadata { size: data.len(), mime_type: "image/png".to_string(), source: "remote".to_string() },
        timestamp: 1_700_000_000_000,
    }
}

fn ids(h: &ClipboardHistory) -> Vec<String> {
    h.snapshot().into_iter().map(|e| e.id).collect()
}

fn output(success: bool, stdout: &str, stderr: &str) -> CommandOutput {
    CommandOutput { success, stdout: stdout.as_bytes().to_vec(), stderr: stderr.as_bytes().to_vec() }
}

fn read(tool: ClipboardTool) -> ToolCall {
    ToolCall { tool, args: vec![], input: None, reading: true }
}

fn write(tool: ClipboardTool) -> ToolCall {
    ToolCall { tool, args: vec![], input: Some("x".to_string()), reading: false }
}

fn kind_of<T>(r: &Result<T, ClipboardError>) -> Option<ClipboardErrorKind> {
    r.as_ref().err().map(|e| e.error_kind())
}

fn message_of<T>(r: Result<T, ClipboardError>) -> String {
    match r {
        Err(e) => e.message(),
        Ok(_) => panic!("expected an error"),
    }
}

#[test]
fn error_messages() {
    assert_eq!(ClipboardError::ContentTooLarge(2048, 1024).message(), "Content too large: 2048 bytes (max: 1024 bytes)");
    assert_eq!(ClipboardError::EmptyClipboard.message(), "Clipboard is empty");
    assert_eq!(clipboard_unavailable_error("no display").message(), "Clipboard unavailable: no display");
    assert_eq!(invalid_format_error("png", "truncated").message(), "Invalid format: png: truncated");
    assert_eq!(
        permission_denied_error("paste").message(),
        "Permission denied: Permission denied for operation: paste"
    );
    assert_eq!(content_too_large_error(5, 4).error_kind(), ClipboardErrorKind::ContentTooLarge);
    assert_eq!(
        unsupported_operation_error("Files", "X11").message(),
        "Unsupported operation: Files not supported on X11"
    );
    assert_eq!(ClipboardError::ConfigError("x".to_string()).message(), "Configuration error: x");
    let r: Result<(), String> = Err("broken pipe".to_string());
    assert_eq!(message_of(r.with_clipboard_context(|| "writing".to_string())), "I/O error: writing: broken pipe");
}

#[test]
fn html_to_text_removes_tags_and_entities() {
    assert_eq!(x11_clipboard::html_to_text("<p>Tom &amp; Jerry &lt;3</p>"), "Tom & Jerry <3");
    assert_eq!(x11_clipboard::html_to_text("a &#39; b"), "a &#39; b");
    assert_eq!(wayland_clipboard::html_to_text("a &#39; b &#x2F; c&#x3D;"), "a ' b / c=");
    assert_eq!(x11_clipboard::html_to_text("<>"), "<>");
    assert_eq!(x11_clipboard::html_to_text("a < b > c"), "a  c");
    assert_eq!(x11_clipboard::html_to_text("&amp;lt;"), "<");
    assert_eq!(remove_tags("<a href=\"x\">link</a><br/>"), "link");
    assert_eq!(replace_all_text("aaa", "aa", "b"), "ba");
}

#[test]
fn mime_type_lists() {
    assert_eq!(parse_mime_types("TARGETS\n text/plain \n\nimage/png\r\n"), vec!["TARGETS", "text/plain", "image/png"]);
    assert_eq!(mime_types_result(None).unwrap(), vec!["text/plain"]);
    assert_eq!(mime_types_result(Some(Ok("a\nb".to_string()))).unwrap(), vec!["a", "b"]);
    assert_eq!(formats_or_plain(Err(ClipboardError::EmptyClipboard)), vec!["text/plain"]);
}

#[test]
fn uri_lists() {
    let list = "# comment\nfile:///home/a%20b.txt\nhttp://x\n\n";
    assert_eq!(parse_uri_list(list, false), vec!["/home/a%20b.txt", "http://x"]);
    assert_eq!(parse_uri_list(list, true), vec!["/home/a b.txt", "http://x"]);
    assert_eq!(parse_uri_list("file:///bad%FF", true), vec!["/bad%FF"]);
    assert_eq!(kind_of(&files_from(Ok(String::new()), false)), Some(ClipboardErrorKind::EmptyClipboard));
    assert_eq!(files_from(Ok("file:///a".to_string()), false).unwrap(), vec!["/a"]);
}

#[test]
fn x11_provider_chooses_its_tool() {
    assert_eq!(X11ClipboardProvider::new(true, true).unwrap().preferred_tool(), X11ClipboardTool::XClip);
    let xsel = X11ClipboardProvider::new(false, true).unwrap();
    assert_eq!(xsel.preferred_tool(), X11ClipboardTool::XSel);
    assert!(xsel.is_available());
    assert_eq!(xsel.create_clone().preferred_tool(), X11ClipboardTool::XSel);
    assert_eq!(
        message_of(X11ClipboardProvider::new(false, false)),
        "Clipboard unavailable: Neither xclip nor xsel is available. Please install one of them."
    );
}

#[test]
fn x11_invocations() {
    let xclip = X11ClipboardProvider::new(true, false).unwrap();
    let call = xclip.get_text_call().unwrap();
    assert_eq!(call.tool, ClipboardTool::XClip);
    assert_eq!(call.args, vec!["-selection", "clipboard", "-o"]);
    assert!(call.reading && call.input.is_none());
    assert!(xclip.set_text_call("").unwrap().is_none());
    let call = xclip.set_image_call("JPG", "/tmp/x.JPG").unwrap();
    assert_eq!(call.args, vec!["-selection", "clipboard", "-t", "image/jpeg", "-i", "/tmp/x.JPG"]);
    let calls = xclip.set_html_calls("<b>x</b>").unwrap();
    assert_eq!(calls.len(), 2);
    assert_eq!(calls[0].args, vec!["-selection", "clipboard", "-t", "text/html", "-i"]);
    assert_eq!(calls[1].input.as_deref(), Some("x"));
    let calls = xclip.get_image_calls().unwrap();
    assert_eq!(calls[1].args, vec!["-selection", "clipboard", "-t", "image/jpeg", "-o"]);
    assert_eq!(xclip.mime_types_call().unwrap().unwrap().args, vec!["-selection", "clipboard", "-t", "TARGETS", "-o"]);
    assert_eq!(xclip.get_files_call().unwrap().args, vec!["-selection", "clipboard", "-t", "text/uri-list", "-o"]);
    assert_eq!(xclip.get_html_call().unwrap().unwrap().args[3], "text/html");

    let xsel = X11ClipboardProvider::new(false, true).unwrap();
    let call = xsel.set_text_call("hi").unwrap().unwrap();
    assert_eq!((call.tool, call.args.clone(), call.input.clone()), (ClipboardTool::XSel, vec!["-b".to_string(), "-i".to_string()], Some("hi".to_string())));
    assert_eq!(xsel.get_text_call().unwrap().args, vec!["-b", "-o"]);
    assert_eq!(message_of(xsel.get_image_calls()), "Unsupported operation: Image clipboard not supported with xsel");
    assert_eq!(message_of(xsel.get_files_call()), "Unsupported operation: File clipboard not supported with xsel");
    assert!(xsel.mime_types_call().unwrap().is_none());
    assert!(xsel.get_html_call().unwrap().is_none());
    assert!(xsel.set_html_calls("<br>").unwrap().is_empty());
    assert_eq!(xsel.set_html_calls("<i>a</i>").unwrap()[0].input.as_deref(), Some("a"));
}

#[test]
fn x11_html_reads() {
    assert!(X11ClipboardProvider::html_result(Ok(String::new())).unwrap().is_none());
    assert_eq!(X11ClipboardProvider::html_result(Ok("<p>".to_string())).unwrap().as_deref(), Some("<p>"));
    assert!(X11ClipboardProvider::html_result(Err(ClipboardError::EmptyClipboard)).is_err());
}

#[test]
fn wayland_provider() {
    assert_eq!(
        message_of(WaylandClipboardProvider::new(true, false)),
        "Clipboard unavailable: wl-clipboard tools (wl-copy, wl-paste) are not available. Please install wl-clipboard package."
    );
    let wl = WaylandClipboardProvider::new(true, true).unwrap();
    assert!(wl.is_available());
    assert!(wl.create_clone().is_available());
    let call = wl.get_text_call();
    assert_eq!((call.tool, call.args.clone()), (ClipboardTool::WlPaste, vec!["-n".to_string()]));
    let call = wl.set_text_call("");
    assert_eq!((call.tool, call.args.len(), call.input.as_deref()), (ClipboardTool::WlCopy, 0, Some("")));
    assert_eq!(wl.mime_types_call().args, vec!["-l"]);
    let images: Vec<String> = wl.get_image_calls().into_iter().map(|c| c.args[1].clone()).collect();
    assert_eq!(images, vec!["image/png", "image/jpeg", "image/gif"]);
    assert_eq!(wl.get_html_call().args, vec!["-t", "text/html"]);
    assert_eq!(wl.get_files_call().args, vec!["-t", "text/uri-list"]);
    let calls = wl.set_html_calls("<b>a&nbsp;b</b>");
    assert_eq!(calls[1].args, vec!["-t", "text/plain"]);
    assert_eq!(calls[1].input.as_deref(), Some("a b"));
    assert!(WaylandClipboardProvider::html_result(Ok(String::new())).is_none());
    assert!(WaylandClipboardProvider::html_result(Err(ClipboardError::EmptyClipboard)).is_none());
    assert_eq!(WaylandClipboardProvider::html_result(Ok("<p>".to_string())).as_deref(), Some("<p>"));
    assert_eq!(
        wayland_clipboard::image_copy_command("/tmp/a.png", "image/png"),
        "cat '/tmp/a.png' | wl-copy -t 'image/png'"
    );
    assert_eq!(
        message_of(wayland_clipboard::image_copy_outcome(&Err(ToolFailure::Execute("gone".to_string())))),
        "I/O error: Failed to execute wl-copy with image: gone"
    );
    assert_eq!(
        message_of(wayland_clipboard::image_copy_outcome(&Ok(output(false, "", "denied")))),
        "I/O error: wl-copy failed: denied"
    );
    assert!(wayland_clipboard::image_copy_outcome(&Ok(output(true, "", ""))).is_ok());
}

#[test]
fn outcomes_of_tool_runs() {
    assert_eq!(call_outcome(&read(ClipboardTool::XClip), &Ok(output(true, "text", ""))).unwrap(), "text");
    assert_eq!(
        kind_of(&call_outcome(&read(ClipboardTool::XClip), &Ok(output(false, "", "Error: selection is empty")))),
        Some(ClipboardErrorKind::EmptyClipboard)
    );
    assert_eq!(
        message_of(call_outcome(&read(ClipboardTool::XClip), &Ok(output(false, "", "no display")))),
        "I/O error: xclip failed: no display"
    );
    assert_eq!(
        kind_of(&call_outcome(&read(ClipboardTool::XSel), &Ok(output(false, "", "whatever")))),
        Some(ClipboardErrorKind::EmptyClipboard)
    );
    assert_eq!(
        kind_of(&call_outcome(&read(ClipboardTool::WlPaste), &Ok(output(false, "", "Nothing is copied: No selection")))),
        Some(ClipboardErrorKind::EmptyClipboard)
    );
    assert_eq!(
        message_of(call_outcome(&read(ClipboardTool::WlPaste), &Ok(output(false, "", "oops")))),
        "I/O error: wl-paste failed: oops"
    );
    assert_eq!(
        message_of(call_outcome(&write(ClipboardTool::XClip), &Ok(output(false, "", "selection is empty")))),
        "I/O error: xclip failed: selection is empty"
    );
    assert_eq!(
        message_of(call_outcome(&read(ClipboardTool::XClip), &Err(ToolFailure::Execute("x".to_string())))),
        "I/O error: Failed to execute xclip: x"
    );
    assert_eq!(
        message_of(call_outcome(&write(ClipboardTool::XClip), &Err(ToolFailure::Spawn("x".to_string())))),
        "I/O error: Failed to spawn xclip: x"
    );
    assert_eq!(
        message_of(call_outcome(&write(ClipboardTool::XSel), &Err(ToolFailure::WriteInput("x".to_string())))),
        "I/O error: Failed to write to xsel stdin: x"
    );
    assert_eq!(
        message_of(call_outcome(&write(ClipboardTool::WlCopy), &Err(ToolFailure::Wait("x".to_string())))),
        "I/O error: Failed to wait for wl-copy: x"
    );
}

#[test]
fn reads_and_images() {
    assert_eq!(kind_of(&require_text(Ok(String::new()))), Some(ClipboardErrorKind::EmptyClipboard));
    assert_eq!(require_text(Ok("a".to_string())).unwrap(), "a");
    assert_eq!(image_bytes(&Ok("abc".to_string())), Some(b"abc".to_vec()));
    assert_eq!(image_bytes(&Ok(String::new())), None);
    assert_eq!(raw_image(&Ok(output(true, "", ""))), None);
    assert_eq!(raw_image(&Ok(output(true, "PNG", ""))), Some(b"PNG".to_vec()));
    assert_eq!(raw_image(&Ok(output(false, "PNG", ""))), None);
    assert_eq!(kind_of(&image_or_empty(None)), Some(ClipboardErrorKind::EmptyClipboard));
    assert_eq!(image_mime_type("WebP", true), "image/webp");
    assert_eq!(image_mime_type("webp", false), "image/png");
    assert_eq!(image_mime_type("JPEG", false), "image/jpeg");
    assert_eq!(image_mime_type("tiff", true), "image/png");
}

#[test]
fn history_is_bounded_and_deduplicated() {
    let mut h = ClipboardHistory::new(2);
    h.push(entry("1", ClipboardContentType::Text, "a"));
    h.push(entry("2", ClipboardContentType::Text, "b"));
    h.push(entry("3", ClipboardContentType::Text, "c"));
    assert_eq!(ids(&h), vec!["2", "3"]);
    h.add_remote(entry("3", ClipboardContentType::Text, "other"));
    assert_eq!(ids(&h), vec!["2", "3"]);
    assert_eq!(h.find("3").unwrap().data, "c");
    h.add_remote(entry("4", ClipboardContentType::Text, "d"));
    assert_eq!(ids(&h), vec!["3", "4"]);
    assert_eq!(message_of(h.find("zzz")), "Entry not found: zzz");
    h.clear();
    assert_eq!(h.len(), 0);
}

#[test]
fn watching_reports_each_change_once() {
    let mut w = ClipboardWatch::new();
    let step = w.observe(&Ok(String::new()));
    assert!(step.changed.is_none());
    let step = w.observe(&Ok("a".to_string()));
    assert_eq!((step.changed.as_deref(), step.poll_interval_ms), (Some("a"), 500));
    assert!(w.observe(&Ok("a".to_string())).changed.is_none());
    w.remember("b");
    assert!(w.observe(&Ok("b".to_string())).changed.is_none());
    assert_eq!(w.observe(&Ok(String::new())).changed.as_deref(), Some(""));
    assert_eq!(w.observe(&Err(ClipboardError::EmptyClipboard)).poll_interval_ms, 1000);
    assert_eq!(w.observe(&Err(ClipboardError::IoError("x".to_string()))).poll_interval_ms, 2000);
}

#[test]
fn watching_adds_one_entry_per_change() {
    let mut w = ClipboardWatch::new();
    let mut h = ClipboardHistory::new(2);
    let reads: Vec<Result<String, ClipboardError>> = vec![
        Ok(String::new()),
        Ok("a".to_string()),
        Ok("a".to_string()),
        Err(ClipboardError::EmptyClipboard),
        Ok("b".to_string()),
        Ok("c".to_string()),
        Ok("c".to_string()),
    ];
    let mut added = Vec::new();
    for (i, read) in reads.iter().enumerate() {
        let (step, entry) = record_poll(&mut w, &mut h, read, format!("id{}", i), i as i64);
        assert_eq!(step.changed.is_some(), entry.is_some());
        if let Some(e) = entry {
            assert_eq!(e.metadata.mime_type, "text/plain");
            assert_eq!(e.metadata.source, "local");
            added.push((e.id, e.data, e.timestamp));
        }
    }
    assert_eq!(
        added,
        vec![
            ("id1".to_string(), "a".to_string(), 1),
            ("id4".to_string(), "b".to_string(), 4),
            ("id5".to_string(), "c".to_string(), 5),
        ]
    );
    assert_eq!(ids(&h), vec!["id4", "id5"]);
}

#[test]
fn text_entries() {
    let e = text_entry("id1".to_string(), "héllo", 5);
    assert_eq!(e.id, "id1");
    assert_eq!(e.content_type, ClipboardContentType::Text);
    assert_eq!(e.metadata.size, 6);
    assert_eq!(e.metadata.mime_type, "text/plain");
    assert_eq!(e.metadata.source, "local");
    assert_eq!(e.timestamp, 5);
    assert_eq!(e.duplicate().data, "héllo");
}

#[test]
fn remote_entries() {
    match remote_action(&entry("1", ClipboardContentType::Text, "hi")).unwrap() {
        ClipboardAction::SetText(t) => assert_eq!(t, "hi"),
        other => panic!("{:?}", other),
    }
    match remote_action(&entry("1", ClipboardContentType::Html, "<b>")).unwrap() {
        ClipboardAction::SetText(t) => assert_eq!(t, "<b>"),
        other => panic!("{:?}", other),
    }
    match remote_action(&entry("1", ClipboardContentType::Image, "aGVsbG8=")).unwrap() {
        ClipboardAction::SetImage(b, m) => assert_eq!((b, m), (b"hello".to_vec(), "image/png".to_string())),
        other => panic!("{:?}", other),
    }
    assert_eq!(
        kind_of(&remote_action(&entry("1", ClipboardContentType::Image, "!!"))),
        Some(ClipboardErrorKind::DecodingError)
    );
    assert_eq!(
        message_of(remote_action(&entry("1", ClipboardContentType::Files, "/a"))),
        "Unsupported operation: Cannot set files to clipboard"
    );
}

#[test]
fn entries_are_sent_in_base64() {
    assert_eq!(sync_entry(&entry("1", ClipboardContentType::Text, "hi")).data, "aGk=");
    assert_eq!(sync_entry(&entry("1", ClipboardContentType::Html, "héllo")).data, "aMOpbGxv");
    let s = sync_entry(&entry("7", ClipboardContentType::Image, "AAAA"));
    assert_eq!((s.id, s.data, s.timestamp), ("7".to_string(), "AAAA".to_string(), 1_700_000_000_000));
}

#[test]
fn defaults() {
    let c = ClipboardSyncConfig::default();
    assert!(c.enabled && c.sync_images && c.sync_html && c.auto_sync && !c.sync_files);
    assert_eq!((c.max_content_size, c.history_size), (10 * 1024 * 1024, 50));
    let s = ClipboardSyncStats::default();
    assert_eq!((s.entries_synced, s.sync_errors, s.last_sync), (0, 0, None));
    let f = ClipboardSyncFilter::default();
    assert_eq!((f.min_text_length, f.max_text_length), (1, 1024 * 1024));
    assert_eq!(f.blocked_mime_types, vec!["application/octet-stream", "application/x-executable"]);
    assert_eq!(f.blocked_file_extensions, vec!["exe", "bat", "cmd", "com", "scr", "dll"]);
    assert!(f.allowed_mime_types.is_empty() && f.blocked_content_patterns.is_empty());
}
