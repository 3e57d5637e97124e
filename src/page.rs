//! The page shown in the window: a fixed shell around a title and a body.

use vstd::prelude::*;

verus! {

/// The shell up to the title.
pub const PAGE_HEAD: &'static str = "<!DOCTYPE html>\n<html>\n<head>\n<meta charset=\"utf-8\">\n<title>";

/// The shell between the title and the body: styles, and the script that
/// posts the window-chrome messages (`input!...`) for pointer activity.
pub const PAGE_MIDDLE: &'static str = "</title>\n<style>\nhtml, body { margin: 0; padding: 0; background: transparent; }\n</style>\n<script>\n(function () {\n  function post(m) { window.ipc.postMessage(m); }\n  function at(e) { return Math.round(e.clientX) + ',' + Math.round(e.clientY); }\n  document.addEventListener('mousedown', function (e) {\n    if (e.target.closest && e.target.closest('[data-drag-region]')) { post('input!drag_window'); return; }\n    post('input!mousedown:' + at(e));\n  });\n  document.addEventListener('mousemove', function (e) { post('input!mousemove:' + at(e)); });\n  window.webview = {\n    minimize: function () { post('input!minimize'); },\n    maximize: function () { post('input!maximize'); },\n    close: function () { post('input!close'); },\n    send: function (m) { post(String(m)); }\n  };\n})();\n</script>\n</head>\n<body>\n";

/// The shell after the body.
pub const PAGE_TAIL: &'static str = "\n</body>\n</html>\n";

/// The page for a window titled `title` whose body is `body`.
pub open spec fn page_text(title: Seq<char>, body: Seq<char>) -> Seq<char> {
    PAGE_HEAD@ + title + PAGE_MIDDLE@ + body + PAGE_TAIL@
}

/// Where the body starts in the page of a window titled `title`.
pub open spec fn body_offset(title: Seq<char>) -> int {
    (PAGE_HEAD@.len() + title.len() + PAGE_MIDDLE@.len()) as int
}

/// Substitutes the title and the body into the shell.
pub fn render_page(title: &str, body: &str) -> (r: String)
    ensures
        r@ == page_text(title@, body@),
{
    let mut page = String::from_str(PAGE_HEAD);
    page.append(title);
    page.append(PAGE_MIDDLE);
    page.append(body);
    page.append(PAGE_TAIL);
    page
}

/// The rendered page holds the title and the body verbatim, each at its
/// fixed place in the shell.
pub proof fn lemma_page_embeds(title: Seq<char>, body: Seq<char>)
    ensures
        page_text(title, body).subrange(
            PAGE_HEAD@.len() as int,
            (PAGE_HEAD@.len() + title.len()) as int,
        ) == title,
        page_text(title, body).subrange(body_offset(title), body_offset(title) + body.len())
            == body,
        page_text(title, body).take(PAGE_HEAD@.len() as int) == PAGE_HEAD@,
{
    let p = page_text(title, body);
    assert(p.subrange(PAGE_HEAD@.len() as int, (PAGE_HEAD@.len() + title.len()) as int) =~= title);
    assert(p.subrange(body_offset(title), body_offset(title) + body.len()) =~= body);
    assert(p.take(PAGE_HEAD@.len() as int) =~= PAGE_HEAD@);
}

} // verus!
