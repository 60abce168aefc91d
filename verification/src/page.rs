//! The page shell and error panels.
//!
//! Wrapping a rendered body in the page template, and framing a failure
//! message as a visible panel, are plain text concatenation; their contracts
//! pin the output exactly. The shell is what the root route serves: the full
//! page with an empty mount point, which the client-side script then fills
//! from the snapshot route and keeps current over the event stream.

use vstd::prelude::*;

verus! {

/// Everything of the page that stands before the rendered body.
pub open spec fn page_prefix_text() -> Seq<char> {
    r#"<!DOCTYPE html>
<html>
  <head>
    <title>Glypho live preview</title>
    <script type="text/javascript">
      var eventSource = new EventSource('sse');
      eventSource.onmessage = function(event) {
        if (event.data !== "false") {
          document.querySelector('article#markdown').innerHTML = event.data;
        }
      }
    </script>
    <style>
    * {
        margin: 0;
        padding: 0;
        box-sizing: border-box;
    }

    body {
        font-family: -apple-system, BlinkMacSystemFont, 'Segoe UI', Roboto, sans-serif;
        line-height: 1.6;
        color: #333;
        background-color: #f5f5f5;
        max-width: 800px;
        margin: 20px auto;
        padding: 40px;
        border: 2px solid #ddd;
        border-radius: 8px;
        box-shadow: 0 4px 6px rgba(0, 0, 0, 0.1);
        background-color: #fff;
    }

    h1, h2, h3, h4, h5, h6 {
        margin-bottom: 16px;
        font-weight: 600;
        line-height: 1.25;
    }

    h1 { font-size: 2em; color: #2c3e50; }
    h2 { font-size: 1.5em; color: #34495e; }
    h3 { font-size: 1.25em; color: #34495e; }

    p {
        margin-bottom: 16px;
    }

    a {
        color: #3498db;
        text-decoration: none;
    }

    a:hover {
        text-decoration: underline;
    }

    ul, ol {
        margin-bottom: 16px;
        padding-left: 24px;
    }

    li {
        margin-bottom: 4px;
    }

    pre {
        background: #f8f9fa;
        border: 1px solid #e9ecef;
        border-radius: 6px;
        padding: 16px;
        margin-bottom: 16px;
        overflow-x: auto;
        font-family: 'SF Mono', Monaco, 'Cascadia Code', 'Roboto Mono', Consolas, monospace;
        font-size: 14px;
        line-height: 1.45;
    }

    code {
        background: #f1f3f4;
        padding: 2px 6px;
        border-radius: 3px;
        font-family: 'SF Mono', Monaco, 'Cascadia Code', 'Roboto Mono', Consolas, monospace;
        font-size: 85%;
    }

    pre code {
        background: none;
        padding: 0;
        border-radius: 0;
    }

    blockquote {
        border-left: 4px solid #ddd;
        padding-left: 16px;
        margin: 16px 0;
        color: #666;
        font-style: italic;
    }

    table {
        border-collapse: collapse;
        width: 100%;
        margin-bottom: 16px;
    }

    th, td {
        border: 1px solid #ddd;
        padding: 8px 12px;
        text-align: left;
    }

    th {
        background-color: #f8f9fa;
        font-weight: 600;
    }

    img {
        max-width: 100%;
        height: auto;
        border-radius: 4px;
        margin: 16px 0;
    }

    hr {
        border: none;
        border-top: 1px solid #eee;
        margin: 24px 0;
    }

    .error-panel {
        border: 2px solid #e74c3c;
        border-radius: 6px;
        background-color: #fdecea;
        color: #c0392b;
        padding: 16px;
        margin: 16px 0;
        font-family: 'SF Mono', Monaco, monospace;
    }

    @media (prefers-color-scheme: dark) {
        body {
            background-color: #2d2d2d;
            color: #e0e0e0;
            border-color: #555;
        }

        html {
            background-color: #1a1a1a;
        }

        h1 { color: #ffffff; }
        h2, h3 { color: #f0f0f0; }

        a {
            color: #5dade2;
        }

        pre, code, th {
            background: #3a3a3a;
            color: #e0e0e0;
        }

        blockquote {
            border-left-color: #666;
            color: #aaa;
        }

        th, td {
            border-color: #555;
        }
    }
    </style>
  </head>
  <body>
    <article id="markdown">"#@
}

/// Everything of the page that stands after the rendered body.
pub open spec fn page_suffix_text() -> Seq<char> {
    r#"</article>
  </body>
</html>"#@
}

/// The full page around a given rendered body.
pub open spec fn wrapped_page_text(body: Seq<char>) -> Seq<char> {
    page_prefix_text() + body + page_suffix_text()
}

/// Wraps a rendered body in the page template.
pub fn wrap_page(body: &str) -> (r: String)
    ensures
        r@ == wrapped_page_text(body@),
{
    let mut r = r#"<!DOCTYPE html>
<html>
  <head>
    <title>Glypho live preview</title>
    <script type="text/javascript">
      var eventSource = new EventSource('sse');
      eventSource.onmessage = function(event) {
        if (event.data !== "false") {
          document.querySelector('article#markdown').innerHTML = event.data;
        }
      }
    </script>
    <style>
    * {
        margin: 0;
        padding: 0;
        box-sizing: border-box;
    }

    body {
        font-family: -apple-system, BlinkMacSystemFont, 'Segoe UI', Roboto, sans-serif;
        line-height: 1.6;
        color: #333;
        background-color: #f5f5f5;
        max-width: 800px;
        margin: 20px auto;
        padding: 40px;
        border: 2px solid #ddd;
        border-radius: 8px;
        box-shadow: 0 4px 6px rgba(0, 0, 0, 0.1);
        background-color: #fff;
    }

    h1, h2, h3, h4, h5, h6 {
        margin-bottom: 16px;
        font-weight: 600;
        line-height: 1.25;
    }

    h1 { font-size: 2em; color: #2c3e50; }
    h2 { font-size: 1.5em; color: #34495e; }
    h3 { font-size: 1.25em; color: #34495e; }

    p {
        margin-bottom: 16px;
    }

    a {
        color: #3498db;
        text-decoration: none;
    }

    a:hover {
        text-decoration: underline;
    }

    ul, ol {
        margin-bottom: 16px;
        padding-left: 24px;
    }

    li {
        margin-bottom: 4px;
    }

    pre {
        background: #f8f9fa;
        border: 1px solid #e9ecef;
        border-radius: 6px;
        padding: 16px;
        margin-bottom: 16px;
        overflow-x: auto;
        font-family: 'SF Mono', Monaco, 'Cascadia Code', 'Roboto Mono', Consolas, monospace;
        font-size: 14px;
        line-height: 1.45;
    }

    code {
        background: #f1f3f4;
        padding: 2px 6px;
        border-radius: 3px;
        font-family: 'SF Mono', Monaco, 'Cascadia Code', 'Roboto Mono', Consolas, monospace;
        font-size: 85%;
    }

    pre code {
        background: none;
        padding: 0;
        border-radius: 0;
    }

    blockquote {
        border-left: 4px solid #ddd;
        padding-left: 16px;
        margin: 16px 0;
        color: #666;
        font-style: italic;
    }

    table {
        border-collapse: collapse;
        width: 100%;
        margin-bottom: 16px;
    }

    th, td {
        border: 1px solid #ddd;
        padding: 8px 12px;
        text-align: left;
    }

    th {
        background-color: #f8f9fa;
        font-weight: 600;
    }

    img {
        max-width: 100%;
        height: auto;
        border-radius: 4px;
        margin: 16px 0;
    }

    hr {
        border: none;
        border-top: 1px solid #eee;
        margin: 24px 0;
    }

    .error-panel {
        border: 2px solid #e74c3c;
        border-radius: 6px;
        background-color: #fdecea;
        color: #c0392b;
        padding: 16px;
        margin: 16px 0;
        font-family: 'SF Mono', Monaco, monospace;
    }

    @media (prefers-color-scheme: dark) {
        body {
            background-color: #2d2d2d;
            color: #e0e0e0;
            border-color: #555;
        }

        html {
            background-color: #1a1a1a;
        }

        h1 { color: #ffffff; }
        h2, h3 { color: #f0f0f0; }

        a {
            color: #5dade2;
        }

        pre, code, th {
            background: #3a3a3a;
            color: #e0e0e0;
        }

        blockquote {
            border-left-color: #666;
            color: #aaa;
        }

        th, td {
            border-color: #555;
        }
    }
    </style>
  </head>
  <body>
    <article id="markdown">"#.to_owned();
    r.append(body);
    r.append(r#"</article>
  </body>
</html>"#);
    r
}

/// The page shell: the template with an empty mount point.
pub open spec fn page_shell_text() -> Seq<char> {
    wrapped_page_text(Seq::<char>::empty())
}

/// The static page shell served on the initial page load.
pub fn page_shell() -> (r: String)
    ensures
        r@ == page_shell_text(),
{
    let r = wrap_page("");
    proof {
        reveal_strlit("");
        assert(r@ =~= page_shell_text());
    }
    r
}

/// A failure message framed as a visible error panel.
pub open spec fn error_panel_text(msg: Seq<char>) -> Seq<char> {
    r#"<div class="error-panel">"#@ + msg + "</div>"@
}

/// Holds of any page that is an error panel rather than rendered content.
pub open spec fn is_error_panel(page: Seq<char>) -> bool {
    exists|msg: Seq<char>| page == #[trigger] error_panel_text(msg)
}

/// Frames a failure message as a visible error panel.
pub fn error_panel(msg: &str) -> (r: String)
    ensures
        r@ == error_panel_text(msg@),
        is_error_panel(r@),
{
    let mut r = r#"<div class="error-panel">"#.to_owned();
    r.append(msg);
    r.append("</div>");
    proof {
        assert(r@ == error_panel_text(msg@));
    }
    r
}

} // verus!
