//! The page that shows a paste.

use vstd::prelude::*;
use crate::paste::{StoredPaste, StoredPasteView, UNTITLED};
use crate::expiry::display_text;

verus! {

/// The page up to the title's text.
pub const PAGE_START: &'static str =
    "<!DOCTYPE html><html lang=\"en\"><head><meta charset=\"utf-8\"><meta name=\"viewport\" content=\"width=device-width, initial-scale=1.0\"><title>";

/// The page between the title's text and the heading's text.
pub const PAGE_HEAD_END: &'static str =
    "</title><link rel=\"stylesheet\" href=\"https://unpkg.com/purecss@2.0.6/build/pure-min.css\" integrity=\"sha384-Uu6IeWbM+gzNVXJcM9XV3SohHtmWE+3VGi496jvgX1jyvDTXfdK+rfZc8C1Aehk5\" crossorigin=\"anonymous\"><link rel=\"stylesheet\" href=\"https://unpkg.com/purecss@2.0.6/build/grids-responsive-min.css\" integrity=\"sha384-TxqXEM39LKAlr6mwXYlM8+n31/tjeQXzvjbORoLHWeLhkNhWoa9WkMJO/IIghaek\" crossorigin=\"anonymous\"><link rel=\"stylesheet\" type=\"text/css\" href=\"/style.css\"></head><body><h1>";

/// The page between the heading's text and the author.
pub const PAGE_AUTHOR_START: &'static str =
    "</h1><div class=\"pure-g\"><div class=\"pure-u-1-3\"><p>Author: ";

/// What stands for the author of a paste that names none.
pub const ANONYMOUS: &'static str = "<span class=\"anon-name\">anonymous</span>";

/// The page between the author and the privacy.
pub const PAGE_PRIVACY_START: &'static str = "</p></div><div class=\"pure-u-1-3\"><p>Privacy: ";

/// The page between the privacy and the expiry.
pub const PAGE_EXPIRY_START: &'static str = "</p></div><div class=\"pure-u-1-3\"><p>Expires: ";

/// The page between the expiry and the content.
pub const PAGE_CONTENT_START: &'static str = "</p></div></div><pre class=\"paste-content\">";

/// The page after the content.
pub const PAGE_END: &'static str = "</pre></body></html>";

/// What is written for one character of text inside markup: the four
/// characters that markup reads as its own are replaced by their entities.
pub open spec fn escaped_char(c: char) -> Seq<char> {
    if c == '&' {
        "&amp;"@
    } else if c == '<' {
        "&lt;"@
    } else if c == '>' {
        "&gt;"@
    } else if c == '"' {
        "&quot;"@
    } else {
        seq![c]
    }
}

/// A text as it is written inside markup.
pub open spec fn html_escaped(text: Seq<char>) -> Seq<char>
    decreases text.len(),
{
    if text.len() == 0 {
        Seq::empty()
    } else {
        html_escaped(text.drop_last()) + escaped_char(text.last())
    }
}

/// The markup for the author.
pub open spec fn author_markup(author: Option<Seq<char>>) -> Seq<char> {
    match author {
        Some(name) => "<span>"@ + html_escaped(name) + "</span>"@,
        None => ANONYMOUS@,
    }
}

/// The word for the privacy.
pub open spec fn privacy_word(unlisted: bool) -> Seq<char> {
    if unlisted {
        "unlisted"@
    } else {
        "public"@
    }
}

/// The page for a paste with the given title, author, privacy, expiry and
/// content.
pub open spec fn page_text(
    title: Seq<char>,
    author: Option<Seq<char>>,
    unlisted: bool,
    expires: Seq<char>,
    content: Seq<char>,
) -> Seq<char> {
    PAGE_START@ + html_escaped(title) + PAGE_HEAD_END@ + html_escaped(title) + PAGE_AUTHOR_START@
        + author_markup(author) + PAGE_PRIVACY_START@ + privacy_word(unlisted)
        + PAGE_EXPIRY_START@ + html_escaped(expires) + PAGE_CONTENT_START@ + html_escaped(content)
        + PAGE_END@
}

/// The title that a paste is shown with.
pub open spec fn shown_title(paste: StoredPasteView) -> Seq<char> {
    match paste.title {
        Some(title) => title,
        None => UNTITLED@,
    }
}

/// The text that says when a paste expires.
pub open spec fn shown_expiry(paste: StoredPasteView) -> Seq<char> {
    match paste.exp {
        Some(exp) => display_text(exp.secs, exp.nanos),
        None => "never"@,
    }
}

/// `maud`'s rendering of a string, which writes `&amp;`, `&lt;`, `&gt;` and
/// `&quot;` for the characters `&`, `<`, `>` and `"`, and every other
/// character as it is.
#[verifier::external_body]
fn escape_markup(text: &str) -> (r: String)
    ensures
        r@ == html_escaped(text@),
{
    maud::Render::render(text).into_string()
}

/// Builds the page for a paste from its parts.
pub fn render_page(
    title: &str,
    author: Option<&str>,
    unlisted: bool,
    expires: &str,
    content: &str,
) -> (page: String)
    ensures
        page@ == page_text(title@, author.deep_view(), unlisted, expires@, content@),
{
    let shown = escape_markup(title);
    let mut page = String::from_str(PAGE_START);
    page.append(shown.as_str());
    page.append(PAGE_HEAD_END);
    page.append(shown.as_str());
    page.append(PAGE_AUTHOR_START);
    match author {
        Some(name) => {
            let escaped = escape_markup(name);
            page.append("<span>");
            page.append(escaped.as_str());
            page.append("</span>");
            proof {
                let before = PAGE_START@ + html_escaped(title@) + PAGE_HEAD_END@ + html_escaped(
                    title@,
                ) + PAGE_AUTHOR_START@;
                assert(page@ =~= before + author_markup(author.deep_view()));
            }
        },
        None => {
            page.append(ANONYMOUS);
        },
    }
    page.append(PAGE_PRIVACY_START);
    if unlisted {
        page.append("unlisted");
    } else {
        page.append("public");
    }
    page.append(PAGE_EXPIRY_START);
    let when = escape_markup(expires);
    page.append(when.as_str());
    page.append(PAGE_CONTENT_START);
    let body = escape_markup(content);
    page.append(body.as_str());
    page.append(PAGE_END);
    page
}

impl StoredPaste {
    /// The page that shows this paste.
    pub fn render_html(self) -> (page: String)
        requires
            self.exp matches Some(exp) ==> exp.is_valid(),
        ensures
            page@ == page_text(
                shown_title(self@),
                self@.author,
                self@.unlisted,
                shown_expiry(self@),
                self@.content,
            ),
    {
        let expires = match self.exp {
            Some(exp) => exp.to_text(),
            None => String::from_str("never"),
        };
        let author: Option<&str> = match &self.author {
            Some(name) => Some(name.as_str()),
            None => None,
        };
        render_page(self.get_title(), author, self.unlisted, expires.as_str(), self.content.as_str())
    }
}

} // verus!
