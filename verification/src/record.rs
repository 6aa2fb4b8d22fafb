//! The text in which a paste is stored: one object with the fields `title`,
//! `content`, `author`, `unlisted` and `exp`, in this order and without
//! spaces, where a field that is absent is left out.

use vstd::prelude::*;
use crate::ident::{digit_char, lower_hex_digit};
use crate::text::chars_of;

verus! {

/// What is written for one character inside a quoted text. The quote and the
/// backslash get a backslash in front; the control characters get their short
/// name where they have one, and four hexadecimal digits where they have
/// none; every other character stands for itself.
pub open spec fn escaped(c: char) -> Seq<char> {
    if c == '"' {
        seq!['\\', '"']
    } else if c == '\\' {
        seq!['\\', '\\']
    } else if c == '\u{8}' {
        seq!['\\', 'b']
    } else if c == '\u{c}' {
        seq!['\\', 'f']
    } else if c == '\n' {
        seq!['\\', 'n']
    } else if c == '\r' {
        seq!['\\', 'r']
    } else if c == '\t' {
        seq!['\\', 't']
    } else if (c as int) < 32 {
        seq![
            '\\',
            'u',
            '0',
            '0',
            lower_hex_digit(c as int / 16),
            lower_hex_digit(c as int % 16),
        ]
    } else {
        seq![c]
    }
}

/// A text as it is written between quotes.
pub open spec fn escaped_text(text: Seq<char>) -> Seq<char>
    decreases text.len(),
{
    if text.len() == 0 {
        Seq::empty()
    } else {
        escaped(text[0]) + escaped_text(text.drop_first())
    }
}

/// A text written with its quotes.
pub open spec fn quoted(text: Seq<char>) -> Seq<char> {
    seq!['"'] + escaped_text(text) + seq!['"']
}

/// The fields of a stored record, the expiry as the text that stands for it.
pub struct RecordView {
    pub title: Option<Seq<char>>,
    pub content: Seq<char>,
    pub author: Option<Seq<char>>,
    pub unlisted: bool,
    pub exp: Option<Seq<char>>,
}

/// What opens a record.
pub const OPENING: &'static str = "{";

/// What closes a record.
pub const CLOSING: &'static str = "}";

/// What stands between a field that is followed by another and that other.
pub const COMMA: &'static str = ",";

/// What stands before the title.
pub const TITLE_KEY: &'static str = "\"title\":";

/// What stands before the content.
pub const CONTENT_KEY: &'static str = "\"content\":";

/// What stands before the author.
pub const AUTHOR_KEY: &'static str = "\"author\":";

/// What stands before the privacy.
pub const UNLISTED_KEY: &'static str = "\"unlisted\":";

/// What stands before the expiry.
pub const EXP_KEY: &'static str = ",\"exp\":";

/// What is written for "yes".
pub const TRUE_WORD: &'static str = "true";

/// What is written for "no".
pub const FALSE_WORD: &'static str = "false";

/// What is written for the title: nothing where there is none.
pub open spec fn title_part(title: Option<Seq<char>>) -> Seq<char> {
    match title {
        Some(t) => TITLE_KEY@ + quoted(t) + COMMA@,
        None => Seq::empty(),
    }
}

/// What is written for the author: nothing where there is none.
pub open spec fn author_part(author: Option<Seq<char>>) -> Seq<char> {
    match author {
        Some(a) => AUTHOR_KEY@ + quoted(a) + COMMA@,
        None => Seq::empty(),
    }
}

/// What is written for the expiry: nothing where there is none.
pub open spec fn exp_part(exp: Option<Seq<char>>) -> Seq<char> {
    match exp {
        Some(e) => EXP_KEY@ + quoted(e),
        None => Seq::empty(),
    }
}

/// What is written for a truth value.
pub open spec fn bool_text(b: bool) -> Seq<char> {
    if b {
        TRUE_WORD@
    } else {
        FALSE_WORD@
    }
}

/// The text of a record.
pub open spec fn record_text(r: RecordView) -> Seq<char> {
    OPENING@ + title_part(r.title) + CONTENT_KEY@ + quoted(r.content) + COMMA@ + author_part(
        r.author,
    ) + UNLISTED_KEY@ + bool_text(r.unlisted) + exp_part(r.exp) + CLOSING@
}

/// The escaped form of a text grows at its end as the text does.
pub proof fn lemma_escaped_text_push(text: Seq<char>, c: char)
    ensures
        escaped_text(text.push(c)) == escaped_text(text) + escaped(c),
    decreases text.len(),
{
    if text.len() == 0 {
        assert(text.push(c).drop_first() =~= Seq::<char>::empty());
        assert(escaped_text(text.push(c)) =~= escaped(c) + escaped_text(Seq::<char>::empty()));
        assert(escaped_text(text.push(c)) =~= escaped_text(text) + escaped(c));
    } else {
        assert(text.push(c).drop_first() =~= text.drop_first().push(c));
        lemma_escaped_text_push(text.drop_first(), c);
        assert(escaped_text(text.push(c)) =~= escaped_text(text) + escaped(c));
    }
}

/// The fields of a stored record, the expiry as the text that stands for it.
#[derive(Clone, Debug, PartialEq, Eq)]
pub struct Record {
    pub title: Option<String>,
    pub content: String,
    pub author: Option<String>,
    pub unlisted: bool,
    pub exp: Option<String>,
}

impl DeepView for Record {
    type V = RecordView;

    open spec fn deep_view(&self) -> RecordView {
        self@
    }
}

impl View for Record {
    type V = RecordView;

    open spec fn view(&self) -> RecordView {
        RecordView {
            title: self.title.deep_view(),
            content: self.content@,
            author: self.author.deep_view(),
            unlisted: self.unlisted,
            exp: self.exp.deep_view(),
        }
    }
}

/// Appends one character as it is written inside a quoted text.
fn push_escaped(out: &mut String, c: char)
    ensures
        final(out)@ == old(out)@ + escaped(c),
{
    if c == '"' || c == '\\' {
        out.push('\\');
        out.push(c);
    } else if c == '\u{8}' {
        out.push('\\');
        out.push('b');
    } else if c == '\u{c}' {
        out.push('\\');
        out.push('f');
    } else if c == '\n' {
        out.push('\\');
        out.push('n');
    } else if c == '\r' {
        out.push('\\');
        out.push('r');
    } else if c == '\t' {
        out.push('\\');
        out.push('t');
    } else if c <= '\u{1f}' {
        let code: u8 = c as u8;
        out.push('\\');
        out.push('u');
        out.push('0');
        out.push('0');
        out.push(digit_char(code / 16));
        out.push(digit_char(code % 16));
    } else {
        out.push(c);
    }
    proof {
        assert(final(out)@ =~= old(out)@ + escaped(c));
    }
}

/// Appends a text with its quotes.
fn push_quoted(out: &mut String, text: &str)
    ensures
        final(out)@ == old(out)@ + quoted(text@),
{
    let chars = chars_of(text);
    out.push('"');
    let mut i: usize = 0;
    while i < chars.len()
        invariant
            i <= chars.len(),
            chars@ == text@,
            out@ == old(out)@ + seq!['"'] + escaped_text(chars@.take(i as int)),
        decreases chars.len() - i,
    {
        push_escaped(out, chars[i]);
        proof {
            lemma_escaped_text_push(chars@.take(i as int), chars@[i as int]);
            assert(chars@.take(i as int).push(chars@[i as int]) =~= chars@.take(i as int + 1));
            assert(out@ =~= old(out)@ + seq!['"'] + escaped_text(chars@.take(i as int + 1)));
        }
        i = i + 1;
    }
    out.push('"');
    proof {
        assert(chars@.take(chars.len() as int) =~= chars@);
        assert(final(out)@ =~= old(out)@ + quoted(text@));
    }
}

impl Record {
    /// The text of this record.
    pub fn to_text(&self) -> (text: String)
        ensures
            text@ == record_text(self@),
    {
        let mut out = String::from_str(OPENING);
        match &self.title {
            Some(t) => {
                out.append(TITLE_KEY);
                push_quoted(&mut out, t.as_str());
                out.append(COMMA);
                proof {
                    assert(out@ =~= OPENING@ + title_part(self@.title));
                }
            },
            None => {
                proof {
                    assert(out@ =~= OPENING@ + title_part(self@.title));
                }
            },
        }
        out.append(CONTENT_KEY);
        push_quoted(&mut out, self.content.as_str());
        out.append(COMMA);
        let ghost upto_content = out@;
        match &self.author {
            Some(a) => {
                out.append(AUTHOR_KEY);
                push_quoted(&mut out, a.as_str());
                out.append(COMMA);
                proof {
                    assert(out@ =~= upto_content + author_part(self@.author));
                }
            },
            None => {
                proof {
                    assert(out@ =~= upto_content + author_part(self@.author));
                }
            },
        }
        out.append(UNLISTED_KEY);
        if self.unlisted {
            out.append(TRUE_WORD);
        } else {
            out.append(FALSE_WORD);
        }
        let ghost upto_unlisted = out@;
        match &self.exp {
            Some(e) => {
                out.append(EXP_KEY);
                push_quoted(&mut out, e.as_str());
                proof {
                    assert(out@ =~= upto_unlisted + exp_part(self@.exp));
                }
            },
            None => {
                proof {
                    assert(out@ =~= upto_unlisted + exp_part(self@.exp));
                }
            },
        }
        out.append(CLOSING);
        out
    }
}

} // verus!
