//! Reading a stored record back from its text. Only the text that writing
//! produces is read: every other text is no record.

use vstd::prelude::*;
use crate::grammar::{
    bool_front, exp_front, field_front, leading_front, lemma_parse_complete, lemma_parse_sound,
    parsed_record, quoted_front, starts_with, tail_front, unescaped_front, unquoted_front,
};
use crate::ident::{digit_value, hex_digit_value, is_lower_hex};
use crate::record::{
    record_text, Record, RecordView, AUTHOR_KEY, CLOSING, COMMA, CONTENT_KEY, EXP_KEY, FALSE_WORD,
    OPENING, TITLE_KEY, TRUE_WORD, UNLISTED_KEY,
};
use crate::text::chars_of;

verus! {

/// What reading gives once the text `prefix` has been read from `used`
/// characters and the rest is read as `rest`.
pub open spec fn continued(prefix: Seq<char>, used: int, rest: Option<(Seq<char>, int)>) -> Option<
    (Seq<char>, int),
> {
    match rest {
        Some((text, n)) => Some((prefix + text, used + n)),
        None => None,
    }
}

/// Whether `lit` stands in `s` at `pos`, and where it ends.
fn starts_at(s: &Vec<char>, pos: usize, lit: &str) -> (r: Option<usize>)
    requires
        pos <= s.len(),
    ensures
        match r {
            Some(end) => starts_with(s@.skip(pos as int), lit@) && end == pos + lit@.len() && end
                <= s.len() && s@.skip(pos as int).skip(lit@.len() as int) == s@.skip(end as int),
            None => !starts_with(s@.skip(pos as int), lit@),
        },
{
    let word = chars_of(lit);
    if word.len() > s.len() - pos {
        return None;
    }
    let ghost t = s@.skip(pos as int);
    let mut j: usize = 0;
    while j < word.len()
        invariant
            j <= word.len(),
            word@ == lit@,
            pos + word.len() <= s.len(),
            t == s@.skip(pos as int),
            forall|k: int| 0 <= k < j ==> t[k] == word@[k],
        decreases word.len() - j,
    {
        if s[pos + j] != word[j] {
            proof {
                assert(t[j as int] != lit@[j as int]);
                if starts_with(t, lit@) {
                    assert(t.take(lit@.len() as int)[j as int] == lit@[j as int]);
                }
            }
            return None;
        }
        j = j + 1;
    }
    proof {
        assert(t.take(lit@.len() as int) =~= lit@);
        assert(t.skip(lit@.len() as int) =~= s@.skip(pos + lit@.len()));
    }
    Some(pos + word.len())
}

/// The character that is written at `i`, and where the next one begins.
fn read_escaped(s: &Vec<char>, i: usize) -> (r: Option<(char, usize)>)
    requires
        i < s.len(),
    ensures
        match r {
            Some((c, next)) => unescaped_front(s@.skip(i as int)) == Some((c, next - i)) && i
                < next <= s.len(),
            None => unescaped_front(s@.skip(i as int)) is None,
        },
{
    let ghost t = s@.skip(i as int);
    let c = s[i];
    proof {
        assert(t[0] == c);
    }
    if c == '\\' {
        if s.len() - i < 2 {
            return None;
        }
        let d = s[i + 1];
        proof {
            assert(t[1] == d);
        }
        if d == '"' {
            Some(('"', i + 2))
        } else if d == '\\' {
            Some(('\\', i + 2))
        } else if d == 'b' {
            Some(('\u{8}', i + 2))
        } else if d == 'f' {
            Some(('\u{c}', i + 2))
        } else if d == 'n' {
            Some(('\n', i + 2))
        } else if d == 'r' {
            Some(('\r', i + 2))
        } else if d == 't' {
            Some(('\t', i + 2))
        } else if d == 'u' {
            if s.len() - i < 6 {
                return None;
            }
            proof {
                assert(t[2] == s@[i + 2]);
                assert(t[3] == s@[i + 3]);
                assert(t[4] == s@[i + 4]);
                assert(t[5] == s@[i + 5]);
            }
            let h = s[i + 4];
            let l = s[i + 5];
            if s[i + 2] != '0' || s[i + 3] != '0' || (h != '0' && h != '1') {
                return None;
            }
            if !(('0' <= l && l <= '9') || ('a' <= l && l <= 'f')) {
                return None;
            }
            let hi: u8 = if h == '0' {
                0
            } else {
                1
            };
            let lo: u8 = match digit_value(l) {
                Some(v) => v,
                None => { return None; },
            };
            let code: u8 = hi * 16 + lo;
            proof {
                assert(hex_digit_value(h) == Some(hi as int));
                assert(hex_digit_value(l) == Some(lo as int));
                assert(is_lower_hex(l));
            }
            if code == 8 || code == 9 || code == 10 || code == 12 || code == 13 {
                return None;
            }
            Some((code as char, i + 6))
        } else {
            None
        }
    } else if c == '"' || c <= '\u{1f}' {
        None
    } else {
        Some((c, i + 1))
    }
}

/// The quoted text that begins at `pos`, and where it ends.
fn read_quoted(s: &Vec<char>, pos: usize) -> (r: Option<(String, usize)>)
    requires
        pos <= s.len(),
    ensures
        match r {
            Some((text, end)) => quoted_front(s@.skip(pos as int)) == Some((text@, end - pos))
                && pos < end <= s.len(),
            None => quoted_front(s@.skip(pos as int)) is None,
        },
{
    if pos >= s.len() {
        return None;
    }
    if s[pos] != '"' {
        return None;
    }
    let ghost body = s@.skip(pos as int).skip(1);
    let mut out = String::new();
    let mut i: usize = pos + 1;
    proof {
        assert(body =~= s@.skip(i as int));
        assert(unquoted_front(body) is Some ==> Seq::<char>::empty() + unquoted_front(
            body,
        ).unwrap().0 =~= unquoted_front(body).unwrap().0);
    }
    while i < s.len()
        invariant
            pos < i <= s.len(),
            s@[pos as int] == '"',
            body == s@.skip(pos as int).skip(1),
            unquoted_front(body) == continued(
                out@,
                i - pos - 1,
                unquoted_front(s@.skip(i as int)),
            ),
        decreases s.len() - i,
    {
        let ghost here = s@.skip(i as int);
        proof {
            assert(here[0] == s@[i as int]);
        }
        if s[i] == '"' {
            proof {
                assert(out@ + Seq::<char>::empty() =~= out@);
                assert(s@.skip(pos as int)[0] == s@[pos as int]);
            }
            return Some((out, i + 1));
        }
        match read_escaped(s, i) {
            None => {
                return None;
            },
            Some((c, next)) => {
                proof {
                    assert(here.skip(next - i) =~= s@.skip(next as int));
                    match unquoted_front(s@.skip(next as int)) {
                        Some((rest, n)) => {
                            assert(out@.push(c) + rest =~= out@ + (seq![c] + rest));
                        },
                        None => {},
                    }
                }
                out.push(c);
                i = next;
            },
        }
    }
    None
}

/// The value of the field with the given key that begins at `pos`, and
/// where the field ends.
fn read_field(s: &Vec<char>, pos: usize, key: &str) -> (r: Option<(String, usize)>)
    requires
        pos <= s.len(),
    ensures
        match r {
            Some((value, end)) => field_front(s@.skip(pos as int), key@) == Some(
                (value@, s@.skip(end as int)),
            ) && end <= s.len(),
            None => field_front(s@.skip(pos as int), key@) is None,
        },
{
    let start = match starts_at(s, pos, key) {
        Some(start) => start,
        None => { return None; },
    };
    match read_quoted(s, start) {
        Some((value, end)) => {
            proof {
                assert(s@.skip(start as int).skip(end - start) =~= s@.skip(end as int));
            }
            Some((value, end))
        },
        None => None,
    }
}

/// The field with the given key and its comma, where they stand at `pos`,
/// and where reading goes on.
fn read_leading(s: &Vec<char>, pos: usize, key: &str) -> (r: Option<(Option<String>, usize)>)
    requires
        pos <= s.len(),
    ensures
        match r {
            Some((value, end)) => leading_front(s@.skip(pos as int), key@) == Some(
                (value.deep_view(), s@.skip(end as int)),
            ) && end <= s.len(),
            None => leading_front(s@.skip(pos as int), key@) is None,
        },
{
    if starts_at(s, pos, key).is_none() {
        return Some((None, pos));
    }
    let (value, mid) = match read_field(s, pos, key) {
        Some(found) => found,
        None => { return None; },
    };
    match starts_at(s, mid, COMMA) {
        Some(end) => Some((Some(value), end)),
        None => None,
    }
}

/// The truth value that is written at `pos`, and where it ends.
fn read_bool(s: &Vec<char>, pos: usize) -> (r: Option<(bool, usize)>)
    requires
        pos <= s.len(),
    ensures
        match r {
            Some((value, end)) => bool_front(s@.skip(pos as int)) == Some(
                (value, s@.skip(end as int)),
            ) && end <= s.len(),
            None => bool_front(s@.skip(pos as int)) is None,
        },
{
    match starts_at(s, pos, TRUE_WORD) {
        Some(end) => Some((true, end)),
        None => match starts_at(s, pos, FALSE_WORD) {
            Some(end) => Some((false, end)),
            None => None,
        },
    }
}

/// The expiry, where one is written at `pos`, and where reading goes on.
fn read_exp(s: &Vec<char>, pos: usize) -> (r: Option<(Option<String>, usize)>)
    requires
        pos <= s.len(),
    ensures
        match r {
            Some((value, end)) => exp_front(s@.skip(pos as int)) == Some(
                (value.deep_view(), s@.skip(end as int)),
            ) && end <= s.len(),
            None => exp_front(s@.skip(pos as int)) is None,
        },
{
    if starts_at(s, pos, EXP_KEY).is_none() {
        return Some((None, pos));
    }
    match read_field(s, pos, EXP_KEY) {
        Some((value, end)) => Some((Some(value), end)),
        None => None,
    }
}

/// What is written from `pos` to the end of the text: the author, the
/// privacy and the expiry.
fn read_tail(s: &Vec<char>, pos: usize) -> (r: Option<(Option<String>, bool, Option<String>)>)
    requires
        pos <= s.len(),
    ensures
        match r {
            Some((author, unlisted, exp)) => tail_front(s@.skip(pos as int)) == Some(
                (author.deep_view(), unlisted, exp.deep_view()),
            ),
            None => tail_front(s@.skip(pos as int)) is None,
        },
{
    let (author, at_key) = match read_leading(s, pos, AUTHOR_KEY) {
        Some(found) => found,
        None => { return None; },
    };
    let at_value = match starts_at(s, at_key, UNLISTED_KEY) {
        Some(end) => end,
        None => { return None; },
    };
    let (unlisted, at_exp) = match read_bool(s, at_value) {
        Some(found) => found,
        None => { return None; },
    };
    let (exp, at_end) = match read_exp(s, at_exp) {
        Some(found) => found,
        None => { return None; },
    };
    let closes = match starts_at(s, at_end, CLOSING) {
        Some(end) => end == s.len(),
        None => false,
    };
    proof {
        let rest = s@.skip(at_end as int);
        if closes {
            assert(rest.take(CLOSING@.len() as int) =~= rest);
        } else if rest == CLOSING@ {
            assert(rest.take(CLOSING@.len() as int) =~= rest);
        }
    }
    if closes {
        Some((author, unlisted, exp))
    } else {
        None
    }
}

impl Record {
    /// Reads a record from its text. A text that was not written for any
    /// record is none.
    pub fn from_text(text: &str) -> (r: Option<Record>)
        ensures
            match r {
                Some(record) => record_text(record@) == text@,
                None => forall|v: RecordView| #[trigger] record_text(v) != text@,
            },
    {
        let s = chars_of(text);
        proof {
            assert(s@.skip(0) =~= s@);
        }
        let found = Record::read(&s);
        proof {
            if found is Some {
                lemma_parse_sound(text@);
            } else {
                assert forall|v: RecordView| #[trigger] record_text(v) != text@ by {
                    if record_text(v) == text@ {
                        lemma_parse_complete(v);
                    }
                }
            }
        }
        found
    }

    /// Reads a record from its characters, step by step as the grammar says.
    fn read(s: &Vec<char>) -> (r: Option<Record>)
        ensures
            match r {
                Some(record) => parsed_record(s@) == Some(record@),
                None => parsed_record(s@) is None,
            },
    {
        proof {
            assert(s@.skip(0) =~= s@);
        }
        let at_title = match starts_at(s, 0, OPENING) {
            Some(end) => end,
            None => { return None; },
        };
        let (title, at_content) = match read_leading(s, at_title, TITLE_KEY) {
            Some(found) => found,
            None => { return None; },
        };
        let (content, at_comma) = match read_field(s, at_content, CONTENT_KEY) {
            Some(found) => found,
            None => { return None; },
        };
        let at_tail = match starts_at(s, at_comma, COMMA) {
            Some(end) => end,
            None => { return None; },
        };
        match read_tail(s, at_tail) {
            Some((author, unlisted, exp)) => Some(
                Record { title, content, author, unlisted, exp },
            ),
            None => None,
        }
    }
}

} // verus!
