//! How the text of a stored record is taken apart, and why taking apart
//! what was written gives back what was written, and nothing else does.

use vstd::prelude::*;
use crate::ident::{hex_digit_value, is_lower_hex, lemma_digit_is_lower_hex, lower_hex_digit};
use crate::record::{
    author_part, bool_text, escaped, escaped_text, exp_part, quoted, record_text, title_part,
    RecordView, AUTHOR_KEY, CLOSING, COMMA, CONTENT_KEY, EXP_KEY, FALSE_WORD, OPENING, TITLE_KEY,
    TRUE_WORD, UNLISTED_KEY,
};

verus! {

/// Whether `t` begins with `lit`.
pub open spec fn starts_with(t: Seq<char>, lit: Seq<char>) -> bool {
    lit.len() <= t.len() && t.take(lit.len() as int) == lit
}

/// Whether a control character is written with a short name.
pub open spec fn has_short_name(code: int) -> bool {
    code == 8 || code == 9 || code == 10 || code == 12 || code == 13
}

/// The character that the front of `t` stands for inside a quoted text, and
/// how many characters of `t` are used for it.
pub open spec fn unescaped_front(t: Seq<char>) -> Option<(char, int)> {
    if t.len() == 0 {
        None
    } else if t[0] == '\\' {
        if t.len() < 2 {
            None
        } else if t[1] == '"' {
            Some(('"', 2))
        } else if t[1] == '\\' {
            Some(('\\', 2))
        } else if t[1] == 'b' {
            Some(('\u{8}', 2))
        } else if t[1] == 'f' {
            Some(('\u{c}', 2))
        } else if t[1] == 'n' {
            Some(('\n', 2))
        } else if t[1] == 'r' {
            Some(('\r', 2))
        } else if t[1] == 't' {
            Some(('\t', 2))
        } else if t[1] == 'u' {
            if t.len() >= 6 && t[2] == '0' && t[3] == '0' && (t[4] == '0' || t[4] == '1')
                && is_lower_hex(t[5]) {
                let code = hex_digit_value(t[4])->0 * 16 + hex_digit_value(t[5])->0;
                if has_short_name(code) {
                    None
                } else {
                    Some((code as char, 6))
                }
            } else {
                None
            }
        } else {
            None
        }
    } else if t[0] == '"' || (t[0] as int) < 32 {
        None
    } else {
        Some((t[0], 1))
    }
}

/// The text that the front of `t` stands for, up to the quote that closes it,
/// and how many characters of `t` are used for it, the quote included.
pub open spec fn unquoted_front(t: Seq<char>) -> Option<(Seq<char>, int)>
    decreases t.len(),
{
    if t.len() == 0 {
        None
    } else if t[0] == '"' {
        Some((Seq::empty(), 1))
    } else {
        match unescaped_front(t) {
            Some((c, k)) => if 0 < k <= t.len() {
                match unquoted_front(t.skip(k)) {
                    Some((rest, n)) => Some((seq![c] + rest, k + n)),
                    None => None,
                }
            } else {
                None
            },
            None => None,
        }
    }
}

/// The text that the quoted text at the front of `t` stands for, and how
/// many characters of `t` it takes, both quotes included.
pub open spec fn quoted_front(t: Seq<char>) -> Option<(Seq<char>, int)> {
    if t.len() > 0 && t[0] == '"' {
        match unquoted_front(t.skip(1)) {
            Some((text, n)) => Some((text, n + 1)),
            None => None,
        }
    } else {
        None
    }
}

/// What is read for one character is what is written for it.
pub proof fn lemma_unescaped_sound(t: Seq<char>)
    requires
        unescaped_front(t) is Some,
    ensures
        0 < unescaped_front(t).unwrap().1 <= t.len(),
        t.take(unescaped_front(t).unwrap().1) == escaped(unescaped_front(t).unwrap().0),
{
    let (c, k) = unescaped_front(t)->0;
    if t[0] == '\\' && t[1] == 'u' {
        let hi = hex_digit_value(t[4])->0;
        let lo = hex_digit_value(t[5])->0;
        let code = hi * 16 + lo;
        assert(0 <= hi <= 1);
        assert(0 <= lo < 16);
        assert(c as int == code);
        assert(code / 16 == hi && code % 16 == lo);
        assert(lower_hex_digit(hi) == t[4]);
        assert(lower_hex_digit(lo) == t[5]);
        assert(t.take(6) =~= escaped(c));
    } else {
        assert(t.take(k) =~= escaped(c));
    }
}

/// What is written for one character is read as that character.
pub proof fn lemma_unescaped_complete(c: char, rest: Seq<char>)
    ensures
        unescaped_front(escaped(c) + rest) == Some((c, escaped(c).len() as int)),
{
    let t = escaped(c) + rest;
    if c == '"' || c == '\\' || c == '\u{8}' || c == '\u{c}' || c == '\n' || c == '\r' || c
        == '\t' {
        assert(t[0] == '\\');
        assert(t[1] == escaped(c)[1]);
    } else if (c as int) < 32 {
        let code = c as int;
        lemma_digit_is_lower_hex(code / 16);
        lemma_digit_is_lower_hex(code % 16);
        assert(t[0] == '\\' && t[1] == 'u' && t[2] == '0' && t[3] == '0');
        assert(t[4] == lower_hex_digit(code / 16));
        assert(t[5] == lower_hex_digit(code % 16));
        assert(t[4] == '0' || t[4] == '1');
        assert(hex_digit_value(t[4])->0 * 16 + hex_digit_value(t[5])->0 == code);
        assert(!has_short_name(code));
        assert(code as char == c);
    } else {
        assert(t[0] == c);
    }
}

/// What is read up to the closing quote is what is written for it.
pub proof fn lemma_unquoted_sound(t: Seq<char>)
    requires
        unquoted_front(t) is Some,
    ensures
        0 < unquoted_front(t).unwrap().1 <= t.len(),
        t.take(unquoted_front(t).unwrap().1) == escaped_text(unquoted_front(t).unwrap().0)
            + seq!['"'],
    decreases t.len(),
{
    let (text, n) = unquoted_front(t)->0;
    if t[0] == '"' {
        assert(escaped_text(text) =~= Seq::<char>::empty());
        assert(t.take(1) =~= escaped_text(text) + seq!['"']);
    } else {
        let (c, k) = unescaped_front(t)->0;
        lemma_unescaped_sound(t);
        let (rest, m) = unquoted_front(t.skip(k))->0;
        lemma_unquoted_sound(t.skip(k));
        assert(text == seq![c] + rest);
        assert(text.drop_first() =~= rest);
        assert(text[0] == c);
        assert(t.take(k + m) =~= t.take(k) + t.skip(k).take(m));
        assert(t.take(n) =~= escaped_text(text) + seq!['"']);
    }
}

/// What is written for a text and closed with a quote is read as that text.
pub proof fn lemma_unquoted_complete(text: Seq<char>, rest: Seq<char>)
    ensures
        unquoted_front(escaped_text(text) + seq!['"'] + rest) == Some(
            (text, escaped_text(text).len() as int + 1),
        ),
    decreases text.len(),
{
    let t = escaped_text(text) + seq!['"'] + rest;
    if text.len() == 0 {
        assert(t[0] == '"');
        assert(unquoted_front(t).unwrap().0 =~= text);
    } else {
        let c = text[0];
        let tail = text.drop_first();
        let after = escaped_text(tail) + seq!['"'] + rest;
        assert(t =~= escaped(c) + after);
        lemma_unescaped_complete(c, after);
        let k = escaped(c).len() as int;
        assert(t[0] == escaped(c)[0]);
        assert(t[0] != '"');
        assert(t.skip(k) =~= after);
        lemma_unquoted_complete(tail, rest);
        assert(seq![c] + tail =~= text);
    }
}

/// A quoted text at the front of `t` is read as the text it was written for.
pub proof fn lemma_quoted_complete(text: Seq<char>, rest: Seq<char>)
    ensures
        quoted_front(quoted(text) + rest) == Some((text, quoted(text).len() as int)),
        (quoted(text) + rest).skip(quoted(text).len() as int) == rest,
{
    let t = quoted(text) + rest;
    assert(t[0] == '"');
    assert(t.skip(1) =~= escaped_text(text) + seq!['"'] + rest);
    lemma_unquoted_complete(text, rest);
    assert(t.skip(quoted(text).len() as int) =~= rest);
}

/// What is read as a quoted text is what is written for it.
pub proof fn lemma_quoted_sound(t: Seq<char>)
    requires
        quoted_front(t) is Some,
    ensures
        0 < quoted_front(t).unwrap().1 <= t.len(),
        t == quoted(quoted_front(t).unwrap().0) + t.skip(quoted_front(t).unwrap().1),
        quoted(quoted_front(t).unwrap().0).len() == quoted_front(t).unwrap().1,
{
    let (text, n) = quoted_front(t)->0;
    lemma_unquoted_sound(t.skip(1));
    assert(t.skip(1).take(n - 1) == escaped_text(text) + seq!['"']);
    assert(t.take(n) =~= seq!['"'] + t.skip(1).take(n - 1));
    assert(t.take(n) =~= quoted(text));
    assert(t =~= t.take(n) + t.skip(n));
}

/// What is left of `t` after `lit` at its front.
pub open spec fn after(t: Seq<char>, lit: Seq<char>) -> Option<Seq<char>> {
    if starts_with(t, lit) {
        Some(t.skip(lit.len() as int))
    } else {
        None
    }
}

/// The value of the field that `t` begins with, if it begins with `key` and
/// a quoted text, and what is left of `t` after the field.
pub open spec fn field_front(t: Seq<char>, key: Seq<char>) -> Option<(Seq<char>, Seq<char>)> {
    match after(t, key) {
        Some(rest) => match quoted_front(rest) {
            Some((value, n)) => Some((value, rest.skip(n))),
            None => None,
        },
        None => None,
    }
}

/// A field that may be absent and is followed by a comma where it is there:
/// its value, and what is left of `t` after it.
pub open spec fn leading_front(t: Seq<char>, key: Seq<char>) -> Option<
    (Option<Seq<char>>, Seq<char>),
> {
    if starts_with(t, key) {
        match field_front(t, key) {
            Some((value, rest)) => match after(rest, COMMA@) {
                Some(left) => Some((Some(value), left)),
                None => None,
            },
            None => None,
        }
    } else {
        Some((None, t))
    }
}

/// The truth value that `t` begins with, and what is left of `t` after it.
pub open spec fn bool_front(t: Seq<char>) -> Option<(bool, Seq<char>)> {
    if starts_with(t, TRUE_WORD@) {
        Some((true, t.skip(TRUE_WORD@.len() as int)))
    } else if starts_with(t, FALSE_WORD@) {
        Some((false, t.skip(FALSE_WORD@.len() as int)))
    } else {
        None
    }
}

/// The expiry at the end of a record, which may be absent: its value, and
/// what is left of `t` after it.
pub open spec fn exp_front(t: Seq<char>) -> Option<(Option<Seq<char>>, Seq<char>)> {
    if starts_with(t, EXP_KEY@) {
        match field_front(t, EXP_KEY@) {
            Some((value, rest)) => Some((Some(value), rest)),
            None => None,
        }
    } else {
        Some((None, t))
    }
}

/// What is read after the content's comma: the author, the privacy and the
/// expiry, up to the end of the text.
pub open spec fn tail_front(t: Seq<char>) -> Option<(Option<Seq<char>>, bool, Option<Seq<char>>)> {
    match leading_front(t, AUTHOR_KEY@) {
        None => None,
        Some((author, t1)) => match after(t1, UNLISTED_KEY@) {
            None => None,
            Some(t2) => match bool_front(t2) {
                None => None,
                Some((unlisted, t3)) => match exp_front(t3) {
                    None => None,
                    Some((exp, t4)) => if t4 == CLOSING@ {
                        Some((author, unlisted, exp))
                    } else {
                        None
                    },
                },
            },
        },
    }
}

/// The record that is read from a text.
pub open spec fn parsed_record(t: Seq<char>) -> Option<RecordView> {
    match after(t, OPENING@) {
        None => None,
        Some(t1) => match leading_front(t1, TITLE_KEY@) {
            None => None,
            Some((title, t2)) => match field_front(t2, CONTENT_KEY@) {
                None => None,
                Some((content, t3)) => match after(t3, COMMA@) {
                    None => None,
                    Some(t4) => match tail_front(t4) {
                        None => None,
                        Some((author, unlisted, exp)) => Some(
                            RecordView { title, content, author, unlisted, exp },
                        ),
                    },
                },
            },
        },
    }
}

/// What follows a text at the front is what is left after it.
proof fn lemma_after_complete(lit: Seq<char>, rest: Seq<char>)
    ensures
        starts_with(lit + rest, lit),
        after(lit + rest, lit) == Some(rest),
{
    assert((lit + rest).take(lit.len() as int) =~= lit);
    assert((lit + rest).skip(lit.len() as int) =~= rest);
}

/// A text is what was taken from its front, then what was left.
proof fn lemma_after_sound(t: Seq<char>, lit: Seq<char>)
    requires
        after(t, lit) is Some,
    ensures
        t == lit + after(t, lit).unwrap(),
{
    assert(t =~= t.take(lit.len() as int) + t.skip(lit.len() as int));
}

/// A field that was written is read as its value, and what followed it is
/// left.
proof fn lemma_field_complete(key: Seq<char>, value: Seq<char>, rest: Seq<char>)
    ensures
        starts_with(key + quoted(value) + rest, key),
        field_front(key + quoted(value) + rest, key) == Some((value, rest)),
{
    let t = key + quoted(value) + rest;
    assert(t =~= key + (quoted(value) + rest));
    lemma_after_complete(key, quoted(value) + rest);
    lemma_quoted_complete(value, rest);
}

/// A text from which a field was read is that field as it is written, then
/// what was left.
proof fn lemma_field_sound(t: Seq<char>, key: Seq<char>)
    requires
        field_front(t, key) is Some,
    ensures
        t == key + quoted(field_front(t, key).unwrap().0) + field_front(t, key).unwrap().1,
{
    lemma_after_sound(t, key);
    let rest = after(t, key).unwrap();
    lemma_quoted_sound(rest);
    let (value, left) = field_front(t, key).unwrap();
    assert(t =~= key + quoted(value) + left);
}

/// A field that was written with its comma is read as present.
proof fn lemma_leading_complete(key: Seq<char>, value: Seq<char>, rest: Seq<char>)
    ensures
        leading_front(key + quoted(value) + COMMA@ + rest, key) == Some((Some(value), rest)),
{
    let t = key + quoted(value) + COMMA@ + rest;
    assert(t =~= key + quoted(value) + (COMMA@ + rest));
    lemma_field_complete(key, value, COMMA@ + rest);
    lemma_after_complete(COMMA@, rest);
}

/// A text from which a leading field was read is that field as it is
/// written, then what was left; or, where the field is absent, what was left.
proof fn lemma_leading_sound(t: Seq<char>, key: Seq<char>)
    requires
        leading_front(t, key) is Some,
    ensures
        ({
            let (value, rest) = leading_front(t, key).unwrap();
            match value {
                Some(v) => t == key + quoted(v) + COMMA@ + rest,
                None => t == rest,
            }
        }),
{
    if starts_with(t, key) {
        lemma_field_sound(t, key);
        let (v, mid) = field_front(t, key).unwrap();
        lemma_after_sound(mid, COMMA@);
        let rest = after(mid, COMMA@).unwrap();
        assert(t =~= key + quoted(v) + COMMA@ + rest);
    }
}

/// Where two texts differ at a place that both have, neither begins with the
/// other.
proof fn lemma_differs(t: Seq<char>, lit: Seq<char>, i: int)
    requires
        0 <= i < lit.len(),
        i < t.len(),
        t[i] != lit[i],
    ensures
        !starts_with(t, lit),
{
    if starts_with(t, lit) {
        assert(t.take(lit.len() as int)[i] == lit[i]);
    }
}

/// What is written after the content's comma.
pub open spec fn tail_text(author: Option<Seq<char>>, unlisted: bool, exp: Option<Seq<char>>) -> Seq<
    char,
> {
    author_part(author) + UNLISTED_KEY@ + bool_text(unlisted) + exp_part(exp) + CLOSING@
}

/// The end of a record, as it is written, is read as what it was written
/// for.
proof fn lemma_tail_complete(author: Option<Seq<char>>, unlisted: bool, exp: Option<Seq<char>>)
    ensures
        tail_front(tail_text(author, unlisted, exp)) == Some((author, unlisted, exp)),
{
    reveal_strlit("\"author\":");
    reveal_strlit("\"unlisted\":");
    reveal_strlit(",\"exp\":");
    reveal_strlit("true");
    reveal_strlit("false");
    reveal_strlit("}");
    let r4 = CLOSING@;
    let r3 = exp_part(exp) + r4;
    let r2 = bool_text(unlisted) + r3;
    let r1 = UNLISTED_KEY@ + r2;
    let t = tail_text(author, unlisted, exp);
    assert(t =~= author_part(author) + r1);
    match author {
        Some(a) => {
            assert(t =~= AUTHOR_KEY@ + quoted(a) + COMMA@ + r1);
            lemma_leading_complete(AUTHOR_KEY@, a, r1);
        },
        None => {
            assert(t =~= r1);
            assert(r1[1] == 'u');
            lemma_differs(r1, AUTHOR_KEY@, 1);
        },
    }
    assert(leading_front(t, AUTHOR_KEY@) == Some((author, r1)));
    lemma_after_complete(UNLISTED_KEY@, r2);
    if unlisted {
        lemma_after_complete(TRUE_WORD@, r3);
    } else {
        assert(r2[0] == 'f');
        lemma_differs(r2, TRUE_WORD@, 0);
        lemma_after_complete(FALSE_WORD@, r3);
    }
    assert(bool_front(r2) == Some((unlisted, r3)));
    match exp {
        Some(e) => {
            assert(r3 =~= EXP_KEY@ + quoted(e) + r4);
            lemma_field_complete(EXP_KEY@, e, r4);
        },
        None => {
            assert(r3 =~= r4);
            assert(r4[0] == '}');
            lemma_differs(r4, EXP_KEY@, 0);
        },
    }
    assert(exp_front(r3) == Some((exp, r4)));
}

/// Joining texts does not depend on which two are joined first.
proof fn lemma_join3(a: Seq<char>, b: Seq<char>, c: Seq<char>)
    ensures
        a + (b + c) == a + b + c,
{
    assert(a + (b + c) =~= a + b + c);
}

/// The end of a record with its pieces joined from the right.
proof fn lemma_tail_nested(author: Option<Seq<char>>, unlisted: bool, exp: Option<Seq<char>>)
    ensures
        tail_text(author, unlisted, exp) == author_part(author) + (UNLISTED_KEY@ + (bool_text(
            unlisted,
        ) + (exp_part(exp) + CLOSING@))),
{
    let a = author_part(author);
    let k = UNLISTED_KEY@;
    let b = bool_text(unlisted);
    let e = exp_part(exp);
    let c = CLOSING@;
    lemma_join3(a + k + b, e, c);
    lemma_join3(a + k, b, e + c);
    lemma_join3(a, k, b + (e + c));
}

/// The text of a record with its pieces joined from the right, which is
/// the order in which reading takes them off.
proof fn lemma_record_nested(v: RecordView)
    ensures
        record_text(v) == OPENING@ + (title_part(v.title) + (CONTENT_KEY@ + quoted(v.content) + (
        COMMA@ + tail_text(v.author, v.unlisted, v.exp)))),
{
    let head = OPENING@ + title_part(v.title) + CONTENT_KEY@ + quoted(v.content) + COMMA@;
    let a = author_part(v.author);
    let k = UNLISTED_KEY@;
    let b = bool_text(v.unlisted);
    let e = exp_part(v.exp);
    let c = CLOSING@;
    let tail = tail_text(v.author, v.unlisted, v.exp);
    // The pieces after the comma are gathered into the tail.
    lemma_join3(head, a, k);
    lemma_join3(head, a + k, b);
    lemma_join3(head, a + k + b, e);
    lemma_join3(head, a + k + b + e, c);
    assert(record_text(v) == head + tail);
    // The pieces before it are nested to the right.
    let field = CONTENT_KEY@ + quoted(v.content);
    lemma_join3(OPENING@ + title_part(v.title), CONTENT_KEY@, quoted(v.content));
    lemma_join3(OPENING@ + title_part(v.title) + field, COMMA@, tail);
    lemma_join3(OPENING@ + title_part(v.title), field, COMMA@ + tail);
    lemma_join3(OPENING@, title_part(v.title), field + (COMMA@ + tail));
}

/// A text that is read as the end of a record is what is written for it.
proof fn lemma_tail_sound(t: Seq<char>)
    requires
        tail_front(t) is Some,
    ensures
        ({
            let (author, unlisted, exp) = tail_front(t).unwrap();
            t == tail_text(author, unlisted, exp)
        }),
{
    let (author, unlisted, exp) = tail_front(t).unwrap();
    let t1 = leading_front(t, AUTHOR_KEY@).unwrap().1;
    assert(t == author_part(author) + t1) by {
        lemma_leading_sound(t, AUTHOR_KEY@);
        match author {
            Some(a) => {
                lemma_join3(AUTHOR_KEY@ + quoted(a), COMMA@, t1);
            },
            None => {
                assert(Seq::<char>::empty() + t1 =~= t1);
            },
        }
    }
    let t2 = after(t1, UNLISTED_KEY@).unwrap();
    assert(t1 == UNLISTED_KEY@ + t2) by {
        lemma_after_sound(t1, UNLISTED_KEY@);
    }
    let t3 = bool_front(t2).unwrap().1;
    assert(t2 == bool_text(unlisted) + t3) by {
        if starts_with(t2, TRUE_WORD@) {
            lemma_after_sound(t2, TRUE_WORD@);
        } else {
            lemma_after_sound(t2, FALSE_WORD@);
        }
    }
    let t4 = exp_front(t3).unwrap().1;
    assert(t3 == exp_part(exp) + t4) by {
        if starts_with(t3, EXP_KEY@) {
            lemma_field_sound(t3, EXP_KEY@);
        } else {
            assert(Seq::<char>::empty() + t4 =~= t4);
        }
    }
    assert(t4 == CLOSING@);
    lemma_tail_nested(author, unlisted, exp);
}

/// What is written for a record is read as that record.
pub proof fn lemma_parse_complete(v: RecordView)
    ensures
        parsed_record(record_text(v)) == Some(v),
{
    let r4 = tail_text(v.author, v.unlisted, v.exp);
    let r3 = COMMA@ + r4;
    let r2 = CONTENT_KEY@ + quoted(v.content) + r3;
    let r1 = title_part(v.title) + r2;
    let t = record_text(v);
    assert(t == OPENING@ + r1) by {
        lemma_record_nested(v);
    }
    assert(after(t, OPENING@) == Some(r1)) by {
        lemma_after_complete(OPENING@, r1);
    }
    assert(leading_front(r1, TITLE_KEY@) == Some((v.title, r2))) by {
        match v.title {
            Some(x) => {
                lemma_join3(TITLE_KEY@ + quoted(x), COMMA@, r2);
                lemma_leading_complete(TITLE_KEY@, x, r2);
            },
            None => {
                reveal_strlit("\"title\":");
                reveal_strlit("\"content\":");
                assert(r1 =~= r2);
                assert(r2[1] == 'c');
                lemma_differs(r2, TITLE_KEY@, 1);
            },
        }
    }
    assert(field_front(r2, CONTENT_KEY@) == Some((v.content, r3))) by {
        lemma_field_complete(CONTENT_KEY@, v.content, r3);
    }
    assert(after(r3, COMMA@) == Some(r4)) by {
        lemma_after_complete(COMMA@, r4);
    }
    assert(tail_front(r4) == Some((v.author, v.unlisted, v.exp))) by {
        lemma_tail_complete(v.author, v.unlisted, v.exp);
    }
}

/// What is read as a record is what is written for it.
pub proof fn lemma_parse_sound(t: Seq<char>)
    requires
        parsed_record(t) is Some,
    ensures
        record_text(parsed_record(t).unwrap()) == t,
{
    let v = parsed_record(t).unwrap();
    let t1 = after(t, OPENING@).unwrap();
    assert(t == OPENING@ + t1) by {
        lemma_after_sound(t, OPENING@);
    }
    let t2 = leading_front(t1, TITLE_KEY@).unwrap().1;
    assert(t1 == title_part(v.title) + t2) by {
        lemma_leading_sound(t1, TITLE_KEY@);
        match v.title {
            Some(x) => {
                lemma_join3(TITLE_KEY@ + quoted(x), COMMA@, t2);
            },
            None => {
                assert(Seq::<char>::empty() + t2 =~= t2);
            },
        }
    }
    let t3 = field_front(t2, CONTENT_KEY@).unwrap().1;
    assert(t2 == CONTENT_KEY@ + quoted(v.content) + t3) by {
        lemma_field_sound(t2, CONTENT_KEY@);
    }
    let t4 = after(t3, COMMA@).unwrap();
    assert(t3 == COMMA@ + t4) by {
        lemma_after_sound(t3, COMMA@);
    }
    assert(t4 == tail_text(v.author, v.unlisted, v.exp)) by {
        lemma_tail_sound(t4);
    }
    lemma_record_nested(v);
}

/// Two records with the same text are the same record.
pub proof fn lemma_record_text_injective(a: RecordView, b: RecordView)
    requires
        record_text(a) == record_text(b),
    ensures
        a == b,
{
    lemma_parse_complete(a);
    lemma_parse_complete(b);
}

} // verus!
