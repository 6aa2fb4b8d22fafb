//! What holds of the service as a whole, proved from the contracts of its
//! parts.

use vstd::prelude::*;
use crate::errors::{KvError, ResponseError};
use crate::expiry::{expiration_of, rfc2822_text, Timestamp, MAX_SECS, MIN_TTL};
use crate::form::first_value;
use crate::html::{page_text, shown_expiry, shown_title};
use crate::ident::{is_key, is_well_formed, lemma_key_names_itself};
use crate::paste::{
    expiry_read, form_request, form_ttl, form_unlisted, is_no_paste, is_text_of, lookup_key, paste_record, record_read,
    seconds_until, stored_text, PasteRequest, StoredPasteView, CONTENT_FIELD, EXPIRATION_FIELD,
};
use crate::grammar::lemma_parse_complete;
use crate::record::{
    bool_text, quoted, record_text, RecordView, CLOSING, COMMA, CONTENT_KEY, OPENING,
    UNLISTED_KEY,
};
use crate::response::{fetch_response, not_found_response};

verus! {

/// The text that is written for a record is read as that record, whatever
/// else may be read from other texts.
pub proof fn lemma_written_record_is_read(record: RecordView)
    ensures
        record_read(record_text(record)) == Some(record),
{
    lemma_parse_complete(record);
}

/// A paste that is read from the text of a stored paste has that paste's
/// title, content, author and privacy, and for its expiry what the stored
/// date and time is read as.
pub proof fn lemma_read_back(stored: StoredPasteView, read: StoredPasteView)
    requires
        is_text_of(stored_text(stored), read),
    ensures
        read.title == stored.title,
        read.content == stored.content,
        read.author == stored.author,
        read.unlisted == stored.unlisted,
        expiry_read(paste_record(stored).exp) == Some(read.exp),
{
    lemma_written_record_is_read(paste_record(stored));
}

/// Writing a paste that never expires and reading the text back gives the
/// paste that was written, and no other.
pub proof fn lemma_round_trip(paste: StoredPasteView)
    requires
        paste.exp is None,
    ensures
        is_text_of(stored_text(paste), paste),
        forall|read: StoredPasteView| is_text_of(stored_text(paste), read) ==> read == paste,
{
    lemma_written_record_is_read(paste_record(paste));
}

/// Writing a paste and reading the text back gives the paste that was
/// written, and no other, wherever the date and time that was written for
/// its expiry is read as that expiry.
pub proof fn lemma_round_trip_by_expiry(paste: StoredPasteView)
    ensures
        expiry_read(paste_record(paste).exp) == Some(paste.exp) ==> is_text_of(
            stored_text(paste),
            paste,
        ),
        expiry_read(paste_record(paste).exp) == Some(paste.exp) ==> forall|read: StoredPasteView|
            is_text_of(stored_text(paste), read) ==> read == paste,
{
    lemma_written_record_is_read(paste_record(paste));
}

/// The text of a stored paste fails to be read as a paste only where the
/// paste has an expiry and the date and time written for it is read as no
/// instant. A paste that never expires is always read back.
pub proof fn lemma_read_fails_only_on_expiry(paste: StoredPasteView)
    requires
        is_no_paste(stored_text(paste)),
    ensures
        paste.exp is Some,
        expiry_read(paste_record(paste).exp) is None,
{
    lemma_written_record_is_read(paste_record(paste));
}

/// A text holds at most one paste.
pub proof fn lemma_one_paste_in_a_text(
    text: Seq<char>,
    one: StoredPasteView,
    other: StoredPasteView,
)
    requires
        is_text_of(text, one),
        is_text_of(text, other),
    ensures
        one == other,
{
}

/// A creation request that a form makes has content. A form without a
/// content field is refused first, as missing a value; a form with an empty
/// one is refused for it only where its expiration and its privacy are in
/// order, and else for what is wrong with those.
pub proof fn lemma_accepted_request_has_content(
    form: Seq<(Seq<char>, Seq<char>)>,
    allow_never_expire: bool,
)
    ensures
        form_request(form, allow_never_expire) matches Ok(request) ==> request.content.len() > 0,
        first_value(form, CONTENT_FIELD@) is None ==> form_request(form, allow_never_expire)
            == Err::<PasteRequest, ResponseError>(ResponseError::MissingFormValue),
        first_value(form, CONTENT_FIELD@) == Some(Seq::<char>::empty()) ==> form_request(
            form,
            allow_never_expire,
        ) == (match form_ttl(form, allow_never_expire) {
            Err(e) => Err::<PasteRequest, ResponseError>(e),
            Ok(_) => match form_unlisted(form) {
                Err(e) => Err::<PasteRequest, ResponseError>(e),
                Ok(_) => Err::<PasteRequest, ResponseError>(ResponseError::MissingFormValue),
            },
        }),
{
}

/// A field that is absent is left out of the text: a paste without title,
/// author and expiry is written as its content and its privacy alone.
pub proof fn lemma_absent_fields_left_out(paste: StoredPasteView)
    requires
        paste.title is None,
        paste.author is None,
        paste.exp is None,
    ensures
        stored_text(paste) == OPENING@ + CONTENT_KEY@ + quoted(paste.content) + COMMA@
            + UNLISTED_KEY@ + bool_text(paste.unlisted) + CLOSING@,
{
    let empty = Seq::<char>::empty();
    assert(OPENING@ + empty =~= OPENING@);
    let upto_comma = OPENING@ + CONTENT_KEY@ + quoted(paste.content) + COMMA@;
    assert(upto_comma + empty =~= upto_comma);
    let upto_bool = upto_comma + UNLISTED_KEY@ + bool_text(paste.unlisted);
    assert(upto_bool + empty =~= upto_bool);
}

/// What a store that holds `store` hands back when the paste that `id_text`
/// names is fetched: nothing where the text is no identifier, for then the
/// store is not asked, and nothing where it holds nothing under the key.
pub open spec fn fetched_text(store: Map<Seq<char>, Seq<char>>, id_text: Seq<char>) -> Option<
    Seq<char>,
> {
    match lookup_key(id_text) {
        Some(key) => if store.contains_key(key) {
            Some(store[key])
        } else {
            None
        },
        None => None,
    }
}

/// A fetch that follows a creation is handed the text that was written, and
/// the paste that is read from it is shown with the content that was
/// submitted, with status 200. Where the paste never expires, the text is
/// read as the very paste that was stored.
pub proof fn lemma_fetch_after_create(
    store: Map<Seq<char>, Seq<char>>,
    key: Seq<char>,
    request: PasteRequest,
    now: Timestamp,
    read: StoredPasteView,
)
    requires
        is_key(key),
        is_text_of(stored_text(request.stored_at(now)), read),
    ensures
        fetched_text(store.insert(key, stored_text(request.stored_at(now))), key) == Some(
            stored_text(request.stored_at(now)),
        ),
        read.content == request.content,
        fetch_response(Some(read)).status == 200,
        fetch_response(Some(read)).body == page_text(
            shown_title(read),
            request.author,
            request.unlisted,
            shown_expiry(read),
            request.content,
        ),
        request.ttl is None ==> read == request.stored_at(now),
{
    lemma_key_names_itself(key);
    lemma_read_back(request.stored_at(now), read);
    if request.ttl is None {
        lemma_round_trip(request.stored_at(now));
    }
}

/// A fetch of what is no identifier does not ask the store, whatever it
/// holds, and is answered with status 404.
pub proof fn lemma_malformed_is_not_found(store: Map<Seq<char>, Seq<char>>, id_text: Seq<char>)
    requires
        !is_well_formed(id_text),
    ensures
        lookup_key(id_text) is None,
        fetched_text(store, id_text) is None,
        fetch_response(None) == not_found_response(),
        fetch_response(None).status == 404,
{
}

/// A fetch of an identifier under whose key nothing was written is answered
/// with status 404.
pub proof fn lemma_unwritten_is_not_found(store: Map<Seq<char>, Seq<char>>, id_text: Seq<char>)
    requires
        is_well_formed(id_text),
        !store.contains_key(lookup_key(id_text)->0),
    ensures
        lookup_key(id_text) is Some,
        fetched_text(store, id_text) is None,
        fetch_response(None) == not_found_response(),
        fetch_response(None).status == 404,
{
}

/// A paste with a time to live of a minute or more expires that long after
/// its creation, unless the calendar ends before that, and the answer that
/// shows it says so in its `Expires` header. The seconds are added to the
/// creation's; its nanoseconds are kept, counted from the first count of the
/// second where that second is counted twice.
pub proof fn lemma_expiry_is_creation_plus_ttl(request: PasteRequest, now: Timestamp, ttl: u32)
    requires
        now.is_valid(),
        request.ttl == Some(ttl),
        ttl >= MIN_TTL,
        now.secs + ttl <= MAX_SECS,
    ensures
        request.stored_at(now).exp == Some(
            Timestamp {
                secs: (now.secs + ttl) as i64,
                nanos: (now.nanos % 1_000_000_000) as u32,
            },
        ),
        expiration_of(request.ttl, now) == Ok::<Option<Timestamp>, KvError>(
            request.stored_at(now).exp,
        ),
        request.stored_at(now).exp->0.is_after(now),
        seconds_until(request.stored_at(now).exp, now) == Some(ttl),
        fetch_response(Some(request.stored_at(now))).headers[1] == (
            "Expires"@,
            rfc2822_text((now.secs + ttl) as i64, (now.nanos % 1_000_000_000) as u32),
        ),
{
}

/// "Never" is taken as an expiration exactly where the settings allow a
/// paste to be kept for ever; elsewhere it is refused as an invalid
/// expiration.
pub proof fn lemma_never_needs_permission(
    form: Seq<(Seq<char>, Seq<char>)>,
    allow_never_expire: bool,
)
    requires
        first_value(form, EXPIRATION_FIELD@) == Some("Never"@),
    ensures
        form_ttl(form, allow_never_expire) == (if allow_never_expire {
            Ok::<Option<u32>, ResponseError>(None)
        } else {
            Err::<Option<u32>, ResponseError>(ResponseError::InvalidExpiration)
        }),
        form_request(form, allow_never_expire) is Ok ==> allow_never_expire,
        !allow_never_expire && first_value(form, CONTENT_FIELD@) is Some ==> form_request(
            form,
            allow_never_expire,
        ) == Err::<PasteRequest, ResponseError>(ResponseError::InvalidExpiration),
{
    reveal_strlit("Never");
    reveal_strlit("1 hour");
    reveal_strlit("24 hours");
    assert("Never"@.len() == 5);
    assert("1 hour"@.len() == 6);
    assert("24 hours"@.len() == 8);
}

} // verus!
