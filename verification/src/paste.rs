//! The paste as it is asked for and as it is stored.

use vstd::prelude::*;
use crate::errors::{KvError, ResponseError};
use crate::expiry::{rfc3339_text, Timestamp, MIN_TTL};
use crate::form::{first_value, Form};
use crate::ident::{hex_text, PasteId};
use crate::grammar::{lemma_parse_complete, lemma_parse_sound, parsed_record};
use crate::members::{json_members, record_of_members};
use crate::record::{record_text, Record, RecordView};
use crate::text::same_text;

verus! {

/// The form field that holds the title.
pub const TITLE_FIELD: &'static str = "paste-title";

/// The form field that holds the author.
pub const AUTHOR_FIELD: &'static str = "paste-author";

/// The form field that holds the content.
pub const CONTENT_FIELD: &'static str = "paste-content";

/// The form field that holds the expiration.
pub const EXPIRATION_FIELD: &'static str = "expiration";

/// The form field that holds the privacy.
pub const PRIVACY_FIELD: &'static str = "privacy";

/// What begins the path under which a paste is read.
pub const PASTE_PATH: &'static str = "/paste/";

/// The title shown for a paste that has none.
pub const UNTITLED: &'static str = "Untitled paste";

/// A paste as the store holds it.
#[derive(Clone, Debug, PartialEq, Eq)]
pub struct StoredPaste {
    pub title: Option<String>,
    pub content: String,
    pub author: Option<String>,
    pub unlisted: bool,
    pub exp: Option<Timestamp>,
}

/// What a stored paste says.
pub struct StoredPasteView {
    pub title: Option<Seq<char>>,
    pub content: Seq<char>,
    pub author: Option<Seq<char>>,
    pub unlisted: bool,
    pub exp: Option<Timestamp>,
}

impl View for StoredPaste {
    type V = StoredPasteView;

    open spec fn view(&self) -> StoredPasteView {
        StoredPasteView {
            title: self.title.deep_view(),
            content: self.content@,
            author: self.author.deep_view(),
            unlisted: self.unlisted,
            exp: self.exp,
        }
    }
}

/// A paste that is asked for and not yet stored.
#[derive(Clone, Debug, PartialEq, Eq)]
pub struct NewPaste {
    pub id: PasteId,
    pub title: Option<String>,
    pub content: String,
    pub author: Option<String>,
    pub unlisted: bool,
    pub ttl: Option<u32>,
}

/// What a creation request says, apart from the identifier it was given.
pub struct PasteRequest {
    pub title: Option<Seq<char>>,
    pub content: Seq<char>,
    pub author: Option<Seq<char>>,
    pub unlisted: bool,
    pub ttl: Option<u32>,
}

impl PasteRequest {
    /// The paste that is stored for this request when it is created at
    /// `now`: it expires after the time to live, or never where there is
    /// none or where the calendar ends before that.
    pub open spec fn stored_at(&self, now: Timestamp) -> StoredPasteView {
        StoredPasteView {
            title: self.title,
            content: self.content,
            author: self.author,
            unlisted: self.unlisted,
            exp: match self.ttl {
                Some(ttl) => now.plus_seconds(ttl),
                None => None,
            },
        }
    }
}

/// The time to live that a form asks for.
pub open spec fn form_ttl(form: Seq<(Seq<char>, Seq<char>)>, allow_never_expire: bool) -> Result<
    Option<u32>,
    ResponseError,
> {
    match first_value(form, EXPIRATION_FIELD@) {
        None => Err(ResponseError::MissingFormValue),
        Some(choice) => if choice == "1 hour"@ {
            Ok(Some(3600u32))
        } else if choice == "24 hours"@ {
            Ok(Some(86400u32))
        } else if choice == "Never"@ && allow_never_expire {
            Ok(None)
        } else {
            Err(ResponseError::InvalidExpiration)
        },
    }
}

/// Whether a form asks for an unlisted paste.
pub open spec fn form_unlisted(form: Seq<(Seq<char>, Seq<char>)>) -> Result<bool, ResponseError> {
    match first_value(form, PRIVACY_FIELD@) {
        None => Err(ResponseError::MissingFormValue),
        Some(choice) => if choice == "Public"@ {
            Ok(false)
        } else if choice == "Unlisted"@ {
            Ok(true)
        } else {
            Err(ResponseError::InvalidExpiration)
        },
    }
}

/// The title that a form gives: an empty one counts as none.
pub open spec fn form_title(form: Seq<(Seq<char>, Seq<char>)>) -> Option<Seq<char>> {
    match first_value(form, TITLE_FIELD@) {
        Some(title) => if title.len() == 0 {
            None
        } else {
            Some(title)
        },
        None => None,
    }
}

/// The creation request that a form makes, or the reason why it makes none.
/// A form without a content field is missing a value. Then the expiration is
/// judged, then the privacy. A paste has content: a form that is in order in
/// all of this and whose content is empty is refused last, as missing a
/// value.
pub open spec fn form_request(form: Seq<(Seq<char>, Seq<char>)>, allow_never_expire: bool) -> Result<
    PasteRequest,
    ResponseError,
> {
    match first_value(form, CONTENT_FIELD@) {
        None => Err(ResponseError::MissingFormValue),
        Some(content) => match form_ttl(form, allow_never_expire) {
            Err(e) => Err(e),
            Ok(ttl) => match form_unlisted(form) {
                Err(e) => Err(e),
                Ok(unlisted) => if content.len() == 0 {
                    Err(ResponseError::MissingFormValue)
                } else {
                    Ok(
                        PasteRequest {
                            title: form_title(form),
                            content,
                            author: first_value(form, AUTHOR_FIELD@),
                            unlisted,
                            ttl,
                        },
                    )
                },
            },
        },
    }
}

/// The record that holds a paste whose expiry is written as `exp`.
pub open spec fn record_with(paste: StoredPasteView, exp: Option<Seq<char>>) -> RecordView {
    RecordView {
        title: paste.title,
        content: paste.content,
        author: paste.author,
        unlisted: paste.unlisted,
        exp,
    }
}

/// The expiry that a record's text for it stands for: `None` where the text
/// is no date and time.
pub open spec fn expiry_read(exp: Option<Seq<char>>) -> Option<Option<Timestamp>> {
    match exp {
        None => Some(None),
        Some(text) => match Timestamp::parsed(text) {
            Some(t) => Some(Some(t)),
            None => None,
        },
    }
}

/// The record that holds a paste, its expiry written as a date and time.
pub open spec fn paste_record(paste: StoredPasteView) -> RecordView {
    record_with(
        paste,
        match paste.exp {
            Some(exp) => Some(rfc3339_text(exp.secs, exp.nanos)),
            None => None,
        },
    )
}

/// The text under which a paste is stored.
pub open spec fn stored_text(paste: StoredPasteView) -> Seq<char> {
    record_text(paste_record(paste))
}

/// The record that a text holds. Where the text is the text of a record, it
/// is that record. Any other text holds the record that its members make,
/// where it is a JSON object whose members make one.
pub open spec fn record_read(text: Seq<char>) -> Option<RecordView> {
    match parsed_record(text) {
        Some(record) => Some(record),
        None => match json_members(text) {
            Some(members) => record_of_members(members),
            None => None,
        },
    }
}

/// The paste that a record holds: none where its expiry is no date and
/// time.
pub open spec fn paste_of_record(record: RecordView) -> Option<StoredPasteView> {
    match expiry_read(record.exp) {
        Some(exp) => Some(
            StoredPasteView {
                title: record.title,
                content: record.content,
                author: record.author,
                unlisted: record.unlisted,
                exp,
            },
        ),
        None => None,
    }
}

/// The paste that a text holds, if it holds one.
pub open spec fn paste_read(text: Seq<char>) -> Option<StoredPasteView> {
    match record_read(text) {
        Some(record) => paste_of_record(record),
        None => None,
    }
}

/// Whether `text` holds `paste`.
pub open spec fn is_text_of(text: Seq<char>, paste: StoredPasteView) -> bool {
    paste_read(text) == Some(paste)
}

/// Whether `text` holds no paste at all.
pub open spec fn is_no_paste(text: Seq<char>) -> bool {
    paste_read(text) is None
}

/// The seconds from `now` to an expiry, which is how long the store is told
/// to keep the entry: `None` where the paste never expires.
pub open spec fn seconds_until(exp: Option<Timestamp>, now: Timestamp) -> Option<u32> {
    match exp {
        Some(exp) => Some((exp.secs - now.secs) as u32),
        None => None,
    }
}

/// The key under which the store is asked for the paste that `id_text`
/// names: the identifier's text in lowercase. A text that is no identifier
/// names no paste, and there is no key to ask under.
pub open spec fn lookup_key(id_text: Seq<char>) -> Option<Seq<char>> {
    match PasteId::parse_spec(id_text) {
        Some(bytes) => Some(hex_text(bytes)),
        None => None,
    }
}

/// What the store is asked to do when a paste is created.
#[derive(Clone, Debug, PartialEq, Eq)]
pub struct StoreWrite {
    /// The key to write under.
    pub key: String,
    /// The text to write.
    pub value: String,
    /// The seconds after which the store is to drop the entry, if it is to.
    pub ttl: Option<u32>,
    /// The path under which the paste is then read.
    pub path: String,
}

impl StoredPaste {
    /// Whether the expiry, where there is one, is an instant of the
    /// calendar.
    pub open spec fn is_well_formed(&self) -> bool {
        self.exp matches Some(exp) ==> exp.is_valid()
    }

    /// The text under which this paste is stored.
    pub fn encode(&self) -> (text: String)
        requires
            self.is_well_formed(),
        ensures
            text@ == stored_text(self@),
    {
        let exp = match self.exp {
            Some(exp) => Some(exp.to_rfc3339()),
            None => None,
        };
        let record = Record {
            title: self.title.clone(),
            content: self.content.clone(),
            author: self.author.clone(),
            unlisted: self.unlisted,
            exp,
        };
        record.to_text()
    }

    /// Reads a paste from the text under which it is stored. The text that
    /// `encode` writes is read as what it was written for. Any other text is
    /// read as a JSON object: its fields may stand in any order, with space
    /// between them and among members that are no field, and a field that is
    /// absent may be `null`. A text that holds no record, or a record whose
    /// expiry is no instant, is corrupt.
    pub fn decode(text: &str) -> (r: Result<StoredPaste, KvError>)
        ensures
            match r {
                Ok(paste) => is_text_of(text@, paste@) && paste.is_well_formed(),
                Err(e) => e == KvError::Corrupt && is_no_paste(text@),
            },
    {
        let record = match Record::from_text(text) {
            Some(record) => {
                proof {
                    lemma_parse_complete(record@);
                }
                record
            },
            None => {
                proof {
                    if parsed_record(text@) is Some {
                        lemma_parse_sound(text@);
                        assert(record_text(parsed_record(text@).unwrap()) == text@);
                    }
                }
                match Record::from_json(text) {
                    Some(record) => record,
                    None => {
                        return Err(KvError::Corrupt);
                    },
                }
            },
        };
        assert(record_read(text@) == Some(record@));
        let exp = match &record.exp {
            None => None,
            Some(when) => match Timestamp::parse_rfc3339(when.as_str()) {
                Some(t) => Some(t),
                None => {
                    return Err(KvError::Corrupt);
                },
            },
        };
        Ok(
            StoredPaste {
                title: record.title,
                content: record.content,
                author: record.author,
                unlisted: record.unlisted,
                exp,
            },
        )
    }

    /// The key under which the store is to be asked for the paste that
    /// `uuid_str` names. A text that is no identifier names no paste, and the
    /// store is not asked.
    pub fn get_from_uuid_str(uuid_str: &str) -> (key: Option<String>)
        ensures
            key.deep_view() == lookup_key(uuid_str@),
    {
        match PasteId::parse(uuid_str) {
            Some(id) => Some(id.to_key()),
            None => None,
        }
    }

    /// The paste that the store's answer holds: none where the store holds
    /// nothing under the key.
    pub fn get_from_exact_key(stored: Option<&str>) -> (r: Result<Option<StoredPaste>, KvError>)
        ensures
            match stored {
                None => r == Ok::<Option<StoredPaste>, KvError>(None),
                Some(text) => match r {
                    Ok(found) => found matches Some(paste) && is_text_of(text@, paste@)
                        && paste.is_well_formed(),
                    Err(e) => e == KvError::Corrupt && is_no_paste(text@),
                },
            },
    {
        match stored {
            None => Ok(None),
            Some(text) => match StoredPaste::decode(text) {
                Ok(paste) => Ok(Some(paste)),
                Err(e) => Err(e),
            },
        }
    }

    /// The title to show: the paste's own, or a stand-in.
    pub fn get_title<'a>(&'a self) -> (title: &'a str)
        ensures
            title@ == (match self.title {
                Some(t) => t@,
                None => UNTITLED@,
            }),
    {
        match &self.title {
            Some(string) => string.as_str(),
            None => UNTITLED,
        }
    }
}

impl NewPaste {
    /// What this request says, apart from its identifier.
    pub open spec fn request(&self) -> PasteRequest {
        PasteRequest {
            title: self.title.deep_view(),
            content: self.content@,
            author: self.author.deep_view(),
            unlisted: self.unlisted,
            ttl: self.ttl,
        }
    }

    /// A request with the given parts under a fresh identifier. A paste has
    /// content: the content given is not empty.
    pub fn new(
        title: Option<String>,
        content: String,
        author: Option<String>,
        unlisted: bool,
        ttl: Option<u32>,
    ) -> (paste: NewPaste)
        requires
            content@.len() > 0,
        ensures
            paste.id.is_random_version(),
            paste.title == title,
            paste.content == content,
            paste.author == author,
            paste.unlisted == unlisted,
            paste.ttl == ttl,
    {
        let id = PasteId::generate();
        NewPaste { id, title, content, author, unlisted, ttl }
    }

    /// Reads a creation request from a submitted form and gives it a fresh
    /// identifier. The content, the expiration and the privacy are required;
    /// "Never" is an expiration only where `allow_never_expire` says so.
    /// A form without a content field is refused first. An empty content is
    /// no content: a form that is otherwise in order is refused for it last,
    /// as missing a value.
    pub fn from_form_data(form: &Form, allow_never_expire: bool) -> (r: Result<
        NewPaste,
        ResponseError,
    >)
        ensures
            match r {
                Ok(paste) => form_request(form@, allow_never_expire) == Ok::<
                    PasteRequest,
                    ResponseError,
                >(paste.request()) && paste.id.is_random_version() && paste.content@.len() > 0,
                Err(e) => form_request(form@, allow_never_expire) == Err::<
                    PasteRequest,
                    ResponseError,
                >(e),
            },
    {
        let title = match form.get(TITLE_FIELD) {
            Some(string) => if string.as_str().unicode_len() == 0 {
                None
            } else {
                Some(string)
            },
            None => None,
        };
        let author = form.get(AUTHOR_FIELD);
        let content = match form.get(CONTENT_FIELD) {
            Some(content) => content,
            None => { return Err(ResponseError::MissingFormValue); },
        };
        let ttl = match form.get(EXPIRATION_FIELD) {
            None => { return Err(ResponseError::MissingFormValue); },
            Some(choice) => {
                if same_text(choice.as_str(), "1 hour") {
                    Some(3600u32)
                } else if same_text(choice.as_str(), "24 hours") {
                    Some(86400u32)
                } else if same_text(choice.as_str(), "Never") && allow_never_expire {
                    None
                } else {
                    return Err(ResponseError::InvalidExpiration);
                }
            },
        };
        let unlisted = match form.get(PRIVACY_FIELD) {
            None => { return Err(ResponseError::MissingFormValue); },
            Some(choice) => {
                if same_text(choice.as_str(), "Public") {
                    false
                } else if same_text(choice.as_str(), "Unlisted") {
                    true
                } else {
                    return Err(ResponseError::InvalidExpiration);
                }
            },
        };
        if content.as_str().unicode_len() == 0 {
            return Err(ResponseError::MissingFormValue);
        }
        let id = PasteId::generate();
        Ok(NewPaste { id, title, content, author, unlisted, ttl })
    }

    /// Prepares the write that creates this paste now, at an instant that
    /// the clock gives. A time to live below the store's minimum is refused,
    /// and nothing is to be written.
    pub fn put(self) -> (r: Result<StoreWrite, KvError>)
        ensures
            match self.ttl {
                Some(ttl) if ttl < MIN_TTL => r == Err::<StoreWrite, KvError>(
                    KvError::UnsupportedTtl(ttl),
                ),
                _ => r matches Ok(write) && write.key@ == self.id.key() && write.path@
                    == PASTE_PATH@ + self.id.key() && exists|now: Timestamp|
                    now.is_valid() && write.value@ == #[trigger] stored_text(self.stored_at(now))
                        && write.ttl == seconds_until(self.stored_at(now).exp, now),
            },
    {
        let now = Timestamp::now();
        self.put_at(now)
    }

    /// Prepares the write that creates this paste at `now`: the key is the
    /// identifier's text, the value the text of the paste to store, and the
    /// entry is to live until the paste expires. A time to live below the
    /// store's minimum is refused, and nothing is to be written.
    pub fn put_at(self, now: Timestamp) -> (r: Result<StoreWrite, KvError>)
        requires
            now.is_valid(),
        ensures
            match self.ttl {
                Some(ttl) if ttl < MIN_TTL => r == Err::<StoreWrite, KvError>(
                    KvError::UnsupportedTtl(ttl),
                ),
                _ => r matches Ok(write) && write.key@ == self.id.key() && write.value@
                    == stored_text(self.stored_at(now)) && write.ttl == seconds_until(
                    self.stored_at(now).exp,
                    now,
                ) && write.path@ == PASTE_PATH@ + self.id.key(),
            },
    {
        if let Some(ttl) = self.ttl {
            if ttl < MIN_TTL {
                return Err(KvError::UnsupportedTtl(ttl));
            }
        }
        let id = self.id;
        let asked = self.ttl;
        let prepared = self.prepare(now);
        let ttl = match prepared.exp {
            Some(_) => asked,
            None => None,
        };
        let value = prepared.encode();
        let key = id.to_key();
        let path = String::from_str(PASTE_PATH).concat(key.as_str());
        Ok(StoreWrite { key, value, ttl, path })
    }

    /// The paste that is stored for this request when it is created at
    /// `now`.
    pub open spec fn stored_at(&self, now: Timestamp) -> StoredPasteView {
        self.request().stored_at(now)
    }

    /// The paste to store for this request when it is created at `now`: it
    /// expires after the time to live, or never where there is none or where
    /// the calendar ends before that.
    pub fn prepare(self, now: Timestamp) -> (stored: StoredPaste)
        requires
            now.is_valid(),
        ensures
            stored.title == self.title,
            stored.content == self.content,
            stored.author == self.author,
            stored.unlisted == self.unlisted,
            stored.exp == (match self.ttl {
                Some(ttl) => now.plus_seconds(ttl),
                None => None,
            }),
            stored@ == self.stored_at(now),
            stored.is_well_formed(),
    {
        let exp = match self.ttl {
            Some(ttl) => now.checked_add_seconds(ttl),
            None => None,
        };
        StoredPaste {
            title: self.title,
            content: self.content,
            author: self.author,
            unlisted: self.unlisted,
            exp,
        }
    }
}

} // verus!
