//! Reading a record from any JSON object that holds its fields: in any
//! order, with space between them, with members that are no field of a
//! record, and with `null` where a field is absent.

use vstd::prelude::*;
use crate::record::{Record, RecordView};
use crate::text::same_text;

verus! {

/// The name of the title among the members of a record.
pub const TITLE_NAME: &'static str = "title";

/// The name of the content among the members of a record.
pub const CONTENT_NAME: &'static str = "content";

/// The name of the author among the members of a record.
pub const AUTHOR_NAME: &'static str = "author";

/// The name of the privacy among the members of a record.
pub const UNLISTED_NAME: &'static str = "unlisted";

/// The name of the expiry among the members of a record.
pub const EXP_NAME: &'static str = "exp";

/// What a member of an object holds, as far as a record asks.
#[derive(Clone, Debug, PartialEq, Eq)]
pub enum Member {
    /// `null`.
    Null,
    /// `true` or `false`.
    Bool(bool),
    /// A text.
    Text(String),
    /// A number, an array or an object.
    Other,
}

/// What a member of an object holds, as contracts speak of it.
pub enum MemberView {
    Null,
    Bool(bool),
    Text(Seq<char>),
    Other,
}

impl View for Member {
    type V = MemberView;

    open spec fn view(&self) -> MemberView {
        match self {
            Member::Null => MemberView::Null,
            Member::Bool(b) => MemberView::Bool(*b),
            Member::Text(s) => MemberView::Text(s@),
            Member::Other => MemberView::Other,
        }
    }
}

/// The members of an object as contracts speak of them: each name with what
/// it holds.
pub open spec fn members_view(members: Seq<(String, Member)>) -> Seq<(Seq<char>, MemberView)> {
    Seq::new(members.len(), |i: int| (members[i].0@, members[i].1@))
}

/// What the first of `members` that is named `name` holds.
pub open spec fn member_named(members: Seq<(Seq<char>, MemberView)>, name: Seq<char>) -> Option<
    MemberView,
>
    decreases members.len(),
{
    if members.len() == 0 {
        None
    } else if members[0].0 == name {
        Some(members[0].1)
    } else {
        member_named(members.drop_first(), name)
    }
}

/// A field that may be absent: the text that the member holds, none where
/// there is no such member or it holds `null`. `None` where the member holds
/// anything else.
pub open spec fn optional_text(member: Option<MemberView>) -> Option<Option<Seq<char>>> {
    match member {
        None => Some(None),
        Some(MemberView::Null) => Some(None),
        Some(MemberView::Text(text)) => Some(Some(text)),
        Some(_) => None,
    }
}

/// The record that the members of an object make: the content is a text,
/// the privacy a truth value, and the title, the author and the expiry are
/// texts where they are there. Members of other names are passed over.
pub open spec fn record_of_members(members: Seq<(Seq<char>, MemberView)>) -> Option<RecordView> {
    match (
        optional_text(member_named(members, TITLE_NAME@)),
        member_named(members, CONTENT_NAME@),
        optional_text(member_named(members, AUTHOR_NAME@)),
        member_named(members, UNLISTED_NAME@),
        optional_text(member_named(members, EXP_NAME@)),
    ) {
        (
            Some(title),
            Some(MemberView::Text(content)),
            Some(author),
            Some(MemberView::Bool(unlisted)),
            Some(exp),
        ) => Some(RecordView { title, content, author, unlisted, exp }),
        _ => None,
    }
}

/// The members of the object that `serde_json::from_str` reads from a text
/// as a `serde_json::Value`, as the object's map hands them out; `None`
/// where the text is no JSON or is JSON for something other than an object.
pub uninterp spec fn json_members(text: Seq<char>) -> Option<Seq<(Seq<char>, MemberView)>>;

/// Reads a text with `serde_json::from_str` and hands out the members of the
/// object it holds, each with its name and with what it holds: `null`, a
/// truth value, a text, or something else.
#[verifier::external_body]
fn read_members(text: &str) -> (r: Option<Vec<(String, Member)>>)
    ensures
        match r {
            Some(members) => json_members(text@) == Some(members_view(members@)),
            None => json_members(text@) is None,
        },
{
    let value: serde_json::Value = serde_json::from_str(text).ok()?;
    let object = value.as_object()?;
    Some(object.iter().map(|(name, held)| (name.clone(), match held {
        serde_json::Value::Null => Member::Null,
        serde_json::Value::Bool(b) => Member::Bool(*b),
        serde_json::Value::String(s) => Member::Text(s.clone()),
        serde_json::Value::Number(_) => Member::Other,
        serde_json::Value::Array(_) => Member::Other,
        serde_json::Value::Object(_) => Member::Other,
    })).collect())
}

/// What the first of `members` that is named `name` holds.
fn find_member<'a>(members: &'a Vec<(String, Member)>, name: &str) -> (r: Option<&'a Member>)
    ensures
        match r {
            Some(held) => member_named(members_view(members@), name@) == Some(held@),
            None => member_named(members_view(members@), name@) is None,
        },
{
    let ghost all = members_view(members@);
    let mut i: usize = 0;
    proof {
        assert(all.skip(0) =~= all);
    }
    while i < members.len()
        invariant
            i <= members.len(),
            all == members_view(members@),
            member_named(all, name@) == member_named(all.skip(i as int), name@),
        decreases members.len() - i,
    {
        proof {
            assert(all.skip(i as int)[0] == all[i as int]);
            assert(all.skip(i as int).drop_first() =~= all.skip(i as int + 1));
        }
        if same_text(members[i].0.as_str(), name) {
            return Some(&members[i].1);
        }
        i = i + 1;
    }
    None
}

/// The text of a field that may be absent.
fn text_of(member: Option<&Member>) -> (r: Option<Option<String>>)
    ensures
        r.deep_view() == optional_text(
            match member {
                Some(held) => Some(held@),
                None => None,
            },
        ),
{
    match member {
        None => Some(None),
        Some(Member::Null) => Some(None),
        Some(Member::Text(text)) => Some(Some(text.clone())),
        Some(_) => None,
    }
}

impl Record {
    /// The record that the members of an object make, if they make one.
    pub fn from_members(members: &Vec<(String, Member)>) -> (r: Option<Record>)
        ensures
            r.deep_view() == record_of_members(members_view(members@)),
    {
        let title = match text_of(find_member(members, TITLE_NAME)) {
            Some(title) => title,
            None => { return None; },
        };
        let content = match find_member(members, CONTENT_NAME) {
            Some(Member::Text(content)) => content.clone(),
            _ => { return None; },
        };
        let author = match text_of(find_member(members, AUTHOR_NAME)) {
            Some(author) => author,
            None => { return None; },
        };
        let unlisted = match find_member(members, UNLISTED_NAME) {
            Some(Member::Bool(unlisted)) => *unlisted,
            _ => { return None; },
        };
        let exp = match text_of(find_member(members, EXP_NAME)) {
            Some(exp) => exp,
            None => { return None; },
        };
        Some(Record { title, content, author, unlisted, exp })
    }

    /// The record that a text holds as a JSON object, if it holds one.
    pub fn from_json(text: &str) -> (r: Option<Record>)
        ensures
            r.deep_view() == (match json_members(text@) {
                Some(members) => record_of_members(members),
                None => None,
            }),
    {
        match read_members(text) {
            Some(members) => Record::from_members(&members),
            None => None,
        }
    }
}

} // verus!
