//! Creating a paste: from the submitted form to the write that the store is
//! asked for and the answer that follows it.

use vstd::prelude::*;
use crate::config::Config;
use crate::errors::{KvError, ResponseError};
use crate::expiry::Timestamp;
use crate::form::Form;
use crate::ident::is_key;
use crate::paste::{
    form_request, is_no_paste, is_text_of, seconds_until, stored_text, NewPaste, StoreWrite,
    StoredPaste, PASTE_PATH,
};
use crate::response::{redirect, redirect_to, HttpResponse};

verus! {

/// Prepares the write that creates the paste that a form asks for, at an
/// instant that the clock gives. A form that asks for none is refused with
/// its reason, and nothing is to be written.
pub fn create_paste(form: &Form, config: &Config) -> (r: Result<StoreWrite, ResponseError>)
    ensures
        match form_request(form@, config.allow_never_expire) {
            Err(e) => r == Err::<StoreWrite, ResponseError>(e),
            Ok(request) => r matches Ok(write) && is_key(write.key@) && write.path@
                == PASTE_PATH@ + write.key@ && exists|now: Timestamp|
                now.is_valid() && write.value@ == #[trigger] stored_text(request.stored_at(now))
                    && write.ttl == seconds_until(request.stored_at(now).exp, now),
        },
{
    let now = Timestamp::now();
    create_paste_at(form, config, now)
}

/// Prepares the write that creates, at `now`, the paste that a form asks
/// for: under a fresh key, the text of the paste to store, to live until
/// the paste expires. A form that asks for none is refused with its reason,
/// and nothing is to be written.
pub fn create_paste_at(form: &Form, config: &Config, now: Timestamp) -> (r: Result<
    StoreWrite,
    ResponseError,
>)
    requires
        now.is_valid(),
    ensures
        match form_request(form@, config.allow_never_expire) {
            Err(e) => r == Err::<StoreWrite, ResponseError>(e),
            Ok(request) => r matches Ok(write) && is_key(write.key@) && write.value@
                == stored_text(request.stored_at(now)) && write.ttl == seconds_until(
                request.stored_at(now).exp,
                now,
            ) && write.path@ == PASTE_PATH@ + write.key@,
        },
{
    let new_paste = match NewPaste::from_form_data(form, config.allow_never_expire) {
        Ok(new_paste) => new_paste,
        Err(e) => {
            return Err(e);
        },
    };
    match new_paste.put_at(now) {
        Ok(write) => Ok(write),
        Err(e) => Err(ResponseError::KvError(e)),
    }
}

/// The answer to a creation once the store has taken the write: the client
/// is sent to the new paste.
pub fn created(write: &StoreWrite, config: &Config) -> (r: HttpResponse)
    ensures
        r@ == redirect_to(303, config.base_url@ + write.path@),
{
    let location = config.base_url.clone().concat(write.path.as_str());
    redirect(303, location.as_str())
}

/// What a fetch found, by how the read of the store ended. A read that
/// failed ends the fetch with the store's failure, unchanged; so does a text
/// that is no stored paste, which is corrupt. Where the store holds nothing
/// under the key, nothing is found.
pub fn fetched(answer: Result<Option<&str>, KvError>) -> (r: Result<
    Option<StoredPaste>,
    ResponseError,
>)
    ensures
        match answer {
            Err(e) => r == Err::<Option<StoredPaste>, ResponseError>(ResponseError::KvError(e)),
            Ok(None) => r == Ok::<Option<StoredPaste>, ResponseError>(None),
            Ok(Some(text)) => match r {
                Ok(found) => found matches Some(paste) && is_text_of(text@, paste@)
                    && paste.is_well_formed(),
                Err(e) => e == ResponseError::KvError(KvError::Corrupt) && is_no_paste(text@),
            },
        },
{
    match answer {
        Err(e) => Err(ResponseError::KvError(e)),
        Ok(stored) => match StoredPaste::get_from_exact_key(stored) {
            Ok(found) => Ok(found),
            Err(e) => Err(ResponseError::KvError(e)),
        },
    }
}

} // verus!
