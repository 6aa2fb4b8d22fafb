use std::collections::HashMap;

use pastebin::config::Config;
use pastebin::errors::{KvError, ResponseError};
use pastebin::expiry::Timestamp;
use pastebin::form::Form;
use pastebin::paste::{NewPaste, StoredPaste};
use pastebin::response::{error_reply, not_found, render_paste, HttpResponse, Reply};
use pastebin::router::{handle_request, Route};
use pastebin::service::{create_paste, create_paste_at, created, fetched};

const BASE: &str = "https://pasta.zpfeiffer.com";
const FORM_TYPE: Option<&str> = Some("application/x-www-form-urlencoded");
const MAY_2015: i64 = 1_431_648_000;

/// A store that keeps what it is given, and counts how often it is asked.
struct Store {
    entries: HashMap<String, String>,
    reads: usize,
    writes: usize,
    /// The fault with which every read fails, where the store is down.
    down: Option<String>,
}

fn empty_store() -> Store {
    Store { entries: HashMap::new(), reads: 0, writes: 0, down: None }
}

fn form(fields: &[(&str, &str)]) -> Form {
    Form { entries: fields.iter().map(|(k, v)| (k.to_string(), v.to_string())).collect() }
}

/// Serves one request as the host does: it performs what the library asks
/// for and hands back what came of it.
fn serve(
    store: &mut Store,
    config: &Config,
    method: &str,
    url: &str,
    content_type: Option<&str>,
    body: &Form,
    now: Timestamp,
) -> Result<HttpResponse, ResponseError> {
    match handle_request(url, method, content_type)? {
        Route::Index => Ok(pastebin::response::index_redirect(config)),
        Route::Create => {
            let write = create_paste_at(body, config, now)?;
            store.writes += 1;
            store.entries.insert(write.key.clone(), write.value.clone());
            Ok(created(&write, config))
        }
        Route::Fetch(id) => {
            let found = match StoredPaste::get_from_uuid_str(&id) {
                None => None,
                Some(key) => {
                    store.reads += 1;
                    let answer = match &store.down {
                        Some(fault) => Err(KvError::StoreUnavailable(fault.clone())),
                        None => Ok(store.entries.get(&key).map(String::as_str)),
                    };
                    fetched(answer)?
                }
            };
            Ok(render_paste(found))
        }
    }
}

fn location(answer: &HttpResponse) -> String {
    assert_eq!(answer.headers.len(), 1);
    assert_eq!(answer.headers[0].0, "Location");
    answer.headers[0].1.clone()
}

#[test]
fn created_paste_is_fetched_with_its_content() {
    let mut store = empty_store();
    let config = Config::default();
    let now = Timestamp::new(MAY_2015, 0).unwrap();
    let body = form(&[("paste-content", "Hello"), ("expiration", "1 hour"), ("privacy", "Public")]);
    let answer =
        serve(&mut store, &config, "POST", &format!("{}/paste", BASE), FORM_TYPE, &body, now)
            .unwrap();
    assert_eq!(answer.status, 303);
    let target = location(&answer);
    let prefix = format!("{}/paste/", BASE);
    assert!(target.starts_with(&prefix));
    let id = &target[prefix.len()..];
    assert_eq!(id.len(), 32);
    assert!(id.chars().all(|c| matches!(c, '0'..='9' | 'a'..='f')));
    assert_eq!(store.writes, 1);
    assert_eq!(
        store.entries.get(id).map(String::as_str),
        Some(r#"{"content":"Hello","unlisted":false,"exp":"2015-05-15T01:00:00Z"}"#)
    );

    let shown = serve(&mut store, &config, "GET", &target, None, &form(&[]), now).unwrap();
    assert_eq!(shown.status, 200);
    assert!(shown.body.contains("<pre class=\"paste-content\">Hello</pre>"));
    assert!(shown.body.contains("Privacy: public"));
    assert_eq!(shown.headers[1].0, "Expires");
    assert_eq!(shown.headers[1].1, "Fri, 15 May 2015 01:00:00 +0000");
    assert_eq!(store.reads, 1);

    let read = StoredPaste::decode(store.entries.get(id).unwrap()).unwrap();
    assert!(!read.unlisted);
    assert_eq!(read.content, "Hello");
    assert_eq!(read.title, None);
    assert_eq!(read.author, None);
    assert_eq!(read.exp, Some(Timestamp { secs: MAY_2015 + 3600, nanos: 0 }));
}

#[test]
fn every_valid_creation_is_fetched_again() {
    let mut store = empty_store();
    let config = Config { base_url: BASE.to_string(), allow_never_expire: true };
    let now = Timestamp::new(MAY_2015, 0).unwrap();
    let contents = [" ", "x", "line\nbreak", "<b>&\"quoted\"</b>", "\u{0}\u{1f}\\", "\u{1f600}"];
    for content in contents {
        for expiration in ["1 hour", "24 hours", "Never"] {
            for privacy in ["Public", "Unlisted"] {
                let body = form(&[
                    ("paste-title", "T"),
                    ("paste-content", content),
                    ("expiration", expiration),
                    ("privacy", privacy),
                ]);
                let url = format!("{}/paste", BASE);
                let answer =
                    serve(&mut store, &config, "POST", &url, FORM_TYPE, &body, now).unwrap();
                assert_eq!(answer.status, 303);
                let target = location(&answer);
                let id = target.rsplit('/').next().unwrap().to_string();
                let read = StoredPaste::decode(store.entries.get(&id).unwrap()).unwrap();
                assert_eq!(read.content, content);
                assert_eq!(read.unlisted, privacy == "Unlisted");
                let shown =
                    serve(&mut store, &config, "GET", &target, None, &form(&[]), now).unwrap();
                assert_eq!(shown.status, 200);
                assert_eq!(shown, render_paste(Some(read)));
            }
        }
    }
}

#[test]
fn creation_without_content_is_refused_and_nothing_is_written() {
    let mut store = empty_store();
    let config = Config::default();
    let now = Timestamp::new(MAY_2015, 0).unwrap();
    let body = form(&[("expiration", "1 hour"), ("privacy", "Public")]);
    let url = format!("{}/paste", BASE);
    let failure = serve(&mut store, &config, "POST", &url, FORM_TYPE, &body, now).unwrap_err();
    assert_eq!(failure, ResponseError::MissingFormValue);
    assert_eq!(store.writes, 0);
    match error_reply(failure) {
        Reply::Respond(answer) => {
            assert_eq!(answer.status, 400);
            assert_eq!(answer.body, "submitted form missing values");
        }
        Reply::Reject(reason) => panic!("{}", reason),
    }
}

#[test]
fn creation_with_an_unknown_expiration_is_refused() {
    let mut store = empty_store();
    let config = Config::default();
    let now = Timestamp::new(MAY_2015, 0).unwrap();
    let body =
        form(&[("paste-content", "Hello"), ("expiration", "5 minutes"), ("privacy", "Public")]);
    let url = format!("{}/paste", BASE);
    let failure = serve(&mut store, &config, "POST", &url, FORM_TYPE, &body, now).unwrap_err();
    assert_eq!(failure, ResponseError::InvalidExpiration);
    assert_eq!(store.writes, 0);
    match error_reply(failure) {
        Reply::Respond(answer) => {
            assert_eq!(answer.status, 400);
            assert_eq!(answer.body, "invalid expiration");
        }
        Reply::Reject(reason) => panic!("{}", reason),
    }
}

#[test]
fn short_time_to_live_is_refused_before_any_write() {
    let request = NewPaste::new(None, "Hello".to_string(), None, false, Some(30));
    let failure = request.put().unwrap_err();
    assert_eq!(failure, KvError::UnsupportedTtl(30));
    match error_reply(ResponseError::KvError(failure)) {
        Reply::Respond(answer) => {
            assert_eq!(answer.status, 400);
            assert_eq!(answer.body, "kv error: unsupported ttl: 30 (must be >= 60)");
        }
        Reply::Reject(reason) => panic!("{}", reason),
    }
}

#[test]
fn fetch_of_what_is_no_identifier_asks_the_store_nothing() {
    let mut store = empty_store();
    let config = Config::default();
    let now = Timestamp::new(MAY_2015, 0).unwrap();
    for id in ["abc", "9f86d081884c4d659a2feaa0c55ad01", "9f86d081884c4d659a2feaa0c55ad01z"] {
        let url = format!("{}/paste/{}", BASE, id);
        let answer = serve(&mut store, &config, "GET", &url, None, &form(&[]), now).unwrap();
        assert_eq!(answer, not_found());
        assert_eq!(answer.status, 404);
    }
    assert_eq!(store.reads, 0);
}

#[test]
fn fetch_of_an_identifier_never_written_is_not_found() {
    let mut store = empty_store();
    let config = Config::default();
    let now = Timestamp::new(MAY_2015, 0).unwrap();
    let url = format!("{}/paste/9f86d081884c4d659a2feaa0c55ad015", BASE);
    let answer = serve(&mut store, &config, "GET", &url, None, &form(&[]), now).unwrap();
    assert_eq!(answer.status, 404);
    assert_eq!(answer, not_found());
    assert_eq!(store.reads, 1);
}

#[test]
fn fetch_of_a_corrupt_entry_fails() {
    let mut store = empty_store();
    store.entries.insert("9f86d081884c4d659a2feaa0c55ad015".to_string(), "garbage".to_string());
    let config = Config::default();
    let now = Timestamp::new(MAY_2015, 0).unwrap();
    let url = format!("{}/paste/9F86D081884C4D659A2FEAA0C55AD015", BASE);
    let failure = serve(&mut store, &config, "GET", &url, None, &form(&[]), now).unwrap_err();
    assert_eq!(failure, ResponseError::KvError(KvError::Corrupt));
    assert_eq!(store.reads, 1);
}

#[test]
fn fetch_from_a_store_that_is_down_fails_with_the_store_s_fault() {
    let mut store = empty_store();
    store.down = Some("timeout".to_string());
    let config = Config::default();
    let now = Timestamp::new(MAY_2015, 0).unwrap();
    let url = format!("{}/paste/9f86d081884c4d659a2feaa0c55ad015", BASE);
    let failure = serve(&mut store, &config, "GET", &url, None, &form(&[]), now).unwrap_err();
    assert_eq!(
        failure,
        ResponseError::KvError(KvError::StoreUnavailable("timeout".to_string()))
    );
    assert_eq!(store.reads, 1);
    assert_eq!(
        error_reply(failure),
        Reply::Reject("kv error: js error: timeout".to_string())
    );
}

#[test]
fn creation_with_empty_content_is_refused_and_nothing_is_written() {
    let mut store = empty_store();
    let config = Config { base_url: BASE.to_string(), allow_never_expire: true };
    let now = Timestamp::new(MAY_2015, 0).unwrap();
    let body = form(&[("paste-content", ""), ("expiration", "Never"), ("privacy", "Public")]);
    let url = format!("{}/paste", BASE);
    let failure = serve(&mut store, &config, "POST", &url, FORM_TYPE, &body, now).unwrap_err();
    assert_eq!(failure, ResponseError::MissingFormValue);
    assert_eq!(store.writes, 0);
    // Where "Never" is not allowed, that is what the form is refused for.
    let strict = Config::default();
    let failure = serve(&mut store, &strict, "POST", &url, FORM_TYPE, &body, now).unwrap_err();
    assert_eq!(failure, ResponseError::InvalidExpiration);
    assert_eq!(store.writes, 0);
}

#[test]
fn what_a_fetch_found() {
    assert_eq!(fetched(Ok(None)), Ok(None));
    assert_eq!(
        fetched(Err(KvError::StoreUnavailable("down".to_string()))),
        Err(ResponseError::KvError(KvError::StoreUnavailable("down".to_string())))
    );
    assert_eq!(fetched(Err(KvError::NotFound)), Err(ResponseError::KvError(KvError::NotFound)));
    assert_eq!(fetched(Ok(Some("garbage"))), Err(ResponseError::KvError(KvError::Corrupt)));
    let found = fetched(Ok(Some(r#"{"content":"Hello","unlisted":true}"#))).unwrap().unwrap();
    assert_eq!(found.content, "Hello");
    assert!(found.unlisted);
    assert_eq!(found.title, None);
    assert_eq!(found.exp, None);
}

#[test]
fn collection_read_is_sent_to_the_index() {
    let mut store = empty_store();
    let config = Config::default();
    let now = Timestamp::new(MAY_2015, 0).unwrap();
    let url = format!("{}/paste", BASE);
    let answer = serve(&mut store, &config, "GET", &url, None, &form(&[]), now).unwrap();
    assert_eq!(answer.status, 301);
    assert_eq!(location(&answer), BASE);
}

#[test]
fn creation_now_writes_under_a_fresh_key() {
    let config = Config::default();
    let body = form(&[("paste-content", "Hello"), ("expiration", "24 hours"), ("privacy", "Unlisted")]);
    let first = create_paste(&body, &config).unwrap();
    let second = create_paste(&body, &config).unwrap();
    assert_ne!(first.key, second.key);
    assert_eq!(first.key.len(), 32);
    assert_eq!(first.ttl, Some(86400));
    assert_eq!(first.path, format!("/paste/{}", first.key));
    let answer = created(&first, &config);
    assert_eq!(answer.status, 303);
    assert_eq!(location(&answer), format!("{}/paste/{}", BASE, first.key));
    let read = StoredPaste::decode(&first.value).unwrap();
    assert!(read.unlisted);
    assert_eq!(read.content, "Hello");
}
