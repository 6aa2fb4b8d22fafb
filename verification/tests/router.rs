use pastebin::errors::ResponseError;
use pastebin::router::{handle_request, needs_content_type, route, Route, FORM_CONTENT_TYPE};

const FORM: Option<&str> = Some("application/x-www-form-urlencoded");
const ID: &str = "9f86d081884c4d659a2feaa0c55ad015";

fn segments(parts: &[&str]) -> Vec<String> {
    parts.iter().map(|part| part.to_string()).collect()
}

#[test]
fn form_content_type_is_the_urlencoded_one() {
    assert_eq!(FORM_CONTENT_TYPE, "application/x-www-form-urlencoded");
}

#[test]
fn collection_is_read_by_get() {
    assert_eq!(route(&segments(&["paste"]), "GET", None), Ok(Route::Index));
    assert_eq!(route(&segments(&["paste", ""]), "GET", None), Ok(Route::Index));
    assert_eq!(route(&segments(&["paste", "", ""]), "GET", FORM), Ok(Route::Index));
}

#[test]
fn paste_is_created_by_post_of_a_form() {
    assert_eq!(route(&segments(&["paste"]), "POST", FORM), Ok(Route::Create));
    assert_eq!(route(&segments(&["paste", ""]), "POST", FORM), Ok(Route::Create));
}

#[test]
fn post_without_a_form_is_a_content_type_error() {
    let paste = segments(&["paste"]);
    assert_eq!(route(&paste, "POST", None), Err(ResponseError::ContentTypeError));
    assert_eq!(route(&paste, "POST", Some("text/plain")), Err(ResponseError::ContentTypeError));
    assert_eq!(
        route(&paste, "POST", Some("application/x-www-form-urlencoded; charset=utf-8")),
        Err(ResponseError::ContentTypeError)
    );
    assert_eq!(route(&paste, "POST", Some("")), Err(ResponseError::ContentTypeError));
}

#[test]
fn paste_is_fetched_by_get() {
    assert_eq!(route(&segments(&["paste", ID]), "GET", None), Ok(Route::Fetch(ID.to_string())));
    assert_eq!(
        route(&segments(&["paste", ID, ""]), "GET", None),
        Ok(Route::Fetch(ID.to_string()))
    );
    assert_eq!(
        route(&segments(&["paste", "anything"]), "GET", None),
        Ok(Route::Fetch("anything".to_string()))
    );
}

#[test]
fn other_methods_are_invalid() {
    for method in ["PUT", "DELETE", "HEAD", "get", "post", ""] {
        assert_eq!(route(&segments(&["paste"]), method, FORM), Err(ResponseError::InvalidMethod));
        assert_eq!(
            route(&segments(&["paste", ID]), method, FORM),
            Err(ResponseError::InvalidMethod)
        );
    }
    assert_eq!(route(&segments(&["paste", ID]), "POST", FORM), Err(ResponseError::InvalidMethod));
}

#[test]
fn deeper_paths_name_no_resource() {
    assert_eq!(
        route(&segments(&["paste", ID, "raw"]), "GET", None),
        Err(ResponseError::NonexistentResource)
    );
    assert_eq!(
        route(&segments(&["paste", "", "x"]), "GET", None),
        Err(ResponseError::NonexistentResource)
    );
    assert_eq!(
        route(&segments(&["paste", ID, "raw"]), "PUT", None),
        Err(ResponseError::NonexistentResource)
    );
}

#[test]
fn other_families_are_a_route_error() {
    assert_eq!(route(&segments(&[]), "GET", None), Err(ResponseError::RouteError));
    assert_eq!(route(&segments(&[""]), "GET", None), Err(ResponseError::RouteError));
    assert_eq!(route(&segments(&["pastes"]), "GET", None), Err(ResponseError::RouteError));
    assert_eq!(route(&segments(&["Paste"]), "GET", None), Err(ResponseError::RouteError));
    assert_eq!(route(&segments(&["x", "paste"]), "GET", None), Err(ResponseError::RouteError));
    assert_eq!(route(&segments(&["other", "a", "b"]), "PUT", None), Err(ResponseError::RouteError));
}

#[test]
fn requests_by_url() {
    let base = "https://pasta.zpfeiffer.com";
    assert_eq!(handle_request(&format!("{}/paste", base), "GET", None), Ok(Route::Index));
    assert_eq!(handle_request(&format!("{}/paste/", base), "GET", None), Ok(Route::Index));
    assert_eq!(handle_request(&format!("{}/paste", base), "POST", FORM), Ok(Route::Create));
    assert_eq!(
        handle_request(&format!("{}/paste?x=1#top", base), "POST", FORM),
        Ok(Route::Create)
    );
    assert_eq!(
        handle_request(&format!("{}/paste/{}", base, ID), "GET", None),
        Ok(Route::Fetch(ID.to_string()))
    );
    assert_eq!(
        handle_request(&format!("{}/paste/{}/", base, ID), "GET", None),
        Ok(Route::Fetch(ID.to_string()))
    );
    assert_eq!(
        handle_request(&format!("{}/paste/{}/raw", base, ID), "GET", None),
        Err(ResponseError::NonexistentResource)
    );
    assert_eq!(
        handle_request(&format!("{}/paste", base), "POST", None),
        Err(ResponseError::ContentTypeError)
    );
    assert_eq!(
        handle_request(&format!("{}/paste", base), "PUT", FORM),
        Err(ResponseError::InvalidMethod)
    );
    assert_eq!(handle_request(base, "GET", None), Err(ResponseError::RouteError));
    assert_eq!(handle_request(&format!("{}/", base), "GET", None), Err(ResponseError::RouteError));
    assert_eq!(
        handle_request(&format!("{}/index.html", base), "GET", None),
        Err(ResponseError::RouteError)
    );
}

#[test]
fn path_segments_are_those_of_the_url() {
    // The segment is handed on as the URL has it, percent-encoded.
    assert_eq!(
        handle_request("https://example.com/paste/a%20b", "GET", None),
        Ok(Route::Fetch("a%20b".to_string()))
    );
    // Dot segments are resolved by the URL before the path is split.
    assert_eq!(
        handle_request("https://example.com/x/../paste/abc", "GET", None),
        Ok(Route::Fetch("abc".to_string()))
    );
}

#[test]
fn what_is_no_url_is_a_parse_error() {
    let no_base = ResponseError::UrlParseError("relative URL without a base".to_string());
    assert_eq!(handle_request("", "GET", None), Err(no_base.clone()));
    assert_eq!(handle_request("/paste", "GET", None), Err(no_base.clone()));
    assert_eq!(handle_request("not a url", "GET", None), Err(no_base));
    assert_eq!(
        handle_request("https://", "POST", None),
        Err(ResponseError::UrlParseError("empty host".to_string()))
    );
    assert_eq!(
        handle_request("https://example.com:99999/paste", "GET", None),
        Err(ResponseError::UrlParseError("invalid port number".to_string()))
    );
}

#[test]
fn parse_error_carries_the_parser_s_reason() {
    for text in ["", "paste", "//x", "https://", "http://[::1", "https://exa mple.com/paste"] {
        let reason = url::Url::parse(text).unwrap_err().to_string();
        assert_eq!(
            handle_request(text, "GET", None),
            Err(ResponseError::UrlParseError(reason.clone()))
        );
        assert_eq!(
            ResponseError::UrlParseError(reason.clone()).message(),
            format!("url parse error: {}", reason)
        );
    }
}

#[test]
fn url_without_segments_is_not_understood() {
    assert_eq!(
        handle_request("data:text/plain,Hello", "GET", None),
        Err(ResponseError::PathNotUnderstood)
    );
    assert_eq!(
        handle_request("mailto:someone@example.com", "GET", None),
        Err(ResponseError::PathNotUnderstood)
    );
}

#[test]
fn content_type_is_needed_only_for_a_submission() {
    let base = "https://pasta.zpfeiffer.com";
    assert!(needs_content_type(&format!("{}/paste", base), "POST"));
    assert!(needs_content_type(&format!("{}/paste/", base), "POST"));
    assert!(!needs_content_type(&format!("{}/paste", base), "GET"));
    assert!(!needs_content_type(&format!("{}/paste", base), "PUT"));
    assert!(!needs_content_type(&format!("{}/paste/{}", base, ID), "POST"));
    assert!(!needs_content_type(&format!("{}/paste/{}", base, ID), "GET"));
    assert!(!needs_content_type(&format!("{}/paste/{}/raw", base, ID), "POST"));
    assert!(!needs_content_type(&format!("{}/other", base), "POST"));
    assert!(!needs_content_type("not a url", "POST"));
    assert!(!needs_content_type("data:text/plain,Hello", "POST"));
    // Where it is not needed, it does not change what is decided.
    for method in ["GET", "PUT"] {
        for path in ["/paste", "/paste/abc", "/paste/abc/raw", "/other"] {
            let url = format!("{}{}", base, path);
            assert_eq!(
                handle_request(&url, method, None),
                handle_request(&url, method, FORM)
            );
        }
    }
}
