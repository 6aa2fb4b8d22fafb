//! Which of the service's operations a request asks for.

use vstd::prelude::*;
use crate::errors::ResponseError;
use crate::text::same_text;

verus! {

/// The content type that a creation request must carry.
pub const FORM_CONTENT_TYPE: &'static str = "application/x-www-form-urlencoded";

/// What a request asks for.
#[derive(Clone, Debug, PartialEq, Eq)]
pub enum Route {
    /// The collection is read: the client is sent to the index.
    Index,
    /// A paste is submitted.
    Create,
    /// The paste with the given identifier is read.
    Fetch(String),
}

/// What a request asks for, as contracts speak of it.
pub enum RouteView {
    Index,
    Create,
    Fetch(Seq<char>),
}

impl View for Route {
    type V = RouteView;

    open spec fn view(&self) -> RouteView {
        match self {
            Route::Index => RouteView::Index,
            Route::Create => RouteView::Create,
            Route::Fetch(id) => RouteView::Fetch(id@),
        }
    }
}

/// The segment at `index`, unless it is missing or empty.
pub open spec fn segment_at(segments: Seq<Seq<char>>, index: int) -> Option<Seq<char>> {
    if 0 <= index < segments.len() && segments[index].len() > 0 {
        Some(segments[index])
    } else {
        None
    }
}

/// The operation asked for by a request with the given path segments, method
/// and content type. The path is looked at first, then the method, then the
/// content type.
pub open spec fn route_of(
    segments: Seq<Seq<char>>,
    method: Seq<char>,
    content_type: Option<Seq<char>>,
) -> Result<RouteView, ResponseError> {
    if segments.len() == 0 || segments[0] != "paste"@ {
        Err(ResponseError::RouteError)
    } else if segment_at(segments, 2) is Some {
        Err(ResponseError::NonexistentResource)
    } else if method == "GET"@ {
        match segment_at(segments, 1) {
            None => Ok(RouteView::Index),
            Some(id) => Ok(RouteView::Fetch(id)),
        }
    } else if method == "POST"@ {
        if segment_at(segments, 1) is Some {
            Err(ResponseError::InvalidMethod)
        } else if content_type == Some(FORM_CONTENT_TYPE@) {
            Ok(RouteView::Create)
        } else {
            Err(ResponseError::ContentTypeError)
        }
    } else {
        Err(ResponseError::InvalidMethod)
    }
}

/// The operation asked for by a request to a URL whose path may not split
/// into segments.
pub open spec fn path_route(
    segments: Option<Seq<Seq<char>>>,
    method: Seq<char>,
    content_type: Option<Seq<char>>,
) -> Result<RouteView, ResponseError> {
    match segments {
        None => Err(ResponseError::PathNotUnderstood),
        Some(segments) => route_of(segments, method, content_type),
    }
}

/// The path segments of a URL as `url::Url::parse` and
/// `url::Url::path_segments` give them: `Ok(None)` where the URL has no path
/// that splits into segments, and where the text is no absolute URL the
/// reason, as the parser's error words it.
pub uninterp spec fn url_path_segments(url: Seq<char>) -> Result<Option<Seq<Seq<char>>>, Seq<char>>;

/// Parses `url` with `url::Url::parse` and splits its path with
/// `url::Url::path_segments`. The segments are those that the two functions
/// give for this text; an error is returned exactly where the text does not
/// parse, and it is the text that the parser's error is displayed as.
#[verifier::external_body]
fn split_url_path(url: &str) -> (r: Result<Option<Vec<String>>, String>)
    ensures
        match r {
            Ok(segments) => url_path_segments(url@) == Ok::<Option<Seq<Seq<char>>>, Seq<char>>(
                segments.deep_view(),
            ),
            Err(reason) => url_path_segments(url@) == Err::<Option<Seq<Seq<char>>>, Seq<char>>(
                reason@,
            ),
        },
{
    match url::Url::parse(url) {
        Ok(parsed) => Ok(parsed.path_segments().map(|parts| parts.map(String::from).collect())),
        Err(e) => Err(e.to_string()),
    }
}

/// Whether the path has a segment at `index` that is not empty.
fn present(segments: &Vec<String>, index: usize) -> (r: bool)
    ensures
        r == segment_at(segments.deep_view(), index as int) is Some,
{
    if index < segments.len() {
        proof {
            assert(segments.deep_view()[index as int] == segments@[index as int]@);
        }
        segments[index].as_str().unicode_len() > 0
    } else {
        false
    }
}

/// Decides what a request asks for from the segments of its path, its method
/// and its content type.
pub fn route(segments: &Vec<String>, method: &str, content_type: Option<&str>) -> (r: Result<
    Route,
    ResponseError,
>)
    ensures
        match r {
            Ok(found) => route_of(segments.deep_view(), method@, content_type.deep_view()) == Ok::<
                RouteView,
                ResponseError,
            >(found@),
            Err(e) => route_of(segments.deep_view(), method@, content_type.deep_view()) == Err::<
                RouteView,
                ResponseError,
            >(e),
        },
{
    if segments.len() == 0 {
        return Err(ResponseError::RouteError);
    }
    proof {
        assert(segments.deep_view()[0] == segments@[0]@);
    }
    if !same_text(segments[0].as_str(), "paste") {
        return Err(ResponseError::RouteError);
    }
    if present(segments, 2) {
        return Err(ResponseError::NonexistentResource);
    }
    let has_id = present(segments, 1);
    if same_text(method, "GET") {
        if has_id {
            proof {
                assert(segments.deep_view()[1] == segments@[1]@);
            }
            Ok(Route::Fetch(segments[1].clone()))
        } else {
            Ok(Route::Index)
        }
    } else if same_text(method, "POST") {
        if has_id {
            Err(ResponseError::InvalidMethod)
        } else {
            match content_type {
                Some(given) => {
                    if same_text(given, FORM_CONTENT_TYPE) {
                        Ok(Route::Create)
                    } else {
                        Err(ResponseError::ContentTypeError)
                    }
                },
                None => Err(ResponseError::ContentTypeError),
            }
        }
    } else {
        Err(ResponseError::InvalidMethod)
    }
}

/// Decides what a request asks for from its URL, its method and its content
/// type. A text that is no absolute URL is refused with the parser's reason.
pub fn handle_request(url: &str, method: &str, content_type: Option<&str>) -> (r: Result<
    Route,
    ResponseError,
>)
    ensures
        match url_path_segments(url@) {
            Err(reason) => r matches Err(ResponseError::UrlParseError(text)) && text@ == reason,
            Ok(segments) => match r {
                Ok(found) => path_route(segments, method@, content_type.deep_view()) == Ok::<
                    RouteView,
                    ResponseError,
                >(found@),
                Err(e) => path_route(segments, method@, content_type.deep_view()) == Err::<
                    RouteView,
                    ResponseError,
                >(e),
            },
        },
{
    match split_url_path(url) {
        Err(reason) => Err(ResponseError::UrlParseError(reason)),
        Ok(None) => Err(ResponseError::PathNotUnderstood),
        Ok(Some(segments)) => route(&segments, method, content_type),
    }
}

/// Whether a request with the given path segments and method is one whose
/// content type is looked at: a submission to the collection.
pub open spec fn reads_content_type(segments: Seq<Seq<char>>, method: Seq<char>) -> bool {
    route_of(segments, method, Some(FORM_CONTENT_TYPE@)) == Ok::<RouteView, ResponseError>(
        RouteView::Create,
    )
}

/// Whether the request's content type is needed to decide what it asks for.
/// It is for a submission to the collection and for no other request, so
/// that the host reads the header only then.
pub fn needs_content_type(url: &str, method: &str) -> (r: bool)
    ensures
        r == (url_path_segments(url@) matches Ok(Some(segments)) && reads_content_type(
            segments,
            method@,
        )),
{
    match handle_request(url, method, Some(FORM_CONTENT_TYPE)) {
        Ok(Route::Create) => true,
        _ => false,
    }
}

/// What a request asks for does not depend on its content type, unless it is
/// a submission to the collection.
pub proof fn lemma_content_type_decides_only_creation(
    segments: Seq<Seq<char>>,
    method: Seq<char>,
    one: Option<Seq<char>>,
    other: Option<Seq<char>>,
)
    requires
        !reads_content_type(segments, method),
    ensures
        route_of(segments, method, one) == route_of(segments, method, other),
{
}

} // verus!
