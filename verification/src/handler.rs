//! The request handler: one known path, one fallback.
//!
//! `handle` is a pure function from the request's path, its query string and
//! the platform context to a response.  For `/v1.json` it builds the
//! properties record and renders it — pretty when the query string carries a
//! `pretty` key — as `application/json`; a missing context is the handler's
//! one failure.  Every other path gets a fixed plain-text hint, whatever the
//! query string says.

use vstd::prelude::*;
use vstd::string::StringExecFns;
use crate::json::{compact_json, pretty_json};
use crate::props::{GeoContext, GeoContextView, GeoError, GeoProperties, props_of};
use crate::query::{has_query_key, query_has_pretty};
use crate::text::str_eq;

verus! {

/// A finished HTTP response: status, optional content type, body.
pub struct HttpResponse {
    pub status: u16,
    pub content_type: Option<String>,
    pub body: String,
}

/// Spec-level image of [`HttpResponse`].
pub struct HttpResponseView {
    pub status: u16,
    pub content_type: Option<Seq<char>>,
    pub body: Seq<char>,
}

impl View for HttpResponse {
    type V = HttpResponseView;

    open spec fn view(&self) -> HttpResponseView {
        HttpResponseView {
            status: self.status,
            content_type: crate::props::opt_text(&self.content_type),
            body: self.body@,
        }
    }
}

/// The view of the context argument, if one was supplied.
pub open spec fn opt_context(o: &Option<GeoContext>) -> Option<GeoContextView> {
    match o {
        Some(c) => Some(c@),
        None => None,
    }
}

/// The response for a path that is not `/v1.json`.
pub open spec fn fallback_response() -> HttpResponseView {
    HttpResponseView { status: 200, content_type: None, body: "geoip.pls - try /v1.json"@ }
}

/// What the handler answers, as a function of the whole request: the
/// fallback for unknown paths; otherwise an error without a context, the
/// context's own build error if its coordinates are malformed, and else a
/// 200 `application/json` response whose body is the compact or pretty
/// rendering as the query string directs.
pub open spec fn response_of(
    path: Seq<char>,
    q: Seq<char>,
    ctx: Option<GeoContextView>,
) -> Result<HttpResponseView, GeoError> {
    if path != "/v1.json"@ {
        Ok(fallback_response())
    } else {
        match ctx {
            None => Err(GeoError::ContextUnavailable),
            Some(c) => match props_of(c) {
                Err(e) => Err(e),
                Ok(p) => Ok(
                    HttpResponseView {
                        status: 200,
                        content_type: Some("application/json"@),
                        body: if has_query_key(q, "pretty"@) {
                            pretty_json(p)
                        } else {
                            compact_json(p)
                        },
                    },
                ),
            },
        }
    }
}

/// Answer one request.
pub fn handle(path: &str, q: &str, ctx: Option<GeoContext>) -> (r: Result<
    HttpResponse,
    GeoError,
>)
    ensures
        r is Ok <==> response_of(path@, q@, opt_context(&ctx)) is Ok,
        r is Ok ==> r->Ok_0@ == response_of(path@, q@, opt_context(&ctx))->Ok_0,
        r is Err ==> r->Err_0 == response_of(path@, q@, opt_context(&ctx))->Err_0,
{
    if !str_eq(path, "/v1.json") {
        return Ok(
            HttpResponse {
                status: 200,
                content_type: None,
                body: String::from_str("geoip.pls - try /v1.json"),
            },
        );
    }
    match &ctx {
        None => Err(GeoError::ContextUnavailable),
        Some(c) => {
            match GeoProperties::from_context(c) {
                Err(e) => Err(e),
                Ok(props) => {
                    let body = if query_has_pretty(q) {
                        props.to_json_pretty()
                    } else {
                        props.to_json()
                    };
                    Ok(
                        HttpResponse {
                            status: 200,
                            content_type: Some(String::from_str("application/json")),
                            body,
                        },
                    )
                },
            }
        },
    }
}

} // verus!
