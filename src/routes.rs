//! Dispatch of requests by method and path, and the responses of the endpoint.
use vstd::prelude::*;
use crate::json::{connected_body, connected_body_of, health, health_body, not_connected, not_connected_body};
use crate::text::same_text;
use crate::tunnel::{snapshot_view, TunnelInfo, TunnelInfoView};

verus! {

pub const STATUS_OK: u16 = 200;

pub const STATUS_NOT_FOUND: u16 = 404;

pub const STATUS_SERVICE_UNAVAILABLE: u16 = 503;

/// What a request asks for, decided by its method and path alone.
#[derive(Clone, Copy, Debug, PartialEq, Eq, Structural)]
pub enum Route {
    /// `GET /api/tunnel`
    TunnelStatus,
    /// `GET /health`
    Health,
    /// Any other method or path.
    NotFound,
}

/// The route of a request with the given method and path.
pub open spec fn route_of(method: Seq<char>, path: Seq<char>) -> Route {
    if method == "GET"@ && path == "/api/tunnel"@ {
        Route::TunnelStatus
    } else if method == "GET"@ && path == "/health"@ {
        Route::Health
    } else {
        Route::NotFound
    }
}

impl Route {
    /// Dispatches on the method and the path of a request.
    pub fn of(method: &str, path: &str) -> (r: Route)
        ensures
            r == route_of(method@, path@),
    {
        if same_text(method, "GET") {
            if same_text(path, "/api/tunnel") {
                return Route::TunnelStatus;
            } else if same_text(path, "/health") {
                return Route::Health;
            }
        }
        Route::NotFound
    }

    /// Whether answering this route needs a snapshot of the tunnel state.
    pub fn reads_tunnel_state(&self) -> (r: bool)
        ensures
            r == (*self == Route::TunnelStatus),
    {
        match self {
            Route::TunnelStatus => true,
            _ => false,
        }
    }
}

/// The media type of a response body.
#[derive(Clone, Copy, Debug, PartialEq, Eq, Structural)]
pub enum ContentType {
    Json,
    PlainText,
}

/// The `Content-Type` header value of a media type.
pub open spec fn mime_of(content_type: ContentType) -> Seq<char> {
    match content_type {
        ContentType::Json => "application/json"@,
        ContentType::PlainText => "text/plain"@,
    }
}

impl ContentType {
    /// The `Content-Type` header value.
    pub fn mime(&self) -> (r: &'static str)
        ensures
            r@ == mime_of(*self),
    {
        match self {
            ContentType::Json => "application/json",
            ContentType::PlainText => "text/plain",
        }
    }
}

/// An answer of the endpoint: status code, media type and body.
pub struct ApiResponse {
    pub status: u16,
    pub content_type: ContentType,
    pub body: String,
}

/// The mathematical value of an [`ApiResponse`].
pub struct ApiResponseView {
    pub status: u16,
    pub content_type: ContentType,
    pub body: Seq<char>,
}

impl View for ApiResponse {
    type V = ApiResponseView;

    open spec fn view(&self) -> ApiResponseView {
        ApiResponseView { status: self.status, content_type: self.content_type, body: self.body@ }
    }
}

/// The answer to `GET /api/tunnel` over a snapshot of the tunnel state.
pub open spec fn tunnel_response(snapshot: Option<TunnelInfoView>) -> ApiResponseView {
    match snapshot {
        Some(info) => ApiResponseView {
            status: STATUS_OK,
            content_type: ContentType::Json,
            body: connected_body_of(info),
        },
        None => ApiResponseView {
            status: STATUS_SERVICE_UNAVAILABLE,
            content_type: ContentType::Json,
            body: not_connected_body(),
        },
    }
}

/// The answer to `GET /health`.
pub open spec fn health_response() -> ApiResponseView {
    ApiResponseView { status: STATUS_OK, content_type: ContentType::Json, body: health_body() }
}

/// The answer to any other request.
pub open spec fn not_found_response() -> ApiResponseView {
    ApiResponseView {
        status: STATUS_NOT_FOUND,
        content_type: ContentType::PlainText,
        body: "Not Found"@,
    }
}

/// The answer for a route over a snapshot of the tunnel state; only the
/// tunnel route looks at the snapshot.
pub open spec fn response_for(route: Route, snapshot: Option<TunnelInfoView>) -> ApiResponseView {
    match route {
        Route::TunnelStatus => tunnel_response(snapshot),
        Route::Health => health_response(),
        Route::NotFound => not_found_response(),
    }
}

/// Answers a request for `route`, reading the tunnel state from `snapshot`.
pub fn respond(route: Route, snapshot: Option<&TunnelInfo>) -> (r: ApiResponse)
    ensures
        r@ == response_for(route, snapshot_view(snapshot)),
{
    match route {
        Route::TunnelStatus => match snapshot {
            Some(info) => ApiResponse {
                status: STATUS_OK,
                content_type: ContentType::Json,
                body: connected_body(info),
            },
            None => ApiResponse {
                status: STATUS_SERVICE_UNAVAILABLE,
                content_type: ContentType::Json,
                body: not_connected(),
            },
        },
        Route::Health => ApiResponse {
            status: STATUS_OK,
            content_type: ContentType::Json,
            body: health(),
        },
        Route::NotFound => ApiResponse {
            status: STATUS_NOT_FOUND,
            content_type: ContentType::PlainText,
            body: String::from_str("Not Found"),
        },
    }
}

/// Answers a request given by its method and path, over a snapshot of the
/// tunnel state.
pub fn handle(method: &str, path: &str, snapshot: Option<&TunnelInfo>) -> (r: ApiResponse)
    ensures
        r@ == response_for(route_of(method@, path@), snapshot_view(snapshot)),
{
    respond(Route::of(method, path), snapshot)
}

} // verus!
