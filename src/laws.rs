//! What holds of the endpoint's answers over every request and every state
//! of the tunnel record.
use vstd::prelude::*;
use crate::json::{connected_body_of, connected_frame, json_string_of};
use crate::routes::{response_for, route_of, ApiResponseView, ContentType, Route};
use crate::text::decimal;
use crate::tunnel::TunnelInfoView;

verus! {

/// Once a tunnel `(server_addr, remote_port)` is recorded, `GET /api/tunnel`
/// answers 200 with a JSON body that echoes the server and the port unchanged
/// and gives `public_url` as `server_addr`, a colon and the port in decimal.
pub proof fn lemma_recorded_tunnel_is_reported(server_addr: Seq<char>, remote_port: u16)
    ensures
        response_for(
            route_of("GET"@, "/api/tunnel"@),
            Some(TunnelInfoView { server_addr, remote_port }),
        ) == (ApiResponseView {
            status: 200,
            content_type: ContentType::Json,
            body: connected_frame(
                json_string_of(server_addr),
                remote_port,
                json_string_of(server_addr + seq![':'] + decimal(remote_port as nat)),
            ),
        }),
{
}

/// While no tunnel is recorded, `GET /api/tunnel` answers 503 with the
/// "not connected" JSON body.
pub proof fn lemma_unrecorded_tunnel_is_unavailable()
    ensures
        response_for(route_of("GET"@, "/api/tunnel"@), None) == (ApiResponseView {
            status: 503,
            content_type: ContentType::Json,
            body: "{\"status\":\"not_connected\",\"error\":\"Tunnel not established yet\"}"@,
        }),
{
}

/// `GET /health` answers 200 with `{"status":"ok"}` whatever the tunnel state.
pub proof fn lemma_health_ignores_tunnel_state(snapshot: Option<TunnelInfoView>)
    ensures
        response_for(route_of("GET"@, "/health"@), snapshot) == (ApiResponseView {
            status: 200,
            content_type: ContentType::Json,
            body: "{\"status\":\"ok\"}"@,
        }),
{
    reveal_strlit("/health");
    reveal_strlit("/api/tunnel");
    assert("/health"@.len() != "/api/tunnel"@.len());
}

/// Every request other than `GET /api/tunnel` and `GET /health`, whatever the
/// tunnel state, is answered 404 with the plain text `Not Found`.
pub proof fn lemma_other_requests_not_found(
    method: Seq<char>,
    path: Seq<char>,
    snapshot: Option<TunnelInfoView>,
)
    requires
        !(method == "GET"@ && (path == "/api/tunnel"@ || path == "/health"@)),
    ensures
        response_for(route_of(method, path), snapshot) == (ApiResponseView {
            status: 404,
            content_type: ContentType::PlainText,
            body: "Not Found"@,
        }),
{
}

/// The answer depends on the request and the tunnel record alone: asking
/// again with no new record in between gives the identical answer.
pub proof fn lemma_repeated_requests_agree(
    method: Seq<char>,
    path: Seq<char>,
    first: Option<TunnelInfoView>,
    second: Option<TunnelInfoView>,
)
    requires
        first == second,
    ensures
        response_for(route_of(method, path), first) == response_for(route_of(method, path), second),
{
}

/// An answer to `GET /api/tunnel` made while `old` is being replaced by `new`
/// is rendered from whichever whole record the reader was handed: it is the
/// answer for `old` or the answer for `new`, each with both fields of that
/// one record.
pub proof fn lemma_answer_from_one_record(
    old_info: TunnelInfoView,
    new_info: TunnelInfoView,
    observed: TunnelInfoView,
)
    requires
        observed == old_info || observed == new_info,
    ensures
        response_for(Route::TunnelStatus, Some(observed)).body == connected_body_of(old_info)
            || response_for(Route::TunnelStatus, Some(observed)).body == connected_body_of(new_info),
        response_for(Route::TunnelStatus, Some(observed)).status == 200,
{
}

} // verus!
