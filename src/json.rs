//! The JSON bodies of the tunnel endpoint. The object framing is written here;
//! string values are encoded by serde_json.
use vstd::prelude::*;
use crate::text::{decimal, push_decimal};
use crate::tunnel::{public_url_of, TunnelInfo, TunnelInfoView};

verus! {

/// The compact JSON string literal that serde_json writes for `s`: quoted,
/// with quotes, backslashes and control characters escaped.
pub uninterp spec fn json_string_of(s: Seq<char>) -> Seq<char>;

/// Relies on serde_json's `Display` for `Value::String`, which writes the
/// compact JSON encoding of the string and depends on the string alone.
#[verifier::external_body]
fn json_string(s: &str) -> (r: String)
    ensures
        r@ == json_string_of(s@),
{
    serde_json::Value::String(s.to_string()).to_string()
}

/// The body of the "connected" answer, from the already encoded string values
/// of `server` and `public_url` and the port.
pub open spec fn connected_frame(server_json: Seq<char>, remote_port: u16, url_json: Seq<char>) -> Seq<char> {
    "{\"status\":\"connected\",\"server\":"@ + server_json + ",\"remote_port\":"@
        + decimal(remote_port as nat) + ",\"public_url\":"@ + url_json + "}"@
}

/// The body of the "connected" answer for a tunnel record.
pub open spec fn connected_body_of(info: TunnelInfoView) -> Seq<char> {
    connected_frame(
        json_string_of(info.server_addr),
        info.remote_port,
        json_string_of(public_url_of(info)),
    )
}

/// The body of the answer given while no tunnel is established.
pub open spec fn not_connected_body() -> Seq<char> {
    "{\"status\":\"not_connected\",\"error\":\"Tunnel not established yet\"}"@
}

/// The body of the health answer.
pub open spec fn health_body() -> Seq<char> {
    "{\"status\":\"ok\"}"@
}

/// Writes the "connected" object around already encoded string values.
pub fn frame_connected(server_json: &str, remote_port: u16, url_json: &str) -> (r: String)
    ensures
        r@ == connected_frame(server_json@, remote_port, url_json@),
{
    let mut body = String::from_str("{\"status\":\"connected\",\"server\":");
    body.append(server_json);
    body.append(",\"remote_port\":");
    push_decimal(&mut body, remote_port);
    body.append(",\"public_url\":");
    body.append(url_json);
    body.append("}");
    body
}

/// The JSON body reporting a connected tunnel: its status, server, remote
/// port and public address.
pub fn connected_body(info: &TunnelInfo) -> (r: String)
    ensures
        r@ == connected_body_of(info@),
{
    let server_json = json_string(info.server_addr.as_str());
    let url = info.public_url();
    let url_json = json_string(url.as_str());
    frame_connected(server_json.as_str(), info.remote_port, url_json.as_str())
}

/// The JSON body reporting that no tunnel is established yet.
pub fn not_connected() -> (r: String)
    ensures
        r@ == not_connected_body(),
{
    String::from_str("{\"status\":\"not_connected\",\"error\":\"Tunnel not established yet\"}")
}

/// The JSON body of the health answer.
pub fn health() -> (r: String)
    ensures
        r@ == health_body(),
{
    String::from_str("{\"status\":\"ok\"}")
}

} // verus!
