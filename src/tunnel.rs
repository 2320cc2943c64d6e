//! The tunnel endpoint record that the status endpoint reports on.
use vstd::prelude::*;
use crate::text::{decimal, push_decimal};

verus! {

/// Tunnel information exposed via the API: where the tunnel server is and
/// which port it assigned on its side.
#[derive(Clone)]
pub struct TunnelInfo {
    pub server_addr: String,
    pub remote_port: u16,
}

/// The mathematical value of a [`TunnelInfo`].
pub struct TunnelInfoView {
    pub server_addr: Seq<char>,
    pub remote_port: u16,
}

impl View for TunnelInfo {
    type V = TunnelInfoView;

    open spec fn view(&self) -> TunnelInfoView {
        TunnelInfoView { server_addr: self.server_addr@, remote_port: self.remote_port }
    }
}

/// The address under which the tunnel is reachable: `<server>:<remote_port>`.
pub open spec fn public_url_of(info: TunnelInfoView) -> Seq<char> {
    info.server_addr + seq![':'] + decimal(info.remote_port as nat)
}

/// The value of an optional snapshot of the tunnel state.
pub open spec fn snapshot_view(snapshot: Option<&TunnelInfo>) -> Option<TunnelInfoView> {
    match snapshot {
        Some(info) => Some(info@),
        None => None,
    }
}

impl TunnelInfo {
    /// Builds the record from its two parts.
    pub fn new(server_addr: String, remote_port: u16) -> (r: TunnelInfo)
        ensures
            r@ == (TunnelInfoView { server_addr: server_addr@, remote_port }),
    {
        TunnelInfo { server_addr, remote_port }
    }

    /// The public address of the tunnel, `<server>:<remote_port>`.
    pub fn public_url(&self) -> (r: String)
        ensures
            r@ == public_url_of(self@),
    {
        let mut url = self.server_addr.clone();
        url.append(":");
        proof {
            reveal_strlit(":");
        }
        push_decimal(&mut url, self.remote_port);
        url
    }
}

} // verus!
