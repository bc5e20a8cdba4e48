//! What the routes do.

pub mod extraction;
pub mod tasks;

use crate::client::Client;
use crate::ip::{is_let_in, peer_address, IpAddress};
use crate::server::{AuthContext, StatusCode};
use vstd::prelude::*;

verus! {

/// The route on which clients launch scripts.
pub struct TasksHandler;

impl TasksHandler {
    /// Decides whether an authenticated client may go on to a connection from
    /// where it comes: the address that a proxy forwarded, or else that of the
    /// connection. A client that may not is turned away as forbidden.
    pub fn attach(
        context: AuthContext,
        forwarded: Option<IpAddress>,
        connection: Option<IpAddress>,
    ) -> (result: Result<(Client, u32), StatusCode>)
        ensures
            match context {
                AuthContext::Worker(worker) => {
                    let address = if forwarded is Some {
                        forwarded
                    } else {
                        connection
                    };
                    result == (if crate::ip::lets_in(
                        worker.client.whitelisted_ips,
                        worker.client.blacklisted_ips,
                        address,
                    ) {
                        Ok((worker.client, worker.protocol_version))
                    } else {
                        Err(StatusCode::Forbidden)
                    })
                },
            },
    {
        let AuthContext::Worker(worker) = context;
        let address = peer_address(forwarded, connection);
        if is_let_in(&worker.client.whitelisted_ips, &worker.client.blacklisted_ips, &address) {
            Ok((worker.client, worker.protocol_version))
        } else {
            Err(StatusCode::Forbidden)
        }
    }
}

} // verus!
