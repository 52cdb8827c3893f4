//! A simulated node described by the value types of `graph::types`.

use vstd::prelude::*;

use super::types::{HopLimit, Id, TcpPort};
use crate::simulation::point::Point;
use crate::text::{local_address, local_address_string};

verus! {

/// A node of the simulated mesh whose identity, ports and hop limit carry their own
/// types. `hw_id` is the radio's mesh node number.
#[derive(Clone, Debug)]
pub struct Node {
    pub id: Id,
    pub hw_id: u32,
    pub docker_tcp_port: TcpPort,
    pub client_tcp_port: TcpPort,

    pub location: Point,
    pub is_router: bool,
    pub is_repeater: bool,
    pub hop_limit: HopLimit,
}

impl Node {
    /// A node with the given identity, ports and location, acting neither as router
    /// nor as repeater; its hop limit is the one given, or 3 (`DEFAULT_HOP_LIMIT`) when
    /// none is.
    pub fn new(
        id: Id,
        hw_id: u32,
        docker_tcp_port: TcpPort,
        client_tcp_port: TcpPort,
        location: Point,
        hop_limit: Option<HopLimit>,
    ) -> (res: Self)
        ensures
            res.id == id,
            res.hw_id == hw_id,
            res.docker_tcp_port == docker_tcp_port,
            res.client_tcp_port == client_tcp_port,
            res.location == location,
            !res.is_router,
            !res.is_repeater,
            res.hop_limit.value() == match hop_limit {
                Some(h) => h.value(),
                None => 3,
            },
    {
        let hop_limit = match hop_limit {
            Some(h) => h,
            None => HopLimit::default(),
        };
        Node {
            id,
            hw_id,
            docker_tcp_port,
            client_tcp_port,
            location,
            is_router: false,
            is_repeater: false,
            hop_limit,
        }
    }

    /// The address of the node's radio daemon: `localhost:<docker_tcp_port>`.
    pub fn get_full_docker_tcp_address(&self) -> (res: String)
        ensures
            res@ == local_address(self.docker_tcp_port.value() as nat),
    {
        local_address_string(self.docker_tcp_port.data())
    }

    /// The address under which clients reach the node: `localhost:<client_tcp_port>`.
    pub fn get_full_client_tcp_address(&self) -> (res: String)
        ensures
            res@ == local_address(self.client_tcp_port.value() as nat),
    {
        local_address_string(self.client_tcp_port.data())
    }
}

} // verus!
