//! A simulated node described by plain numbers.

use vstd::prelude::*;

use crate::simulation::point::Point;
use crate::text::{local_address, local_address_string};

verus! {

/// The hop limit a node starts with (3 bytes max in firmware).
pub const INITIAL_HOP_LIMIT: u8 = 3;

/// A node of the simulated mesh: who it is, where its radio daemon listens and
/// where it stands on the simulation plane.
#[derive(Clone, Debug, PartialEq, Eq, Structural)]
pub struct Node {
    pub id: u32,
    pub hw_id: u32,
    pub docker_tcp_port: u32,
    pub client_tcp_port: u32,

    pub location: Point,
    pub is_router: bool,
    pub is_repeater: bool,
    pub hop_limit: u8,
}

impl Node {
    /// A node with the given identity, ports and location, acting neither as router
    /// nor as repeater, with hop limit `INITIAL_HOP_LIMIT`.
    pub fn new(
        id: u32,
        hw_id: u32,
        docker_tcp_port: u32,
        client_tcp_port: u32,
        location: Point,
    ) -> (res: Self)
        ensures
            res.id == id,
            res.hw_id == hw_id,
            res.docker_tcp_port == docker_tcp_port,
            res.client_tcp_port == client_tcp_port,
            res.location == location,
            !res.is_router,
            !res.is_repeater,
            res.hop_limit == 3,
    {
        Node {
            id,
            hw_id,
            docker_tcp_port,
            client_tcp_port,
            location,
            is_router: false,
            is_repeater: false,
            hop_limit: INITIAL_HOP_LIMIT,
        }
    }

    /// The address of the node's radio daemon: `localhost:<docker_tcp_port>`.
    pub fn get_full_docker_tcp_address(&self) -> (res: String)
        ensures
            res@ == local_address(self.docker_tcp_port as nat),
    {
        local_address_string(self.docker_tcp_port)
    }

    /// The address under which clients reach the node: `localhost:<client_tcp_port>`.
    pub fn get_full_client_tcp_address(&self) -> (res: String)
        ensures
            res@ == local_address(self.client_tcp_port as nat),
    {
        local_address_string(self.client_tcp_port)
    }
}

} // verus!
