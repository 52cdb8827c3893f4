//! The single-container simulation: one radio daemon in one container, whose id the
//! simulation keeps until cleanup.

use vstd::prelude::*;

use super::engine::PortBinding;
use crate::text::{decimal, push_decimal};

verus! {

/// The mesh node number of the simulated radio.
pub const SIMULATED_HW_ID: u32 = 17;

/// The index of the simulated radio's home and log directories.
pub const SIMULATED_NODE_INDEX: u32 = 1;

/// The TCP port of the simulated radio's daemon, inside and outside the container.
pub const SIMULATED_TCP_PORT: u32 = 4403;

/// The image the simulation runs.
pub open spec fn simulator_image() -> Seq<char> {
    "meshtastic/device-simulator"@
}

/// The shell line that starts the simulated radio and logs its output.
pub open spec fn simulator_command_line() -> Seq<char> {
    "./meshtasticd_linux_amd64 -d /home/node"@ + decimal(SIMULATED_NODE_INDEX as nat) + " -h "@
        + decimal(SIMULATED_HW_ID as nat) + " -p "@ + decimal(SIMULATED_TCP_PORT as nat)
        + " > /home/out_"@ + decimal(SIMULATED_NODE_INDEX as nat) + ".log"@
}

/// The message with which cleanup fails when no container was created.
pub open spec fn no_primary_node_message() -> Seq<char> {
    "No set primary node id"@
}

/// Everything the container runtime needs to start the simulated radio.
#[derive(Clone, Debug)]
pub struct SimulationInitPlan {
    /// The image to pull and run.
    pub image: String,
    /// Whether the container gets a terminal.
    pub tty: bool,
    /// The published daemon port.
    pub port_binding: PortBinding,
    /// The command run in the started container.
    pub exec_cmd: Vec<String>,
    /// The user that runs it.
    pub exec_user: String,
    /// Whether its standard output and error are attached.
    pub attach_output: bool,
    /// Whether it is started detached.
    pub detach: bool,
}

/// A simulation of one radio, holding the id of its container once created.
pub struct SimulationEngine {
    primary_node_id: Option<String>,
}

impl SimulationEngine {
    /// The id of the container of the simulated radio, if one was created.
    pub closed spec fn primary_node(&self) -> Option<Seq<char>> {
        match self.primary_node_id {
            Some(id) => Some(id@),
            None => None,
        }
    }

    /// A simulation without a container.
    pub fn new() -> (res: Self)
        ensures
            res.primary_node() is None,
    {
        SimulationEngine { primary_node_id: None }
    }

    /// The plan of the simulated radio's container: the simulator image with a
    /// terminal, port 4403 published on `0.0.0.0`, and the daemon started detached
    /// by `root` with its output logged.
    pub fn init_plan(&self) -> (res: SimulationInitPlan)
        ensures
            res.image@ == simulator_image(),
            res.tty,
            res.port_binding.container_port@ == decimal(SIMULATED_TCP_PORT as nat) + "/tcp"@,
            res.port_binding.host_ip@ == "0.0.0.0"@,
            res.port_binding.host_port@ == decimal(SIMULATED_TCP_PORT as nat),
            res.exec_cmd.deep_view() == seq!["/bin/sh"@, "-c"@, simulator_command_line()],
            res.exec_user@ == "root"@,
            res.attach_output,
            res.detach,
    {
        let mut container_port = String::new();
        push_decimal(&mut container_port, SIMULATED_TCP_PORT as u64);
        container_port.append("/tcp");
        let mut host_port = String::new();
        push_decimal(&mut host_port, SIMULATED_TCP_PORT as u64);
        let mut line = String::from_str("./meshtasticd_linux_amd64 -d /home/node");
        push_decimal(&mut line, SIMULATED_NODE_INDEX as u64);
        line.append(" -h ");
        push_decimal(&mut line, SIMULATED_HW_ID as u64);
        line.append(" -p ");
        push_decimal(&mut line, SIMULATED_TCP_PORT as u64);
        line.append(" > /home/out_");
        push_decimal(&mut line, SIMULATED_NODE_INDEX as u64);
        line.append(".log");
        let mut exec_cmd: Vec<String> = Vec::new();
        exec_cmd.push(String::from_str("/bin/sh"));
        exec_cmd.push(String::from_str("-c"));
        exec_cmd.push(line);
        assert(exec_cmd.deep_view() =~= seq!["/bin/sh"@, "-c"@, simulator_command_line()]);
        SimulationInitPlan {
            image: String::from_str("meshtastic/device-simulator"),
            tty: true,
            port_binding: PortBinding {
                container_port,
                host_ip: String::from_str("0.0.0.0"),
                host_port,
            },
            exec_cmd,
            exec_user: String::from_str("root"),
            attach_output: true,
            detach: true,
        }
    }

    /// Records the id of the simulated radio's container once it has been created.
    pub fn record_primary_node(&mut self, container_id: String)
        ensures
            final(self).primary_node() == Some(container_id@),
    {
        self.primary_node_id = Some(container_id);
    }

    /// Hands out the id of the container for its removal and forgets it; fails when
    /// no container was created.
    pub fn take_primary_node_id(&mut self) -> (res: Result<String, String>)
        ensures
            res is Ok <==> old(self).primary_node() is Some,
            res matches Ok(id) ==> old(self).primary_node() == Some(id@),
            res matches Err(e) ==> e@ == no_primary_node_message(),
            final(self).primary_node() is None,
    {
        match self.primary_node_id.take() {
            Some(id) => Ok(id),
            None => Err(String::from_str("No set primary node id")),
        }
    }
}

} // verus!
