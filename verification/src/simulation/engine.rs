//! The engine's bookkeeping: the nodes it simulates, the container that hosts their
//! radio daemons, and the plans it hands to the container runtime and the radio
//! connections.

use vstd::prelude::*;

use super::point::Point;
use super::rectangle::Rectangle;
use crate::graph::node::{Node, INITIAL_HOP_LIMIT};
use crate::text::{
    decimal, lemma_decimal_injective, lemma_decimal_then_space_splits_uniquely, local_address, local_address_string, push_decimal,
};

verus! {

/// Width of the simulation plane.
pub const SIMULATION_WIDTH: u32 = 100;

/// Height of the simulation plane.
pub const SIMULATION_HEIGHT: u32 = 100;

/// Node `i` runs its radio with mesh node number `i + HW_ID_OFFSET`.
pub const HW_ID_OFFSET: u32 = 16;

/// Node `i` serves its radio daemon on TCP port `i + TCP_PORT_OFFSET`.
pub const TCP_PORT_OFFSET: u32 = 4403;

/// The local port on which the engine listens for client applications; every node
/// records it as its client port.
pub const CLIENT_LISTENER_PORT: u32 = 4402;

/// The user that runs the radio daemons in the host container.
pub open spec fn container_user() -> Seq<char> {
    "mesh"@
}

/// The host IP to which the node ports are published.
pub open spec fn published_host_ip() -> Seq<char> {
    "0.0.0.0"@
}

/// The rectangle on which the engine places its nodes.
pub open spec fn simulation_bounds() -> Rectangle {
    Rectangle { origin: Point { x: 0, y: 0 }, width: SIMULATION_WIDTH, height: SIMULATION_HEIGHT }
}

/// Ids, mesh node numbers and ports of `num_nodes` nodes all fit in `u32`.
pub open spec fn node_count_fits(num_nodes: nat) -> bool {
    num_nodes + TCP_PORT_OFFSET <= u32::MAX + 1
}

/// `node` is the `i`-th node the engine lays out on `bounds`.
pub open spec fn node_laid_out(node: Node, i: int, bounds: Rectangle) -> bool {
    &&& node.id == i
    &&& node.hw_id == i + HW_ID_OFFSET
    &&& node.docker_tcp_port == i + TCP_PORT_OFFSET
    &&& node.client_tcp_port == CLIENT_LISTENER_PORT
    &&& bounds.spec_interior_sample(node.location)
    &&& !node.is_router
    &&& !node.is_repeater
    &&& node.hop_limit == INITIAL_HOP_LIMIT
}

/// `nodes` are the nodes `0, 1, ..` laid out on `bounds`.
pub open spec fn nodes_laid_out(nodes: Seq<Node>, bounds: Rectangle) -> bool {
    forall|i: int| 0 <= i < nodes.len() ==> #[trigger] node_laid_out(nodes[i], i, bounds)
}

/// The shell line that starts the radio daemon of `node`.
pub open spec fn run_node_command_line(node: Node) -> Seq<char> {
    "./meshtasticd_linux_amd64 -d /home/node"@ + decimal(node.id as nat) + " -h "@ + decimal(
        node.hw_id as nat,
    ) + " -p "@ + decimal(node.docker_tcp_port as nat)
}

/// The command, word by word, that starts the radio daemon of `node`.
pub open spec fn run_node_command(node: Node) -> Seq<Seq<char>> {
    seq!["sh"@, "-c"@, run_node_command_line(node)]
}

/// The container port `<port>/tcp` under which a node's daemon port is exposed.
pub open spec fn tcp_port_key(port: nat) -> Seq<char> {
    decimal(port) + "/tcp"@
}

/// The container port, host IP and host port of a published port.
pub open spec fn binding_parts(b: PortBinding) -> (Seq<char>, Seq<char>, Seq<char>) {
    (b.container_port@, b.host_ip@, b.host_port@)
}

/// How a node's daemon port is published: `<port>/tcp` on the host's `<port>` at
/// `0.0.0.0`.
pub open spec fn node_port_binding(node: Node) -> (Seq<char>, Seq<char>, Seq<char>) {
    (
        tcp_port_key(node.docker_tcp_port as nat),
        published_host_ip(),
        decimal(node.docker_tcp_port as nat),
    )
}

/// The nodes whose daemons are started in the host container after the first one
/// (whose daemon is the container's own command): those with an id other than 0.
pub open spec fn exec_nodes(nodes: Seq<Node>) -> Seq<Node> {
    nodes.filter(|n: Node| n.id != 0)
}

/// The message with which planning refuses an engine without nodes.
pub open spec fn no_first_node_message() -> Seq<char> {
    "Could not find first node"@
}

/// The message with which the client forwarding refuses an engine without nodes.
pub open spec fn no_client_node_message() -> Seq<char> {
    "Could not find first node, cannot configure client/radio forwarding"@
}

/// The message with which removing the host container fails when there is none.
pub open spec fn no_host_container_message() -> Seq<char> {
    "Engine does not have a host container id, cannot remove container"@
}

/// The text `<port>/tcp`.
fn tcp_port_key_string(port: u32) -> (res: String)
    ensures
        res@ == tcp_port_key(port as nat),
{
    let mut s = String::new();
    push_decimal(&mut s, port as u64);
    s.append("/tcp");
    s
}

/// A published port of the host container.
#[derive(Clone, Debug)]
pub struct PortBinding {
    /// The container port, `<port>/tcp`.
    pub container_port: String,
    /// The host IP the port is published on.
    pub host_ip: String,
    /// The host port, `<port>`.
    pub host_port: String,
}

/// Everything the container runtime needs to pull, create and populate the host
/// container of the simulated nodes.
#[derive(Clone, Debug)]
pub struct HostContainerPlan {
    /// The image to pull and run.
    pub image_name: String,
    /// The tag of the image to pull.
    pub tag: String,
    /// The container ports to expose, one per node, in node order.
    pub exposed_ports: Vec<String>,
    /// The published ports, one per node, in node order.
    pub port_bindings: Vec<PortBinding>,
    /// The container's own command: the radio daemon of the first node.
    pub cmd: Vec<String>,
    /// The user that runs the command and the execs.
    pub user: String,
    /// Whether the container gets a terminal.
    pub tty: bool,
    /// Whether the runtime removes the container once it stops.
    pub auto_remove: bool,
    /// The commands run in the started container: the radio daemons of the other
    /// nodes, in node order.
    pub exec_cmds: Vec<Vec<String>>,
    /// Whether those commands are started detached.
    pub exec_detach: bool,
}

/// What the engine holds of its simulation, apart from the runtime handles.
pub struct EngineView {
    pub host_container_id: Option<Seq<char>>,
    pub simulation_bounds: Rectangle,
    pub nodes: Seq<Node>,
}

/// The simulation the engine runs: its nodes, the plane they stand on, and the
/// container that hosts them once it has been created.
pub struct Engine {
    host_container_id: Option<String>,
    simulation_bounds: Rectangle,
    nodes: Vec<Node>,
}

impl View for Engine {
    type V = EngineView;

    closed spec fn view(&self) -> EngineView {
        EngineView {
            host_container_id: match self.host_container_id {
                Some(id) => Some(id@),
                None => None,
            },
            simulation_bounds: self.simulation_bounds,
            nodes: self.nodes@,
        }
    }
}

impl Engine {
    /// The words of the command that starts the radio daemon of `node`.
    pub fn format_run_node_command(node: &Node) -> (res: Vec<String>)
        ensures
            res.deep_view() == run_node_command(*node),
    {
        let mut line = String::from_str("./meshtasticd_linux_amd64 -d /home/node");
        push_decimal(&mut line, node.id as u64);
        line.append(" -h ");
        push_decimal(&mut line, node.hw_id as u64);
        line.append(" -p ");
        push_decimal(&mut line, node.docker_tcp_port as u64);
        let mut res: Vec<String> = Vec::new();
        res.push(String::from_str("sh"));
        res.push(String::from_str("-c"));
        res.push(line);
        assert(res.deep_view() =~= run_node_command(*node));
        res
    }

    /// Lays out `num_nodes` nodes: node `i` gets id `i`, mesh node number
    /// `i + HW_ID_OFFSET`, daemon port `i + TCP_PORT_OFFSET`, client port
    /// `CLIENT_LISTENER_PORT` and a random location inside `bounding_box`.
    pub fn initialize_nodes(num_nodes: usize, bounding_box: &Rectangle) -> (res: Vec<Node>)
        requires
            node_count_fits(num_nodes as nat),
            bounding_box.can_sample(),
        ensures
            res@.len() == num_nodes,
            nodes_laid_out(res@, *bounding_box),
    {
        let mut nodes: Vec<Node> = Vec::new();
        let mut id: usize = 0;
        while id < num_nodes
            invariant
                node_count_fits(num_nodes as nat),
                bounding_box.can_sample(),
                id <= num_nodes,
                nodes@.len() == id,
                nodes_laid_out(nodes@, *bounding_box),
            decreases num_nodes - id,
        {
            let location = bounding_box.get_random_contained_point();
            let node_id = id as u32;
            let node = Node::new(
                node_id,
                node_id + HW_ID_OFFSET,
                node_id + TCP_PORT_OFFSET,
                CLIENT_LISTENER_PORT,
                location,
            );
            nodes.push(node);
            assert(node_laid_out(nodes@[id as int], id as int, *bounding_box));
            id += 1;
        }
        nodes
    }

    /// The engine's nodes are laid out on its plane.
    pub open spec fn wf(&self) -> bool {
        nodes_laid_out(self@.nodes, self@.simulation_bounds)
    }

    /// An engine simulating `num_nodes` nodes laid out on the simulation plane, with
    /// no host container yet.
    pub fn new(num_nodes: usize) -> (res: Self)
        requires
            node_count_fits(num_nodes as nat),
        ensures
            res.wf(),
            res@.nodes.len() == num_nodes,
            res@.simulation_bounds == simulation_bounds(),
            res@.host_container_id is None,
    {
        let simulation_bounds = Rectangle {
            origin: Point { x: 0, y: 0 },
            width: SIMULATION_WIDTH,
            height: SIMULATION_HEIGHT,
        };
        let nodes = Engine::initialize_nodes(num_nodes, &simulation_bounds);
        Engine { host_container_id: None, simulation_bounds, nodes }
    }

    /// The simulated nodes, in id order.
    pub fn nodes(&self) -> (res: &Vec<Node>)
        ensures
            res@ == self@.nodes,
    {
        &self.nodes
    }

    /// The plan of the host container that runs the radio daemons of all nodes:
    /// every node's daemon port exposed and published on `0.0.0.0`, the first node's
    /// daemon as the container's command, the others' as detached execs, all run by
    /// the user `mesh`. Fails when the engine has no node.
    pub fn host_container_plan(&self, image_name: String, tag: String) -> (res: Result<
        HostContainerPlan,
        String,
    >)
        ensures
            res is Err <==> self@.nodes.len() == 0,
            res matches Err(e) ==> e@ == no_first_node_message(),
            res matches Ok(plan) ==> {
                &&& plan.image_name@ == image_name@
                &&& plan.tag@ == tag@
                &&& plan.exposed_ports.deep_view() == self@.nodes.map_values(
                    |n: Node| tcp_port_key(n.docker_tcp_port as nat),
                )
                &&& plan.port_bindings@.map_values(|b: PortBinding| binding_parts(b))
                    == self@.nodes.map_values(|n: Node| node_port_binding(n))
                &&& plan.cmd.deep_view() == run_node_command(self@.nodes[0])
                &&& plan.user@ == container_user()
                &&& plan.tty
                &&& plan.auto_remove
                &&& plan.exec_detach
                &&& plan.exec_cmds.deep_view() == exec_nodes(self@.nodes).map_values(
                    |n: Node| run_node_command(n),
                )
            },
    {
        let n = self.nodes.len();
        if n == 0 {
            return Err(String::from_str("Could not find first node"));
        }
        let ghost nodes = self@.nodes;
        let ghost pred = |x: Node| x.id != 0;
        let mut exposed_ports: Vec<String> = Vec::new();
        let mut port_bindings: Vec<PortBinding> = Vec::new();
        let mut exec_cmds: Vec<Vec<String>> = Vec::new();
        let mut i: usize = 0;
        while i < n
            invariant
                n == nodes.len(),
                nodes == self@.nodes,
                pred == (|x: Node| x.id != 0),
                i <= n,
                exposed_ports.deep_view() == nodes.take(i as int).map_values(
                    |m: Node| tcp_port_key(m.docker_tcp_port as nat),
                ),
                port_bindings@.map_values(|b: PortBinding| binding_parts(b)) == nodes.take(
                    i as int,
                ).map_values(|m: Node| node_port_binding(m)),
                exec_cmds.deep_view() == nodes.take(i as int).filter(pred).map_values(
                    |m: Node| run_node_command(m),
                ),
            decreases n - i,
        {
            let node = &self.nodes[i];
            let port = node.docker_tcp_port;
            let ghost before_exposed = exposed_ports.deep_view();
            let ghost before_bindings = port_bindings@.map_values(|b: PortBinding| binding_parts(b));
            exposed_ports.push(tcp_port_key_string(port));
            let mut host_port = String::new();
            push_decimal(&mut host_port, port as u64);
            port_bindings.push(
                PortBinding {
                    container_port: tcp_port_key_string(port),
                    host_ip: String::from_str("0.0.0.0"),
                    host_port,
                },
            );
            let ghost before = exec_cmds.deep_view();
            proof {
                let s1 = nodes.take(i + 1);
                assert(s1 =~= nodes.take(i as int).push(nodes[i as int]));
                assert(exposed_ports.deep_view() =~= before_exposed.push(
                    tcp_port_key(nodes[i as int].docker_tcp_port as nat),
                ));
                assert(exposed_ports.deep_view() =~= s1.map_values(
                    |m: Node| tcp_port_key(m.docker_tcp_port as nat),
                ));
                assert(port_bindings@.map_values(|b: PortBinding| binding_parts(b))
                    =~= before_bindings.push(node_port_binding(nodes[i as int])));
                assert(port_bindings@.map_values(|b: PortBinding| binding_parts(b))
                    =~= s1.map_values(|m: Node| node_port_binding(m)));
                assert(s1.drop_last() =~= nodes.take(i as int));
                assert(s1.last() == nodes[i as int]);
                reveal_with_fuel(Seq::<_>::filter, 1);
                assert(s1.filter(pred) == if pred(s1.last()) {
                    s1.drop_last().filter(pred).push(s1.last())
                } else {
                    s1.drop_last().filter(pred)
                });
            }
            if node.id != 0 {
                let cmd = Engine::format_run_node_command(node);
                exec_cmds.push(cmd);
                assert(exec_cmds.deep_view() =~= before.push(run_node_command(*node)));
            }
            assert(exec_cmds.deep_view() =~= nodes.take(i + 1).filter(pred).map_values(
                |m: Node| run_node_command(m),
            ));
            i += 1;
        }
        proof {
            assert(nodes.take(n as int) =~= nodes);
        }
        Ok(
            HostContainerPlan {
                image_name,
                tag,
                exposed_ports,
                port_bindings,
                cmd: Engine::format_run_node_command(&self.nodes[0]),
                user: String::from_str("mesh"),
                tty: true,
                auto_remove: true,
                exec_cmds,
                exec_detach: true,
            },
        )
    }

    /// Records the id of the host container once it has been created.
    pub fn record_host_container(&mut self, container_id: String)
        ensures
            final(self)@.host_container_id == Some(container_id@),
            final(self)@.nodes == old(self)@.nodes,
            final(self)@.simulation_bounds == old(self)@.simulation_bounds,
    {
        self.host_container_id = Some(container_id);
    }

    /// Hands out the id of the host container for its removal and forgets it; fails
    /// when there is no host container.
    pub fn take_host_container_id(&mut self) -> (res: Result<String, String>)
        ensures
            res is Ok <==> old(self)@.host_container_id is Some,
            res matches Ok(id) ==> old(self)@.host_container_id == Some(id@),
            res matches Err(e) ==> e@ == no_host_container_message(),
            final(self)@.host_container_id is None,
            final(self)@.nodes == old(self)@.nodes,
            final(self)@.simulation_bounds == old(self)@.simulation_bounds,
    {
        match self.host_container_id.take() {
            Some(id) => Ok(id),
            None => Err(
                String::from_str("Engine does not have a host container id, cannot remove container"),
            ),
        }
    }

    /// The mesh node number of the node that serves client applications: the first
    /// node's. Fails when the engine has no node.
    pub fn client_interface_hw_id(&self) -> (res: Result<u32, String>)
        ensures
            res is Err <==> self@.nodes.len() == 0,
            res matches Ok(hw_id) ==> hw_id == self@.nodes[0].hw_id,
            res matches Err(e) ==> e@ == no_client_node_message(),
    {
        if self.nodes.len() == 0 {
            Err(
                String::from_str(
                    "Could not find first node, cannot configure client/radio forwarding",
                ),
            )
        } else {
            Ok(self.nodes[0].hw_id)
        }
    }

    /// How the engine connects to each node's radio daemon, in node order: the
    /// daemon's address, the node's mesh node number, and whether the node relays
    /// the traffic of client applications (it does when its mesh node number is the
    /// first node's). Fails when the engine has no node.
    pub fn connection_plan(&self) -> (res: Result<Vec<NodeConnection>, String>)
        ensures
            res is Err <==> self@.nodes.len() == 0,
            res matches Err(e) ==> e@ == no_client_node_message(),
            res matches Ok(plan) ==> {
                &&& plan@.len() == self@.nodes.len()
                &&& forall|i: int|
                    0 <= i < self@.nodes.len() ==> {
                        &&& (#[trigger] plan@[i]).address@ == local_address(
                            self@.nodes[i].docker_tcp_port as nat,
                        )
                        &&& plan@[i].hw_id == self@.nodes[i].hw_id
                        &&& plan@[i].serves_client == (self@.nodes[i].hw_id
                            == self@.nodes[0].hw_id)
                    }
            },
    {
        let client_hw_id = match self.client_interface_hw_id() {
            Ok(hw_id) => hw_id,
            Err(e) => return Err(e),
        };
        let n = self.nodes.len();
        let mut plan: Vec<NodeConnection> = Vec::new();
        let mut i: usize = 0;
        while i < n
            invariant
                n == self@.nodes.len(),
                n > 0,
                client_hw_id == self@.nodes[0].hw_id,
                i <= n,
                plan@.len() == i,
                forall|j: int|
                    0 <= j < i ==> {
                        &&& (#[trigger] plan@[j]).address@ == local_address(
                            self@.nodes[j].docker_tcp_port as nat,
                        )
                        &&& plan@[j].hw_id == self@.nodes[j].hw_id
                        &&& plan@[j].serves_client == (self@.nodes[j].hw_id == client_hw_id)
                    },
            decreases n - i,
        {
            let node = &self.nodes[i];
            plan.push(
                NodeConnection {
                    address: local_address_string(node.docker_tcp_port),
                    hw_id: node.hw_id,
                    serves_client: node.hw_id == client_hw_id,
                },
            );
            i += 1;
        }
        Ok(plan)
    }
}

/// Laid-out nodes never clash and never leave their plane: distinct nodes have
/// distinct ids, mesh node numbers and daemon ports, and every node stands inside
/// the plane's rectangle.
pub proof fn lemma_laid_out_nodes_distinct(nodes: Seq<Node>, bounds: Rectangle)
    requires
        nodes_laid_out(nodes, bounds),
    ensures
        forall|i: int, j: int|
            0 <= i < nodes.len() && 0 <= j < nodes.len() && i != j ==> {
                &&& (#[trigger] nodes[i]).id != (#[trigger] nodes[j]).id
                &&& nodes[i].hw_id != nodes[j].hw_id
                &&& nodes[i].docker_tcp_port != nodes[j].docker_tcp_port
            },
        forall|i: int| 0 <= i < nodes.len() ==> bounds.spec_contains(#[trigger] nodes[i].location),
{
    assert forall|i: int, j: int|
        0 <= i < nodes.len() && 0 <= j < nodes.len() && i != j implies {
            &&& (#[trigger] nodes[i]).id != (#[trigger] nodes[j]).id
            &&& nodes[i].hw_id != nodes[j].hw_id
            &&& nodes[i].docker_tcp_port != nodes[j].docker_tcp_port
        } by {
        assert(node_laid_out(nodes[i], i, bounds));
        assert(node_laid_out(nodes[j], j, bounds));
    }
    assert forall|i: int| 0 <= i < nodes.len() implies bounds.spec_contains(
        #[trigger] nodes[i].location,
    ) by {
        assert(node_laid_out(nodes[i], i, bounds));
    }
}

/// The host container of laid-out nodes runs one radio daemon for each node: the
/// first node's as the container's command, and exactly the others', in order, as
/// execs.
pub proof fn lemma_every_node_started_once(nodes: Seq<Node>, bounds: Rectangle)
    requires
        nodes_laid_out(nodes, bounds),
        nodes.len() > 0,
    ensures
        exec_nodes(nodes) == nodes.subrange(1, nodes.len() as int),
    decreases nodes.len(),
{
    let pred = |n: Node| n.id != 0;
    reveal_with_fuel(Seq::<_>::filter, 2);
    assert(node_laid_out(nodes[0], 0, bounds));
    if nodes.len() == 1 {
        assert(nodes.drop_last() =~= Seq::<Node>::empty());
        assert(nodes.filter(pred) =~= Seq::<Node>::empty());
        assert(nodes.subrange(1, 1) =~= Seq::<Node>::empty());
    } else {
        let prefix = nodes.drop_last();
        assert forall|i: int| 0 <= i < prefix.len() implies #[trigger] node_laid_out(
            prefix[i],
            i,
            bounds,
        ) by {
            assert(node_laid_out(nodes[i], i, bounds));
        }
        lemma_every_node_started_once(prefix, bounds);
        assert(node_laid_out(nodes[nodes.len() - 1], nodes.len() - 1, bounds));
        assert(nodes.filter(pred) == prefix.filter(pred).push(nodes.last()));
        assert(nodes.subrange(1, nodes.len() as int) =~= prefix.subrange(
            1,
            prefix.len() as int,
        ).push(nodes.last()));
    }
}

/// A fixed text, then a number, then a text starting with a space: equal such
/// texts have equal numbers and equal rests.
proof fn lemma_labelled_number_splits(
    label: Seq<char>,
    x: nat,
    y: nat,
    rx: Seq<char>,
    ry: Seq<char>,
)
    requires
        label + (decimal(x) + rx) == label + (decimal(y) + ry),
        rx.len() > 0,
        ry.len() > 0,
        rx[0] == ' ',
        ry[0] == ' ',
    ensures
        x == y,
        rx == ry,
{
    assert((label + (decimal(x) + rx)).skip(label.len() as int) =~= decimal(x) + rx);
    assert((label + (decimal(y) + ry)).skip(label.len() as int) =~= decimal(y) + ry);
    lemma_decimal_then_space_splits_uniquely(x, y, rx, ry);
}

/// The command line of a node determines the node's id, mesh node number and
/// daemon port: two nodes whose daemons would be started with the same line agree
/// on all three, so nodes with distinct ids never share a data directory.
pub proof fn lemma_run_node_command_line_injective(a: Node, b: Node)
    requires
        run_node_command_line(a) == run_node_command_line(b),
    ensures
        a.id == b.id,
        a.hw_id == b.hw_id,
        a.docker_tcp_port == b.docker_tcp_port,
{
    reveal_strlit(" -h ");
    reveal_strlit(" -p ");
    let p = "./meshtasticd_linux_amd64 -d /home/node"@;
    let h = " -h "@;
    let q = " -p "@;
    let da = decimal(a.id as nat);
    let db = decimal(b.id as nat);
    let ha = decimal(a.hw_id as nat);
    let hb = decimal(b.hw_id as nat);
    let pa = decimal(a.docker_tcp_port as nat);
    let pb = decimal(b.docker_tcp_port as nat);
    let tail_a = q + pa;
    let tail_b = q + pb;
    let rest_a = h + (ha + tail_a);
    let rest_b = h + (hb + tail_b);
    assert(run_node_command_line(a) =~= p + (da + rest_a));
    assert(run_node_command_line(b) =~= p + (db + rest_b));
    assert(rest_a[0] == ' ');
    assert(rest_b[0] == ' ');
    lemma_labelled_number_splits(p, a.id as nat, b.id as nat, rest_a, rest_b);
    assert(tail_a[0] == ' ');
    assert(tail_b[0] == ' ');
    lemma_labelled_number_splits(h, a.hw_id as nat, b.hw_id as nat, tail_a, tail_b);
    assert(tail_a.skip(4) =~= pa);
    assert(tail_b.skip(4) =~= pb);
    lemma_decimal_injective(a.docker_tcp_port as nat, b.docker_tcp_port as nat);
}

/// The data directory of a node's daemon is `/home/node<id>`: in the command line,
/// the text after `-d /home/node` and before ` -h ` is the full decimal text of the
/// node's id.
pub proof fn lemma_run_node_command_names_data_directory(node: Node)
    ensures
        ({
            let line = run_node_command_line(node);
            let p = "./meshtasticd_linux_amd64 -d /home/node"@;
            let d = decimal(node.id as nat);
            &&& line.subrange(0, p.len() as int) == p
            &&& line.subrange(p.len() as int, (p.len() + d.len()) as int) == d
            &&& line.subrange((p.len() + d.len()) as int, (p.len() + d.len() + 4) as int) == " -h "@
        }),
{
    reveal_strlit(" -h ");
    let line = run_node_command_line(node);
    let p = "./meshtasticd_linux_amd64 -d /home/node"@;
    let d = decimal(node.id as nat);
    let r = " -h "@ + decimal(node.hw_id as nat) + " -p "@ + decimal(node.docker_tcp_port as nat);
    assert(line =~= p + d + r);
    assert(line.subrange(0, p.len() as int) =~= p);
    assert(line.subrange(p.len() as int, (p.len() + d.len()) as int) =~= d);
    assert(line.subrange((p.len() + d.len()) as int, (p.len() + d.len() + 4) as int) =~= " -h "@);
}

/// Distinct laid-out nodes are started with distinct commands; in particular each
/// gets a data directory of its own.
pub proof fn lemma_laid_out_commands_distinct(nodes: Seq<Node>, bounds: Rectangle)
    requires
        nodes_laid_out(nodes, bounds),
    ensures
        forall|i: int, j: int|
            0 <= i < nodes.len() && 0 <= j < nodes.len() && i != j ==> run_node_command(
                #[trigger] nodes[i],
            ) != run_node_command(#[trigger] nodes[j]),
{
    lemma_laid_out_nodes_distinct(nodes, bounds);
    assert forall|i: int, j: int|
        0 <= i < nodes.len() && 0 <= j < nodes.len() && i != j implies run_node_command(
            #[trigger] nodes[i],
        ) != run_node_command(#[trigger] nodes[j]) by {
        if run_node_command(nodes[i]) == run_node_command(nodes[j]) {
            assert(run_node_command(nodes[i])[2] == run_node_command_line(nodes[i]));
            assert(run_node_command(nodes[j])[2] == run_node_command_line(nodes[j]));
            lemma_run_node_command_line_injective(nodes[i], nodes[j]);
        }
    }
}

/// The layout in numbers: node `i` has id `i`, mesh node number `i + 16`, daemon port
/// `i + 4403`, client port 4402 and hop limit 3, acts neither as router nor as
/// repeater, and stands on the 100 by 100 plane whose corner is the origin.
pub proof fn lemma_layout_in_numbers(node: Node, i: int)
    requires
        node_laid_out(node, i, simulation_bounds()),
    ensures
        node.id == i,
        node.hw_id == i + 16,
        node.docker_tcp_port == i + 4403,
        node.client_tcp_port == 4402,
        node.hop_limit == 3,
        !node.is_router,
        !node.is_repeater,
        node.location.x < 100,
        node.location.y < 100,
{
}

/// Distinct ports are exposed under distinct container ports.
pub proof fn lemma_tcp_port_key_injective(a: nat, b: nat)
    requires
        tcp_port_key(a) == tcp_port_key(b),
    ensures
        a == b,
{
    reveal_strlit("/tcp");
    let ka = tcp_port_key(a);
    let kb = tcp_port_key(b);
    assert(ka.subrange(0, ka.len() - 4) =~= decimal(a));
    assert(kb.subrange(0, kb.len() - 4) =~= decimal(b));
    lemma_decimal_injective(a, b);
}

/// The host container of laid-out nodes exposes and publishes every node's daemon
/// port under a container port of its own: distinct nodes get distinct keys
/// `<port>/tcp`, so no node's binding overwrites another's.
pub proof fn lemma_laid_out_port_keys_distinct(nodes: Seq<Node>, bounds: Rectangle)
    requires
        nodes_laid_out(nodes, bounds),
    ensures
        forall|i: int, j: int|
            0 <= i < nodes.len() && 0 <= j < nodes.len() && i != j ==> tcp_port_key(
                (#[trigger] nodes[i]).docker_tcp_port as nat,
            ) != tcp_port_key((#[trigger] nodes[j]).docker_tcp_port as nat),
{
    lemma_laid_out_nodes_distinct(nodes, bounds);
    assert forall|i: int, j: int|
        0 <= i < nodes.len() && 0 <= j < nodes.len() && i != j implies tcp_port_key(
            (#[trigger] nodes[i]).docker_tcp_port as nat,
        ) != tcp_port_key((#[trigger] nodes[j]).docker_tcp_port as nat) by {
        if tcp_port_key(nodes[i].docker_tcp_port as nat) == tcp_port_key(
            nodes[j].docker_tcp_port as nat,
        ) {
            lemma_tcp_port_key_injective(
                nodes[i].docker_tcp_port as nat,
                nodes[j].docker_tcp_port as nat,
            );
        }
    }
}

/// How the engine connects to one node's radio daemon.
#[derive(Clone, Debug)]
pub struct NodeConnection {
    /// The address of the daemon.
    pub address: String,
    /// The node's mesh node number.
    pub hw_id: u32,
    /// Whether the node relays the traffic of client applications.
    pub serves_client: bool,
}

} // verus!
