use meshsim::graph::node::Node;
use meshsim::graph::typed_node::Node as TypedNode;
use meshsim::graph::types::{HopLimit, Id, TcpPort};
use meshsim::simulation::engine::{
    Engine, CLIENT_LISTENER_PORT, HW_ID_OFFSET,
    SIMULATION_HEIGHT, SIMULATION_WIDTH, TCP_PORT_OFFSET,
};
use meshsim::simulation::point::Point;
use meshsim::simulation::rectangle::Rectangle;
use meshsim::simulation::routing::{
    frame_packet, route_from_radio, strip_client_header,
    FromRadioPayload, MeshPayload, PubSubAction,
};
use meshsim::simulation::simulation_engine::SimulationEngine;
use meshsim::text::decimal_string;
use std::cmp::Ordering;

#[test]
fn decimal_rendering() {
    assert_eq!(decimal_string(0), "0");
    assert_eq!(decimal_string(7), "7");
    assert_eq!(decimal_string(10), "10");
    assert_eq!(decimal_string(4403), "4403");
    assert_eq!(decimal_string(u32::MAX as u64), "4294967295");
    assert_eq!(decimal_string(u64::MAX), u64::MAX.to_string());
}

#[test]
fn id_round_trip_and_comparisons() {
    let id = Id::new(42);
    assert_eq!(id.data(), 42);
    assert!(id == 42u32);
    assert!(id != 41u32);
    assert_eq!(id.partial_cmp(&43u32), Some(Ordering::Less));
    assert_eq!(id.partial_cmp(&42u32), Some(Ordering::Equal));
    assert_eq!(id.partial_cmp(&0u32), Some(Ordering::Greater));
    assert_eq!(Id::from(42u32), id);
    assert_eq!(id.to_string(), "42");
    assert_eq!(Id::default().data(), 0);
    assert!(Id::new(1) < Id::new(2));
}

#[test]
fn tcp_port_round_trip_and_comparisons() {
    let port = TcpPort::new(4403);
    assert_eq!(port.data(), 4403);
    assert!(port == 4403u32);
    assert!(port < 4404u32);
    assert!(port > 4402u32);
    assert_eq!(TcpPort::from(4403u32), port);
    assert_eq!(port.to_string(), "4403");
    assert_eq!(TcpPort::default().data(), 0);
}

#[test]
fn hop_limit_range() {
    for h in 0u8..=7 {
        let limit = HopLimit::new(h).unwrap();
        assert_eq!(limit.data(), h);
        assert!(limit == h);
    }
    for h in 8u8..=255 {
        assert_eq!(HopLimit::new(h).unwrap_err(), "Hop limit must be in range [0,7]");
    }
    assert_eq!(HopLimit::default().data(), 3);
    assert_eq!(HopLimit::from(5u8).data(), 5);
    assert_eq!(HopLimit::new(6).unwrap().to_string(), "6");
    assert_eq!(HopLimit::new(2).unwrap().partial_cmp(&3u8), Some(Ordering::Less));
}

#[test]
fn rectangle_contains_its_borders() {
    let rect = Rectangle { origin: Point { x: 10, y: 20 }, width: 5, height: 3 };
    assert!(rect.contains_point(&Point { x: 10, y: 20 }));
    assert!(rect.contains_point(&Point { x: 15, y: 23 }));
    assert!(rect.contains_point(&Point { x: 12, y: 21 }));
    assert!(!rect.contains_point(&Point { x: 9, y: 21 }));
    assert!(!rect.contains_point(&Point { x: 16, y: 21 }));
    assert!(!rect.contains_point(&Point { x: 12, y: 19 }));
    assert!(!rect.contains_point(&Point { x: 12, y: 24 }));
}

#[test]
fn rectangle_at_the_edge_of_u32() {
    let rect = Rectangle { origin: Point { x: u32::MAX - 1, y: u32::MAX - 1 }, width: 5, height: 5 };
    assert!(rect.contains_point(&Point { x: u32::MAX, y: u32::MAX }));
    assert!(!rect.contains_point(&Point { x: 0, y: u32::MAX }));
}

#[test]
fn random_point_is_contained() {
    let rect = Rectangle { origin: Point { x: 1000, y: 7 }, width: 3, height: 2 };
    for _ in 0..200 {
        let p = rect.get_random_contained_point();
        assert!(rect.contains_point(&p));
        assert!(p.x >= 1000 && p.x < 1003);
        assert!(p.y >= 7 && p.y < 9);
    }
    let unit = Rectangle { origin: Point { x: 4, y: 9 }, width: 1, height: 1 };
    assert_eq!(unit.get_random_contained_point(), Point { x: 4, y: 9 });
}

#[test]
fn node_defaults_and_addresses() {
    let node = Node::new(1, 17, 4404, 4402, Point { x: 3, y: 4 });
    assert_eq!(node.id, 1);
    assert_eq!(node.hw_id, 17);
    assert!(!node.is_router);
    assert!(!node.is_repeater);
    assert_eq!(node.hop_limit, 3);
    assert_eq!(node.location, Point { x: 3, y: 4 });
    assert_eq!(node.get_full_docker_tcp_address(), "localhost:4404");
    assert_eq!(node.get_full_client_tcp_address(), "localhost:4402");
}

#[test]
fn typed_node_hop_limit_default() {
    let node = TypedNode::new(
        Id::new(2),
        99,
        TcpPort::new(5000),
        TcpPort::new(6000),
        Point { x: 0, y: 0 },
        None,
    );
    assert_eq!(node.hop_limit.data(), 3);
    assert_eq!(node.get_full_docker_tcp_address(), "localhost:5000");
    assert_eq!(node.get_full_client_tcp_address(), "localhost:6000");
    let node = TypedNode::new(
        Id::new(2),
        99,
        TcpPort::new(5000),
        TcpPort::new(6000),
        Point { x: 0, y: 0 },
        Some(HopLimit::new(7).unwrap()),
    );
    assert_eq!(node.hop_limit.data(), 7);
    assert_eq!(node.id.data(), 2);
    assert!(!node.is_router && !node.is_repeater);
}

#[test]
fn run_node_command_words() {
    let node = Node::new(2, 18, 4405, 4402, Point { x: 0, y: 0 });
    assert_eq!(
        Engine::format_run_node_command(&node),
        vec![
            "sh".to_string(),
            "-c".to_string(),
            "./meshtasticd_linux_amd64 -d /home/node2 -h 18 -p 4405".to_string()
        ]
    );
}

#[test]
fn nodes_are_laid_out_in_order() {
    let bounds = Rectangle { origin: Point { x: 0, y: 0 }, width: 10, height: 10 };
    let nodes = Engine::initialize_nodes(5, &bounds);
    assert_eq!(nodes.len(), 5);
    for (i, node) in nodes.iter().enumerate() {
        let i = i as u32;
        assert_eq!(node.id, i);
        assert_eq!(node.hw_id, i + HW_ID_OFFSET);
        assert_eq!(node.docker_tcp_port, i + TCP_PORT_OFFSET);
        assert_eq!(node.client_tcp_port, CLIENT_LISTENER_PORT);
        assert!(bounds.contains_point(&node.location));
        assert!(node.location.x < 10 && node.location.y < 10);
    }
    assert!(Engine::initialize_nodes(0, &bounds).is_empty());
}

#[test]
fn engine_starts_without_container() {
    let mut engine = Engine::new(3);
    assert_eq!(engine.nodes().len(), 3);
    let bounds = Rectangle {
        origin: Point { x: 0, y: 0 },
        width: SIMULATION_WIDTH,
        height: SIMULATION_HEIGHT,
    };
    for node in engine.nodes() {
        assert!(bounds.contains_point(&node.location));
    }
    assert_eq!(engine.nodes()[2].hw_id, 18);
    assert_eq!(engine.nodes()[2].docker_tcp_port, 4405);
    assert!(engine.take_host_container_id().is_err());
}

#[test]
fn host_container_plan_of_three_nodes() {
    let engine = Engine::new(3);
    let plan = engine
        .host_container_plan("meshtastic/device-simulator".to_string(), "2.2.0.9f6584b".to_string())
        .unwrap();
    assert_eq!(plan.image_name, "meshtastic/device-simulator");
    assert_eq!(plan.tag, "2.2.0.9f6584b");
    assert_eq!(plan.exposed_ports, vec!["4403/tcp", "4404/tcp", "4405/tcp"]);
    assert_eq!(plan.port_bindings.len(), 3);
    assert_eq!(plan.port_bindings[1].container_port, "4404/tcp");
    assert_eq!(plan.port_bindings[1].host_ip, "0.0.0.0");
    assert_eq!(plan.port_bindings[1].host_port, "4404");
    assert_eq!(
        plan.cmd,
        vec!["sh", "-c", "./meshtasticd_linux_amd64 -d /home/node0 -h 16 -p 4403"]
    );
    assert_eq!(plan.user, "mesh");
    assert!(plan.tty);
    assert!(plan.auto_remove);
    assert!(plan.exec_detach);
    assert_eq!(
        plan.exec_cmds,
        vec![
            vec!["sh", "-c", "./meshtasticd_linux_amd64 -d /home/node1 -h 17 -p 4404"],
            vec!["sh", "-c", "./meshtasticd_linux_amd64 -d /home/node2 -h 18 -p 4405"],
        ]
    );
}

#[test]
fn host_container_plan_needs_a_node() {
    let engine = Engine::new(0);
    let err = engine.host_container_plan("img".to_string(), "tag".to_string()).unwrap_err();
    assert_eq!(err, "Could not find first node");
    let single = Engine::new(1).host_container_plan("img".to_string(), "t".to_string()).unwrap();
    assert!(single.exec_cmds.is_empty());
}

#[test]
fn host_container_id_is_taken_once() {
    let mut engine = Engine::new(1);
    assert_eq!(
        engine.take_host_container_id().unwrap_err(),
        "Engine does not have a host container id, cannot remove container"
    );
    engine.record_host_container("abc123".to_string());
    assert_eq!(engine.take_host_container_id().unwrap(), "abc123");
    assert!(engine.take_host_container_id().is_err());
    engine.record_host_container("def".to_string());
    engine.record_host_container("ghi".to_string());
    assert_eq!(engine.take_host_container_id().unwrap(), "ghi");
    assert_eq!(engine.nodes().len(), 1);
}

#[test]
fn client_interface_and_connections() {
    let engine = Engine::new(3);
    assert_eq!(engine.client_interface_hw_id().unwrap(), 16);
    let plan = engine.connection_plan().unwrap();
    assert_eq!(plan.len(), 3);
    assert_eq!(plan[0].address, "localhost:4403");
    assert_eq!(plan[2].address, "localhost:4405");
    assert_eq!(plan[1].hw_id, 17);
    assert!(plan[0].serves_client);
    assert!(!plan[1].serves_client);
    assert!(!plan[2].serves_client);
    let empty = Engine::new(0);
    let msg = "Could not find first node, cannot configure client/radio forwarding";
    assert_eq!(empty.client_interface_hw_id().unwrap_err(), msg);
    assert_eq!(empty.connection_plan().unwrap_err(), msg);
}

#[test]
fn framing_for_the_client() {
    let framed = frame_packet(vec![1, 2, 3]).unwrap();
    assert_eq!(framed, vec![0x94, 0xc3, 0, 3, 1, 2, 3]);
    let long = vec![7u8; 300];
    let framed = frame_packet(long.clone()).unwrap();
    assert_eq!(&framed[..4], &[0x94, 0xc3, 1, 44]);
    assert_eq!(&framed[4..], &long[..]);
    assert_eq!(frame_packet(vec![]).unwrap(), vec![0x94, 0xc3, 0, 0]);
    let max = vec![0u8; 65535];
    assert_eq!(&frame_packet(max).unwrap()[..4], &[0x94, 0xc3, 0xff, 0xff]);
    assert_eq!(
        frame_packet(vec![0u8; 65536]).unwrap_err(),
        "Packet is too long to frame"
    );
}

#[test]
fn stripping_the_client_header() {
    assert_eq!(strip_client_header(&vec![0x94, 0xc3, 0, 2, 9, 8]), Some(vec![9, 8]));
    assert_eq!(strip_client_header(&vec![0x94, 0xc3, 0, 0]), Some(vec![]));
    assert_eq!(strip_client_header(&vec![0x94, 0xc3, 0]), None);
    assert_eq!(strip_client_header(&vec![]), None);
}

#[test]
fn strip_undoes_frame() {
    for len in [0usize, 1, 5, 255, 256, 1000] {
        let data: Vec<u8> = (0..len).map(|i| (i % 251) as u8).collect();
        let framed = frame_packet(data.clone()).unwrap();
        assert_eq!(strip_client_header(&framed), Some(data));
    }
}

#[test]
fn forwarded_packets_go_to_the_simulator_port() {
    assert_eq!(
        Engine::generate_forwarded_mesh_packet(MeshPayload::Decoded { portnum: 1 }).unwrap(),
        MeshPayload::Decoded { portnum: 69 }
    );
    assert_eq!(
        Engine::generate_forwarded_mesh_packet(MeshPayload::Encrypted).unwrap_err(),
        "Received invalid mesh packet, skipping"
    );
    assert_eq!(
        Engine::generate_forwarded_mesh_packet(MeshPayload::Missing).unwrap_err(),
        "Received invalid mesh packet, skipping"
    );
}

#[test]
fn routing_packets_from_a_radio() {
    let route = route_from_radio(16, 16, FromRadioPayload::MeshPacket(MeshPayload::Decoded { portnum: 3 }));
    assert!(route.forward_to_client);
    assert!(matches!(route.pubsub, PubSubAction::Forward(MeshPayload::Decoded { portnum: 69 })));

    let route = route_from_radio(17, 16, FromRadioPayload::Other);
    assert!(!route.forward_to_client);
    assert!(matches!(route.pubsub, PubSubAction::SkipNonMeshPacket));

    let route = route_from_radio(17, 16, FromRadioPayload::MeshPacket(MeshPayload::Encrypted));
    assert!(!route.forward_to_client);
    assert_eq!(route.pubsub, PubSubAction::Forward(MeshPayload::Encrypted));

    let route = route_from_radio(16, 16, FromRadioPayload::MeshPacket(MeshPayload::Missing));
    assert!(route.forward_to_client);
    assert_eq!(route.pubsub, PubSubAction::Forward(MeshPayload::Missing));
}

#[test]
fn single_container_simulation() {
    let mut sim = SimulationEngine::new();
    let plan = sim.init_plan();
    assert_eq!(plan.image, "meshtastic/device-simulator");
    assert!(plan.tty);
    assert_eq!(plan.port_binding.container_port, "4403/tcp");
    assert_eq!(plan.port_binding.host_ip, "0.0.0.0");
    assert_eq!(plan.port_binding.host_port, "4403");
    assert_eq!(
        plan.exec_cmd,
        vec![
            "/bin/sh",
            "-c",
            "./meshtasticd_linux_amd64 -d /home/node1 -h 17 -p 4403 > /home/out_1.log"
        ]
    );
    assert_eq!(plan.exec_user, "root");
    assert!(plan.attach_output && plan.detach);
    assert_eq!(sim.take_primary_node_id().unwrap_err(), "No set primary node id");
    sim.record_primary_node("c1".to_string());
    assert_eq!(sim.take_primary_node_id().unwrap(), "c1");
    assert!(sim.take_primary_node_id().is_err());
}

#[test]
fn values_are_determined_by_their_numbers() {
    for v in [0u32, 1, 4403, u32::MAX] {
        assert_eq!(Id::from(v), Id::new(v));
        assert_eq!(TcpPort::from(v), TcpPort::new(v));
    }
    for v in 0u8..=7 {
        assert_eq!(HopLimit::from(v), HopLimit::new(v).unwrap());
    }
    assert_eq!(HopLimit::default(), HopLimit::new(3).unwrap());
    assert_ne!(Id::new(1), Id::new(2));
}

#[test]
fn values_are_ordered_by_their_numbers() {
    assert_eq!(Id::new(1).partial_cmp(&Id::new(2)), Some(Ordering::Less));
    assert_eq!(Id::new(2).partial_cmp(&Id::new(2)), Some(Ordering::Equal));
    assert!(TcpPort::new(4404) > TcpPort::new(4403));
    assert!(HopLimit::new(1).unwrap() < HopLimit::new(7).unwrap());
    let mut ids = vec![Id::new(5), Id::new(0), Id::new(3)];
    ids.sort();
    assert_eq!(ids, vec![Id::new(0), Id::new(3), Id::new(5)]);
}
