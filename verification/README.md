# meshsim

Verified core of a Meshtastic mesh-network simulator that runs simulated radios in
a container and relays their packets to each other and to a client application.

- `src/` is the library, verified with Verus:
  - `text`: decimal rendering and `localhost:<port>` addresses;
  - `graph::types`: `Id`, `TcpPort`, `HopLimit`;
  - `graph::node`, `graph::typed_node`: the description of a simulated node;
  - `simulation::point`, `simulation::rectangle`: the simulation plane and random placement;
  - `simulation::engine`: node layout, the host-container plan, the connection plan,
    the bookkeeping of the host container;
  - `simulation::routing`: packet framing and the relays' forwarding decisions;
  - `simulation::simulation_engine`: the single-container simulation.
- `app/` is the program around it: the container runtime client, the radio
  connections, the relay tasks and the command line.
- `tests/` exercises the library on concrete values.
