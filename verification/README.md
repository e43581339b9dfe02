# placenet_home

The node software of a PlaceNet home: it probes the machine for the Mosquitto
broker, runs a certificate authority, supervises the node's services (the
broker, the node's own MQTT client, the local gateway and the HTTP front
door), answers device handshakes and client registrations, and decides, for
each beacon that arrives over MQTT, whether it names a new gateway.

Not included: the cloud gateway client (it is registered, and its start
reports that it is missing), the connections to the gateways that beacons
name (the decision is logged), TLS for the gateway and the HTTP front door,
and the provisioning of broker and node certificates.

## Layout

- `src/` — the library, written in Verus: the node's decisions, each a
  function with a contract proved by Verus:
  - `supervisor.rs`: service statuses and every transition between them, with
    their laws;
  - `services/`: registration, command lines for the broker, the MQTT client's
    start-up, event loop and subscriptions, request routing and replies of
    the gateway and the HTTP front door, the start and stop of task services;
  - `ca.rs`, `ca_material.rs`: the root CA (generation, reloading, CSR
    signing) on top of rcgen;
  - `beacon.rs`: which gateways a beacon makes the node connect to;
  - `startup_screen.rs`: what the startup screen draws, and where;
  - `startup.rs`: the order in which the node starts its services and when
    it subscribes its MQTT client;
  - `config.rs`, `capabilities.rs`, `text.rs`, `health.rs`.
- `tests/` — tests of the library on concrete values.
- `app/` — the program: reading the environment, processes, sockets, the
  database and the async tasks, calling the library for its decisions.
