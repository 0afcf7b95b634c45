# OneBerry DevKit

A desktop tool for developers of the OneBerry platform: it connects a Tailscale VPN to the
team's control server, shows the state of the Kubernetes cluster, sets up cluster DNS, and
runs `ktctl` exchange and mesh sessions that route cluster traffic to a local service.

## Layout

- `src/` is the verified library: the decisions and computations, with contracts proved by
  Verus (JSON text is parsed by `serde_json` behind the trusted `json::parse_json`, whose
  result is named rather than described):
  - `platform`, `command`, `text`, `json`: the host description, command descriptions and
    run outcomes, string helpers, and the JSON shape the tools print;
  - `utils`: where each tool is installed and how it is invoked on each platform;
  - `cluster`, `vpn`, `dns`, `setup`, `session`, `launch`, `follow`, `health`: the application's
    operations. Operations that alternate outside work (running a program, touching a file,
    sleeping) with decisions are state machines: `step` takes what happened and says what
    to do next.
- `app/` is the Tauri application around the library: it runs programs, reads and writes
  files, sleeps, reads and writes the settings file with serde, publishes events, and feeds
  the outcomes back to the library's state machines.
- `tests/` runs the library on concrete values.
