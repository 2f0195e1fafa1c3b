# wascc_host

The WebAssembly Secure Capabilities Connector (waSCC) host runtime manages actors, which are
signed WebAssembly modules, and capability providers, which are portable modules or native
plugins. It securely manages the communications between them: an actor reaches a capability
only where its signed token attests it, where the authorizer agrees, and where it is bound to a
provider.

`src/` is the library. What it does is stated in contracts and proved by Verus. It holds what a
host decides and what it sends; it does no I/O and starts no thread. An operation that needs
the reply of an actor or a provider comes in two halves: the first says what to send on which
subject, and the second takes the reply.

| Module | What it holds |
| --- | --- |
| `runtime`, `spawns`, `controlplane`, `registry` | the host: actors, providers, bindings, threads, commands, images |
| `inthost`, `messages`, `entity`, `dispatch` | invocations, their antiforgery check, and the messages of a host |
| `authz`, `claims`, `actor` | tokens, claims, keys, and who may do what |
| `bus` | the subjects of the message bus, within a process and in a lattice |
| `bindings`, `capability`, `plugins`, `router`, `extras` | capability providers and the ways to them |
| `middleware`, `prometheus_middleware` | the middleware pipeline and metrics |
| `host` | a host without bindings, whose operations name their targets |
| `manifest`, `codec`, `messagepack`, `random`, `errors`, `table`, `text` | what the others are built on |

A few functions are wrappers around other crates (`wascap`, `wascc-codec`, `serde_json` with
the messages of `latticeclient`, `ring`, `data-encoding`, `prometheus`, `oci-distribution`,
`envmnt`, `uuid`, `rand`). Their contracts are believed, not proved; each says what it claims
of the function that it calls. `rmp` is called by none of them: `Cargo.toml` names it to hold
it at the version that `rmp-serde`, through which `wascc-codec` reads and writes messages,
was written for.

`app/` is the program around the library: threads, channels, the connection to a lattice, the
WebAssembly engine, plugins, the metrics server, and the command line.
