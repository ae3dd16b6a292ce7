# tailnet_runtime

The decision core of a tailnet node runtime, verified with Verus, and the runtime around it.

The library (`src/`) holds what the runtime decides and computes. It performs no I/O and spawns no
task: an operation that talks to actors hands out a value for each request, and that value takes
the reply and says what comes next.

| module | what it holds |
| --- | --- |
| `metrics` | counters and gauges, and their export as Prometheus text |
| `kernel_wg`, `dataplane` | the kernel interface, the userspace tunnel, the start of the dataplane |
| `routes`, `netstack` | the advertised routes, the sizing of the userspace netstacks |
| `startup`, `runtime`, `shutdown` | how a runtime comes up, what can be changed, how it goes down |
| `status`, `exit_node`, `taildrop`, `whois`, `paths` | the operations that read the netmap |
| `control_rpc`, `delivery` | requests to control, and what the caller is answered |
| `device_state`, `supervise` | the connection state, and the daemon that keeps a device up |
| `ask`, `error`, `net`, `node`, `text` | shared parts |

`app/` performs the actions: the process-wide metrics registry, netlink, the actors, the daemon.
