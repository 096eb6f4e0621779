# tokio-rdma

Asynchronous RDMA connections for Tokio on top of `rdma-core`.

The crate is split in two:

- `src/` is the library, verified with Verus. It holds everything that
  decides: the error texts, the queue-pair attributes of each state
  transition, the layout of work requests, the steps of setting up event
  channels, of waiting on a completion queue and of establishing a
  connection (client and server side), the choice of a device, and the
  table of outstanding requests that matches each work completion to the
  task waiting for it. Its laws (for instance that a request is answered
  with its own completion, or that a connect is established exactly by the
  address, route and established events in that order) are proof
  functions next to the code they speak of.
- `app/` is the runtime layer: it owns the verbs and connection-manager
  handles, makes the `rdma-sys`, `libc` and Tokio calls, and hands what
  they return to the library.

Modules of the library: `error`, `text` (decimal rendering), `utils`,
`verbs` (numeric values of the verbs enumerations), `qp`, `registry`,
`setup`, `cq`, `cm`, `stream`, `device`, `mr`.
