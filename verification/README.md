# stellar_k8s

A Kubernetes operator for Stellar infrastructure, with its logic verified by Verus.

A `StellarNode` manifest describes a validator, a Horizon server or a Soroban RPC
node. The operator keeps the cluster as the manifest wants it, watches the node's
health and reports on its status.

- `src/` is the library: the rules that manifests have to keep, the Kubernetes
  objects of a node, the conditions and phases of its status, and the order in which
  the work on a node is done. Every function states what it returns, and Verus proves
  it. What spans several functions is stated in public proof functions.
- `tests/` runs the library.
- `app/` is the operator around it: the Kubernetes API, HTTP requests, the metrics
  endpoint, and the manifests with their serialization.

The library decides, and `app/` carries out: work on a node comes in batches of tasks,
each of which ends with a question to the cluster, the node or the network, or with
the time at which the node is looked at again.
