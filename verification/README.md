# rudr

The decisions of a Kubernetes operator for the Open Application Model
(OAM), written in Verus and proved against their contracts.

An application configuration names components, their parameter values,
traits and scopes. From it the library computes, with proofs:

- how variables and parameter values resolve (`schematic::variable`,
  `schematic::parameter`);
- which workload type a component schematic names and the Kubernetes objects
  each workload type is made of: deployments, stateful sets, jobs, services,
  config maps, OpenFaaS functions and custom objects (`workload_type`);
- the traits of a component instance (autoscaler, manual scaler, ingress,
  volume mounter) and the objects they manage (`schematic::traits`,
  `trait_manager`);
- the health and network scopes, and how components join and leave a health
  scope (`schematic::scopes`);
- the reconciliation of a configuration: which components changed since the
  records of the last run, in which phase each runs, and the records and
  status written afterwards (`instigator`);
- when the health scope controller aggregates health, and the status it
  records (`healthscope`);
- the events that report what happened (`kube_event`).

Strings, ordered string maps and JSON values are modelled in `strings`,
`strmap` and `json`.

`app/` is a command line around the library: it reads the configuration,
the component schematics and the records of the last run from JSON files
and prints the objects and actions of a reconciliation; given the statuses
read of the component instances, it prints the status the status loop
writes; or it reads a health scope object and prints what the health scope
controller does with it.
