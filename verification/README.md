# kopgen

A generator of CRUD Kubernetes operators from an OpenAPI specification, whose core is
verified with Verus.

- `src/` is the verified library: the configuration, the reading of a specification's
  text, JSON or YAML, into plain values and the hydration of its `x-kubernetes-operator-*` extensions, the planning of every generated file (types,
  controllers, `main.rs`, RBAC and example manifests, the CRD generator, the layout of a
  new project), line upserts into module and ignore files, and the decisions of the
  operator's controllers (finalizers, status conditions, what each watch event and each
  remote answer leads to).
- `tests/` runs the library on concrete values.
- `app/` is the command line program: argument parsing, files, and the rendering of the askama templates from the data the library plans.
