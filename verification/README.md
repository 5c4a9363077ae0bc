# FerrisKey realm import operator

A Kubernetes operator that imports realms, with their clients and roles, into FerrisKey clusters.
`src/` holds every decision of the operator, verified with Verus; `app/` talks to Kubernetes and to
the FerrisKey API.

| Module | What it is about |
| --- | --- |
| `entities`, `crds`, `error` | the data: specifications, resources, errors |
| `api`, `http`, `json`, `text` | the requests to the FerrisKey API and what their replies mean |
| `credentials`, `connect` | getting at a cluster: its resource, its administrator's secret, the login |
| `import_flow`, `cleanup_flow` | importing and removing a realm, one command at a time |
| `ports`, `services` | the checks on a specification, in front of a repository |
| `controller`, `reconcile` | what becomes of a resource: its status, and when it is looked at again |
| `plan`, `laws` | what holds of a whole run |

A flow (`ImportFlow`, `CleanupFlow`, `Reconciliation`) says what to do next with `command` and is
told what came of it with `advance`. `app/` runs that loop.
