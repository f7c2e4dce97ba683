# benchmark

The control logic of a harness that compares FalkorDB, Neo4j and ibexdb on the same data
sets and the same Cypher queries, verified with Verus.

`src/` performs no input or output. Each operation of the harness is a state machine that
implements `flow::Flow`: it asks for one `action::Action` at a time, goes on from the
`action::Reply`, and gives a result once it asks for nothing more. Its contract says, for
every state, what is asked for, what each reply leads to, and which result is given.

| module | what it decides |
| --- | --- |
| `action`, `flow` | requests, replies, and how an operation runs |
| `calls` | which operation carries out an action that another one asks for |
| `jobs` | which work an action stands for that goes on by itself |
| `utils` | files, processes, the local Redis, numbers |
| `scenario` | the data sets, their directories and their cache |
| `execution` | how one query is delayed, sent, counted and answered |
| `falkor`, `ibex`, `neo4j_client` | the databases: start, stop, dumps, size, metrics |
| `durations`, `usage` | the histogram of durations, the gauges for CPU and memory |
| `runner` | loading a data set, preparing queries, running them with a crew of workers |
| `runner::channel` | that each message sent to the workers is run once |
| `runner::query_file` | that the queries read are the queries prepared |
| `disk` | what saving and restoring do to the files on disk |
| `text`, `query`, `error` | text, values and errors that the others share |

`app/` is the command line: it drives the operations and performs their actions with the
clients of the databases, and offers the metrics to Prometheus. `tests/` runs the
operations against scripted replies.
