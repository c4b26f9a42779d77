# async_patterns

Building blocks for small asynchronous programs, with their decisions verified by Verus.

Each part of a program that waits, reads or receives is a step machine in `src/`: it is
told what happened and says what to do next, and its contract says exactly which. The
programs in `app/` perform the input and output.

| module | what it decides |
| --- | --- |
| `fibonacci` | a workload for a processor |
| `decimal` | how numbers are written and read |
| `queue`, `executor` | where tasks are queued, and which one a worker runs next |
| `runtime`, `pool` | how many workers there are, and when they are started |
| `server` | what a server answers to a connection |
| `connector`, `stream` | where a client connects to, and what a read leaves in its buffer |
| `coroutine` | how numbers are copied from file to file |
| `data_map`, `data_file` | the data of the key-value service, in memory and as JSON |
| `messages`, `router`, `key_value`, `writer`, `heartbeat` | the actors of the service |
| `service` | what the service promises as a whole |

Calls into other crates stand behind small wrappers, each with a doc comment that says
what is taken for granted of the call.
