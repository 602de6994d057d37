# ShareMouse

One mouse and keyboard for several machines. The host captures input; when the
cursor crosses the edge of its screen, events go over TCP to the peer whose
screen lies there, and the peer injects them.

`src/` is the library, verified with Verus. It performs no I/O.

| module | holds |
|---|---|
| `protocol` | input events |
| `codec`, `bincode_calls`, `wire` | their frames: a big-endian length and a bincode payload |
| `stream` | cutting received bytes into events |
| `peer`, `network` | peer identifiers and the connected peers |
| `screen` | the layout of screens, edges and crossings |
| `engine` | roles, cursor ownership and the routing of events |
| `platform` | what the macOS tap and the Windows hooks decide, and what injecting an event takes |
| `commands` | what the user interface asks for |

Statements about the library as a whole are the proof functions whose names
start with `law_`. Calls into `bincode` and `uuid` are in `bincode_calls` and
`peer`; their contracts are taken as given.

`app/` is the application: sockets, threads, operating system calls, floats, and
the user interface.
