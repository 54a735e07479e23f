# suspend

Primitives for suspending execution and waiting on results: channels, shared
values that are collected again, parking and listening, tasks, streams made
from generators, and pools of threads. The library under `src/` is verified
with Verus; `app/` puts threads, a clock and the usual traits around it.

## How it is laid out

The library works on memory that is handed to it, so that every effect is
visible in a contract. Allocations live on a `util::Heap`. A waker is a value
of any type `W`; the wakers that an operation calls are appended to a list,
which is handed out by `take_woken`. An operation that would block a thread
takes one turn: it returns a result, or leaves the thread to wait.

What several threads do at once is described by steps. A step is one atomic
operation on a word and the accesses to the cells next to it. For the
channel, the shared value and the parker there are

* `state` and `step`: the word, the points of each operation, and the step
  taken at each of them;
* `memory`, `parker`: the operations run without interruption, with direct
  contracts;
* `interleave`, `wake`: what holds whatever the order in which two or more
  threads take their steps, within the moves that each of them names: of a
  shared value, no borrow is made by the owner while it waits;
* `laws`: how the operations relate to each other.

| module | contents |
| --- | --- |
| `maybe` | cells that may be empty |
| `util` | heap, pointers |
| `channel` | `send_once`, `channel`, `Flush` |
| `shared`, `scoped` | `Lender`, `Shared`, `Collect`, `PinShared`, `with_scope` |
| `raw_park`, `listen`, `thread` | parkers, listeners, blocking |
| `raw_lock`, `lock` | locks, and what the answers of the system mean |
| `task` | functions run elsewhere |
| `stream`, `async_stream` | streams |
| `exec` | pools of threads, scopes |
| `types`, `error`, `poll` | times, errors, results |

The number of processors is the one thing that the library takes on trust
(`exec::config`).

`app/` shares the memory of the library between threads under a mutex, and
calls the wakers. Its parker drives the steps with atomic operations on a
shared word.
