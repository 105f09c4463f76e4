# imputio

An experimental async runtime with priority scheduling, an epoll-backed
I/O poller per executor, and a publish/subscribe event bus.

- `src/` is the library, verified with Verus: task priorities and the
  executor's priority queues (`executor`), thread and runtime
  configuration with the runtime builder (`config`, `runtime`), the event
  bus state and its poll-loop decisions (`event_bus`, `matcher`), the I/O
  registration table (`poller`) and the task header that wakers share
  (`task`).
- `app/` is the runtime around it: executor and poller threads, channels,
  futures and wakers, epoll through mio, and the event bus handles.
- `tests/` exercises the library.
