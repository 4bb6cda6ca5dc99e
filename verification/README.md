# xgameruntime

The decision-making core of a GDK game runtime (`xgameruntime.dll`), verified with Verus.

`src/` holds the logic, each function with a contract Verus proves:

- `classes` - which class `QueryApiImpl` serves for a class id, and its answer.
- `handle_table` - opaque `u64` handles that resolve only while live.
- `task_queue` - task-queue ports: deadline ordering, dispatch steps, termination,
  monitors, and the process queue.
- `xasync` - the `XAsync` call protocol: the block signature, completion, cancellation,
  result delivery, `run_sync`, and the task-queue entry points.
- `system`, `store`, `gamesave`, `storage`, `networking`, `pickers` - the classes' answers,
  buffer copies, save-update batches, license and price rendering, locale, and the file
  pickers' dialog settings and operation state.
- `text`, `hresult` - character helpers and status codes.

`app/` is the process-facing part: COM ABI types, thread-local state, and everything that
touches the filesystem or the environment. `tests/` exercises the library.
