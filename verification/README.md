# gnirehtet_gui

Session logic of a desktop front-end for gnirehtet (reverse tethering of an
Android device over `adb`), written in Verus and proved against its
specifications.

## Layout

- `src/` — the verified library.
  - `text.rs`: whitespace, trimming, splitting, searching, decimal rendering.
  - `devices.rs`: the `adb devices [-l]` listing and its parse.
  - `command_error.rs`, `controller_error.rs`: the error types, their texts
    and their ERROR_UX codes.
  - `adb_client.rs`: adb configuration, APK path choice, argument lists, the
    installed-version probe.
  - `adb_task.rs`: each adb verb as a task that asks for one process run (or
    file check) at a time and decides what comes next from its result.
  - `relay.rs`: starting the relay process: probe the port, spawn, confirm
    it is alive, claim it.
  - `session.rs`: the session controller: relay ownership, the agreed
    listen port, and the verbs that act on it.
  - `desktop.rs`: the payloads and error codes the desktop front-end
    reports.
  - `crash_watch.rs`: the relay's output as log lines, and the watcher that
    reports a relay that died on its own, once, unless it was stopped.
  - `laws.rs`: properties that span several operations.
- `tests/` — tests of the library on concrete values.
- `app/` — the desktop shell: process spawning, sockets, threads, the
  environment and the Tauri commands, driving the library.
