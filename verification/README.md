# dab_adapter

A Device Automation Bus (DAB) adapter for RDK devices. DAB requests arrive on an
MQTT broker; the adapter answers them through the device's Thunder JSON-RPC
interface.

## Layout

- `src/` — the verified library (Verus): the adapter's decisions, with their
  contracts. The JSON that the library reads itself (reply checks, Thunder
  properties, service states, the device identifier, key map files) is parsed
  behind small trusted wrappers around `serde_json`; answers and files that are
  read into typed records (typed device answers, the lifecycle and settings files)
  are parsed with `serde` in `app/`.
  - `dab` — DAB values and errors.
  - `text`, `codec`, `table` — strings, decimal numbers, JSON string literals,
    percent-encoding, and a table keyed by text.
  - `configuration` — the key map, app lifecycle timeouts and the settings file.
  - `interface` — reading Thunder answers (reply checks, service states,
    properties, device identity and load) and the fixed-form requests.
  - `calls` — JSON-RPC request bodies and the calls that read and change settings.
  - `system` — power modes, HDR, audio sources and modes, resolutions, settings.
  - `applications` — app states, launch plans, the launch and exit watches.
  - `input` — key presses, volume keys, long key presses, and the first key
    interface.
  - `voice` — voice systems, voice requests and the voice session.
  - `device_info`, `screenshot`, `operations` — device information, screen
    capture, operation lists and request routing.
- `app/` — the program around the library: command line, MQTT loop, HTTP to the
  device, configuration files, and the JSON forms of requests and answers.
- `tests/` — tests of the library on concrete values.

Each public proof function named `law_...` states a property that holds across
calls of the library (round trips, what a lookup gives back after an insertion,
that the polling loops end).
