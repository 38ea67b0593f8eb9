# QRForge

QRForge is a local-first tray utility that scans QR codes from a selected display.
Capture and decoding stay in native memory; nothing is uploaded or persisted.

This repository holds the verified core as a Verus library (`src/`) and the native
host around it (`app/`).

## Library (`src/`)

- `hotkey`, `monitor`, `capture`, `detection`, `payload`, `settings`: the domain values,
  their validation, canonical hotkey text and the payload safety classification.
- `scan`: the one-shot capture, decode and payload-policy use case.
- `results`: the multi-code chooser session and its action policy.
- `settings_state`, `settings_service`: held settings and the transactional update.
- `storage`: reading the versioned settings document with migration and per-field
  fallback.
- `display`: display ordering, stable identifiers, labels and selection.
- `decoder`: QR-family decoding with ZXing-C++.
- `hotkey_registration`: transactional replacement of the registered global hotkey.
- `diagnostics`, `desktop`: the privacy-safe diagnostics snapshot, log rotation rule,
  sanitized command errors and user-facing feedback text.

The library's functions are checked by Verus against their `requires`/`ensures`
contracts; the port traits, which the host implements, carry none. The chooser, the
settings service and the hotkey registration keep a ghost record of the port calls they
make, with each call's outcome, so their contracts state which calls an operation makes
and with what arguments. The scan service is shared between threads, so each scan report
carries the record of its own exchange with the ports instead: the display asked for, the
capture and decoder answers, the browser or clipboard call, the notifications delivered
and the clock readings. The decisions around each call also stand in public functions
with exact contracts. Calls into outside crates
go through small trusted wrappers whose contracts are documented at their definition.

## Host (`app/`)

The Tauri tray host, IPC commands, windows, notifications, launch at sign-in, the
settings file, screen capture through xcap and the browser and clipboard adapters.
