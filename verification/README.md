# luks_volume

A Docker volume plugin whose volumes are LUKS1-encrypted disk images. Each
volume's key is sealed by a virtual HSM: the pass-through `DummyHSM`, or the
CloudLock service, which seals keys as PKCS#7 for its certificate and unseals
them remotely.

Layout:

- `src/` — the verified library (Verus):
  - `luks.rs`: the volume driver as step functions. Each operation (create,
    mount, unmount, get, and the one-task remove, path and list) yields tasks
    for a runner and continues from their outcomes; failures are reported in
    the plugin's words and a half-built volume is removed again. HSM tasks
    are performed by the runner too, with the driver's HSM.
  - `plugin.rs`: the driver call that each request of the plugin protocol
    asks for, and the reply to what the call returned.
  - `volume.rs`, `rpc_request.rs`: the protocol's messages.
  - `crypto.rs`, `cloudlock.rs`: the HSM interface and its two HSMs.
  - `config_json.rs`: the device's `config.json`.
  - `codec.rs`, `text.rs`: Base64/UTF-8 through their crates; text helpers.
- `app/` — the program: command line, HTTP server, HTTP client of CloudLock,
  and the runner that performs the driver's tasks with the filesystem,
  `dd`, cryptsetup, mkfs and mount.
- `tests/` — tests of the library.
