# dds_security

The security plugins of a DDS participant behind one interface, written and
verified in Verus.

Three plugins do the work: authentication, access control and cryptography. Each
names what it has worked on by handles. `SecurityPlugins` keeps these handles, finds
them again by participant and endpoint, and leaves the cryptographic plugin out where
nothing needs protection.

- `src/security_plugins.rs` and the files under `src/security_plugins/`: the
  interface, one file for each part of it.
- `src/state.rs`: the handles and marks that are stored, as a mathematical value.
- `src/history.rs`: what operations took in, and the state that it amounts to. Only
  proofs see this record.
- `src/plugin.rs`, `src/authentication.rs`, `src/access_control.rs`,
  `src/cryptographic.rs`: what a plugin has to implement.
- `src/recipients.rs`: the lists of recipients for encoding.
- `src/cache.rs`, `src/guid.rs`: maps and sets keyed by identifiers.
- `src/laws.rs`, `src/laws/runs.rs`: what holds across operations, and over whole runs
  of them.
- `src/types.rs`, `src/rtps.rs`, `src/qos.rs`, `src/error.rs`: the values that pass
  through.
- `app/`: the handle by which threads share the plugins.
