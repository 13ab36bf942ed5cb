//! Per-client protocol session layer of a display-server compositor.
//!
//! A session keeps the identity of one client's protocol objects and bridges
//! them to the compositor's domain of surfaces, outputs and inputs. Every
//! operation is a step of a state machine: it updates the session's tables and
//! returns, in order, the effects the surrounding program has to carry out.
//!
//! * `proxy`, `facade` and `gateway` hold the session: its state, the
//!   client's requests and the compositor's callbacks.
//! * `global` and `screenshot` hold the registry of globals and the capture
//!   handshake; `buffer` and `surface` the records the tables keep.
//! * `effect` lists what a session can ask for; `collections` holds the
//!   ordered set and table the session walks; `defs` and `enums` the shared
//!   values.
//! * `input` and `mode_name` hold the modal key bindings.
//! * `laws` states what holds across operations.

pub mod buffer;
pub mod collections;
pub mod defs;
pub mod effect;
pub mod enums;
pub mod facade;
pub mod gateway;
pub mod global;
pub mod input;
pub mod laws;
pub mod mode_name;
pub mod proxy;
pub mod screenshot;
pub mod surface;
