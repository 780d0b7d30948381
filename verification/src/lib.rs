//! Decision logic of a kernel extension module that lets a privileged caller
//! change the scheduling priority of a thread named by its identifier.
//!
//! The module itself only talks to the host kernel at its edges. Everything it
//! decides lives here as verified code: which host call comes next, which
//! status a request ends with, what the wire payload means, and how names
//! go to and from the host's counted UTF-16 strings.
//!
//! - `status`: the host's status codes.
//! - `request`: the priority-change request and its wire layout.
//! - `write`: the priority-change handler, step by step.
//! - `lifecycle`: creating and removing the device and its symbolic link.
//! - `dispatch`: the table of handlers and the open/close handler.
//! - `names`: conversion between strings and counted UTF-16 strings.

pub mod dispatch;
pub mod lifecycle;
pub mod names;
pub mod request;
pub mod status;
pub mod write;
