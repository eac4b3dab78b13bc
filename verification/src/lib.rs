//! The verified core of the fenster display-configuration daemon: the
//! messages exchanged over its control socket, the model of the outputs
//! that the compositor announces, and the decisions that the daemon takes
//! on each event it receives.

pub mod ipc;
pub mod output;
pub mod state;
pub mod log_level;
pub mod paths;
pub mod session;
pub mod window;
