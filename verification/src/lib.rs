//! The decisions of a Docker container watchdog, with what they promise.
//!
//! A container is polled in steps. The caller inspects it, looks at its maintenance marker and
//! starts or restarts it as [`poll::poll_container`] asks for, and hands each result back; the
//! library keeps track of the container ([`state::ContainerState`]) and decides what comes next.
pub mod docker;
pub mod laws;
pub mod maintenance;
pub mod meaning;
pub mod notice;
pub mod poll;
pub mod state;
pub mod time;
