//! Lifecycle controller of a desktop shell that delegates its work to a
//! backend process and shows two cooperating windows.
//!
//! Every decision is taken here, over plain values; the host program performs
//! the file probes, process launches, network polls and window commands that
//! the decisions ask for, and reports back what happened.

pub mod bubble;
pub mod endpoint;
pub mod gate;
pub mod launch;
pub mod locator;
pub mod paths;
pub mod shortcut;
pub mod shutdown;
pub mod start;
pub mod startup;
pub mod supervisor;
pub mod window;
