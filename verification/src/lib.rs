//! The extensibility core of an agent: plugins register commands, offer
//! capabilities to one another over a name-keyed bus, and take part in the
//! per-turn lifecycle. Input and output are left to the host, which the
//! library addresses through requests and replies.

pub mod text;
pub mod error;
pub mod args;
pub mod payload;
pub mod host;
pub mod data;
pub mod command;
pub mod cycle;
pub mod plugin;
pub mod plugins;
pub mod registry;
pub mod turn;
