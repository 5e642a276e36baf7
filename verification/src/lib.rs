//! Rule-driven routing of message-bus signals to process notifications and
//! shell commands, together with the status line of the taskbar widget.
//!
//! The library decides and never acts: it compiles rules, normalizes
//! messages, matches them, and says which actions are owed and in which
//! order. Talking to the bus, signalling processes and starting commands is
//! left to the program around it.

pub mod dispatch;
pub mod matcher;
pub mod message;
pub mod pattern;
pub mod router;
pub mod rule;
pub mod signal;
pub mod text;
pub mod unit;
pub mod waybar;

pub use dispatch::{handle_events, plan_dispatch, Action};
pub use matcher::{matches_config_rule, matching_rules};
pub use message::{parse_signal, BusMessage, MessageKind, MessageShapeError, NormalizedSignal};
pub use router::{startup, step, BusEvent, FatalError, Outcome, Router, RouterState, Startup};
pub use rule::{ConfigError, EventHandler, InternalEventHandler, RuleField, RuleSet};
pub use signal::{notify_decision, Delivery};
pub use waybar::{format_waybar, sort_by_name, BluetoothStatus, WaybarStatus};
