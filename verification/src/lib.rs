//! Verified core of the gbindgen header generator: configuration schema,
//! version macros, generator settings and the run's state machine.

pub mod config;
pub mod document;
pub mod logging;
pub mod macros;
pub mod output;
pub mod package;
pub mod pipeline;
pub mod settings;
pub mod text;
pub mod version;
