//! Verified core of the SysEnv Console Manager desktop shell: navigation metadata,
//! notification queue, log stream merging, diagnostics tool state and the other
//! decisions the user interface makes, each stated and proved with Verus.

pub mod text;
pub mod nav;
pub mod icons;
pub mod data;
pub mod theme;
pub mod panel;
pub mod toast;
pub mod logs;
pub mod network;
pub mod settings;
pub mod services;
pub mod net_config;
pub mod environment;
pub mod cleanup;
pub mod ai_env;
pub mod dashboard;
pub mod tray;
pub mod shell;
