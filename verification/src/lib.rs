//! The core of a server panel: what it decides, checks and builds, apart from the network, the
//! disk and the programs that it runs.
//!
//! - Text and values: [`text`], [`spaces`], [`lines`], [`limits`], [`bytes`], [`json`],
//!   [`json_text`].
//! - Commands on servers: [`shell`], [`commands`], [`command_words`], [`archive`], [`channel`],
//!   [`transfers`], [`files`], [`failures`].
//! - Connections: [`connect`], [`sessions`], [`cache`].
//! - Tools for assistants: [`access`], [`settings`], [`escalation`], [`params`], [`calls`],
//!   [`broker`], [`dispatch`], [`protocol`], [`tools`], [`rpc`]; what holds of whole calls stands
//!   in [`requests`] (what a request comes to) and [`server_work`] (what a call does on a server).
//! - The registration of the tools: [`codex`], [`registration`].

pub mod access;
pub mod archive;
pub mod broker;
pub mod bytes;
pub mod cache;
pub mod calls;
pub mod channel;
pub mod codex;
pub mod command_words;
pub mod commands;
pub mod connect;
pub mod dispatch;
pub mod escalation;
pub mod failures;
pub mod files;
pub mod json;
pub mod json_text;
pub mod limits;
pub mod lines;
pub mod params;
pub mod protocol;
pub mod registration;
pub mod requests;
pub mod rpc;
pub mod server_work;
pub mod sessions;
pub mod settings;
pub mod shell;
pub mod spaces;
pub mod text;
pub mod tools;
pub mod transfers;
