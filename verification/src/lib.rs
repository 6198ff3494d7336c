//! The decision and text-building logic of a service that runs a proxy core behind a
//! tunnel: configuration from the environment, working-file paths, the proxy core's
//! configuration document, the launch plans of the helper processes, the table of managed
//! processes, the subscription and its links, the tunnel domain found in the tunnel
//! client's log, and the routing of incoming requests.

pub mod config;
pub mod ext;
pub mod files;
pub mod json;
pub mod launch;
pub mod nodes;
pub mod process;
pub mod routing;
pub mod status;
pub mod subscription;
pub mod text;
pub mod tunnel;
pub mod xray;

pub use config::Config;
pub use files::AppFiles;
pub use nodes::{get_architecture, is_proxy_link};
pub use process::{ManagedProcess, ProcessTable};
