//! Network reachability monitoring: the verified state and decision logic.
//!
//! The listener registry, the reachability / IP-stack bookkeeping, the
//! session lifecycle, the monitor-task decisions and the platform-report
//! parsers live here with their contracts. Locks, the async runtime engine
//! and operating-system queries are driven by the application shell around
//! this crate.
pub mod interface_state;
pub mod ip_stack;
pub mod monitor_state;
pub mod monitor_task;
pub mod net;
pub mod net_error;
pub mod network_status;
pub mod platform_report;
pub mod replies;
pub mod session;
pub mod text;

pub use interface_state::InterfaceSnapshot;
pub use ip_stack::IpStack;
pub use monitor_state::MonitorState;
pub use monitor_task::{MonitorAction, MonitorEvent, MonitorPhase, MonitorTask};
pub use net::{NetworkStatusListenerHandle, SessionScope};
pub use net_error::NetError;
pub use network_status::NetworkStatus;
pub use session::SessionSlot;
