//! Port scanning engine and Wi-Fi survey helpers.
//!
//! The library holds the decisions and computations of the engine; sockets,
//! processes and timers are driven by the caller, which hands the observed
//! outcomes back to the functions here.

pub mod capture;
pub mod interface_manager;
pub mod port_scanner;
mod text;
pub mod wifi_scanner;

pub use capture::PacketCapture;
pub use interface_manager::{
    CommandOutput, InterfaceManager, InterfaceView, ToolError, WifiInterface,
};
pub use port_scanner::{
    lookup_service, PortRange, PortResult,
    PortScanner, PortState, Protocol, ScanError, ScanInfo, TargetAddr, UdpOutcome,
    DEFAULT_MAX_PARALLEL, DEFAULT_TIMEOUT_MS,
};
pub use wifi_scanner::{
    Network, NetworkView, SecurityReport, SecurityType, WiFiScanner, DEFAULT_SCAN_DURATION_MS,
    NO_SIGNAL,
};
