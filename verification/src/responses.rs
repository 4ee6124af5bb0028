//! The records in which a service reports to its clients what the driver
//! did and what the store holds. They carry no logic of their own.

use crate::telemetry::{TelemetryNominal, VersionInfo};
use vstd::prelude::*;

verus! {

/// Common response fields structure for requests
/// which don't return any specific data
#[derive(Debug, Clone, PartialEq, Eq)]
pub struct GenericResponse {
    /// Any errors encountered by the request
    pub errors: String,
    /// Request completion success or failure
    pub success: bool,
}

/// The last mutation that the service executed
#[derive(Debug, Clone, Copy, PartialEq, Eq, Structural)]
pub enum AckCommand {
    /// No mutations have been executed
    NoCommand,
    /// No-Op
    Noop,
    /// System power state was changed
    ControlPower,
    /// System configuration was updated
    ConfigureHardware,
    /// A hardware test was performed
    TestHardware,
    /// A raw command was passed through to the system
    IssueRawCommand,
}

/// A request to configure the hardware. The interval and the offset are
/// held as the bit patterns of double-precision numbers of seconds.
#[derive(Debug, Clone, Copy, PartialEq, Eq, Structural)]
pub struct ConfigStruct {
    /// Configuration option to send to the system
    pub option: ConfigOption,
    /// (For "Log*" config options) Indicates whether the logging should persist
    /// through an "UnlogAll" request
    pub hold: bool,
    /// (For "Log*" config options) The interval, in seconds, at which log
    /// messages should be generated by the system
    pub interval: u64,
    /// (For "Log*" config options) The offset, in seconds, at which log
    /// messages should be generated by the system
    pub offset: u64,
}

/// Which configuration operation should be performed
#[derive(Debug, Clone, Copy, PartialEq, Eq, Structural)]
pub enum ConfigOption {
    /// Configure system to output error data when errors or events occur
    LogErrorData,
    /// Configure system to output position data at a requested interval
    LogPositionData,
    /// Stop generation of all output data from device
    UnlogAll,
    /// Stop generation of error data from device
    UnlogErrorData,
    /// Stop generation of position data from device
    UnlogPositionData,
}

/// Response fields for a hardware configuration request
#[derive(Debug, Clone, PartialEq, Eq)]
pub struct ConfigureHardwareResponse {
    /// An echo of the configuration options which were requested
    pub config: String,
    /// Any errors encountered by the request
    pub errors: String,
    /// Request completion success or failure
    pub success: bool,
}

/// Which test should be run
#[derive(Debug, Clone, Copy, PartialEq, Eq, Structural)]
pub enum TestType {
    /// Integration (non-invasive) test
    Integration,
    /// Hardware (invasive) test
    Hardware,
}

/// Results of a hardware test request
#[derive(Debug, Clone, PartialEq, Eq)]
pub enum TestResults {
    /// Integration test results
    Integration(IntegrationTestResults),
    /// Hardware test results
    Hardware(HardwareTestResults),
}

/// Response fields for an integration test
#[derive(Debug, Clone, PartialEq, Eq)]
pub struct IntegrationTestResults {
    /// Any errors encountered by the request
    pub errors: String,
    /// Request completion success or failure
    pub success: bool,
    /// Debug telemetry
    pub telemetry_debug: Option<VersionInfo>,
    /// Nominal telemetry
    pub telemetry_nominal: TelemetryNominal,
}

/// Response fields for a hardware test
#[derive(Debug, Clone, PartialEq, Eq)]
pub struct HardwareTestResults {
    /// Any errors encountered by the request
    pub errors: String,
    /// Request completion success or failure
    pub success: bool,
    /// Test results
    pub data: String,
}

/// Power state of the system
#[derive(Debug, Clone, Copy, PartialEq, Eq, Structural)]
pub enum PowerState {
    /// System is on
    On,
    /// System is off or unavailable
    Off,
}

/// Response fields for a power query
#[derive(Debug, Clone, Copy, PartialEq, Eq, Structural)]
pub struct GetPowerResponse {
    /// Current power state of the system
    pub state: PowerState,
    /// A value of 1 confirms that the system is on.
    /// A value of 0 confirms that the system is off or unavailable
    pub uptime: i32,
}

} // verus!
