//! What the receiver reports, and the store that keeps the latest of it.
//!
//! The lock status is a snapshot and is replaced by every nominal report.
//! The lock information is the last known good fix: a report changes a part
//! of it only where the report's solution status for that part says that a
//! solution was computed. Floating-point values are held as their IEEE-754
//! double-precision bit patterns.

use crate::status::{PosVelType, RefTimeStatus, SolutionStatus};
use vstd::prelude::*;

verus! {

/// Raw solution status of a computed solution.
pub const SOLUTION_COMPUTED: u32 = 0;

/// Raw receiver status word with every flag set. The store shows it where
/// no fresh status could be had.
pub const ALL_FLAGS: u32 = 0xFFFF_FFFF;

/// GPS reference time.
#[derive(Debug, Clone, Copy, PartialEq, Eq, Structural)]
pub struct OEMTime {
    /// GPS reference week number
    pub week: i32,
    /// Milliseconds from the beginning of the GPS reference week
    pub ms: i32,
}

impl Default for OEMTime {
    fn default() -> (time: OEMTime)
        ensures
            time == (OEMTime { week: 0, ms: 0 }),
    {
        OEMTime { week: 0, ms: 0 }
    }
}

/// Point-in-time quality of the navigation solution, as raw codes.
#[derive(Debug, Clone, Copy, PartialEq, Eq, Structural)]
pub struct LockStatus {
    /// Validity of time data
    pub time_status: u8,
    /// Timestamp of the report that this status came with
    pub time: OEMTime,
    /// Validity of position data
    pub position_status: u32,
    /// Position data type
    pub position_type: u32,
    /// Validity of velocity data
    pub velocity_status: u32,
    /// Velocity data type
    pub velocity_type: u32,
}

impl LockStatus {
    /// The status before any report: time validity unknown, no position and
    /// no velocity for want of observations.
    pub open spec fn initial() -> LockStatus {
        LockStatus {
            time_status: 20,
            time: OEMTime { week: 0, ms: 0 },
            position_status: 1,
            position_type: 0,
            velocity_status: 1,
            velocity_type: 0,
        }
    }

    /// Whether the position of the report that came with this status is a
    /// computed solution.
    pub open spec fn position_computed(&self) -> bool {
        self.position_status == SOLUTION_COMPUTED
    }

    /// Whether the velocity of the report that came with this status is a
    /// computed solution.
    pub open spec fn velocity_computed(&self) -> bool {
        self.velocity_status == SOLUTION_COMPUTED
    }

    /// Validity of the time data, decoded.
    pub fn decoded_time_status(&self) -> (status: RefTimeStatus)
        ensures
            status == RefTimeStatus::of_code(self.time_status),
    {
        RefTimeStatus::from(self.time_status)
    }

    /// Validity of the position data, decoded.
    pub fn decoded_position_status(&self) -> (status: SolutionStatus)
        ensures
            status == SolutionStatus::of_code(self.position_status),
    {
        SolutionStatus::from(self.position_status)
    }

    /// Type of the position data, decoded.
    pub fn decoded_position_type(&self) -> (kind: PosVelType)
        ensures
            kind == PosVelType::of_code(self.position_type),
    {
        PosVelType::from(self.position_type)
    }

    /// Validity of the velocity data, decoded.
    pub fn decoded_velocity_status(&self) -> (status: SolutionStatus)
        ensures
            status == SolutionStatus::of_code(self.velocity_status),
    {
        SolutionStatus::from(self.velocity_status)
    }

    /// Type of the velocity data, decoded.
    pub fn decoded_velocity_type(&self) -> (kind: PosVelType)
        ensures
            kind == PosVelType::of_code(self.velocity_type),
    {
        PosVelType::from(self.velocity_type)
    }
}

impl Default for LockStatus {
    fn default() -> (status: LockStatus)
        ensures
            status == LockStatus::initial(),
    {
        LockStatus {
            time_status: 20,  // Unknown
            time: OEMTime { week: 0, ms: 0 },
            position_status: 1,  // Insufficient Observations
            position_type: 0,  // None
            velocity_status: 1,  // Insufficient Observations
            velocity_type: 0,  // None
        }
    }
}

/// Last known good position and velocity.
#[derive(Debug, Clone, Copy, PartialEq, Eq)]
pub struct LockInfo {
    /// Timestamp when the other fields were last updated
    pub time: OEMTime,
    /// Last known good position, as bit patterns
    pub position: [u64; 3],
    /// Last known good velocity, as bit patterns
    pub velocity: [u64; 3],
}

impl LockInfo {
    /// The lock information after a report with solution status `status`
    /// that holds the values `reported`. A part is taken from the report
    /// where the report computed it and is kept otherwise; the timestamp
    /// moves when either part does.
    pub open spec fn merged(self, status: LockStatus, reported: LockInfo) -> LockInfo {
        LockInfo {
            time: if status.position_computed() || status.velocity_computed() {
                reported.time
            } else {
                self.time
            },
            position: if status.position_computed() {
                reported.position
            } else {
                self.position
            },
            velocity: if status.velocity_computed() {
                reported.velocity
            } else {
                self.velocity
            },
        }
    }

    /// Takes over from a report what the report computed.
    pub fn merge(&mut self, status: &LockStatus, reported: &LockInfo)
        ensures
            *final(self) == old(self).merged(*status, *reported),
    {
        let position_computed: bool = status.position_status == SOLUTION_COMPUTED;
        let velocity_computed: bool = status.velocity_status == SOLUTION_COMPUTED;
        if position_computed {
            self.position = reported.position;
        }
        if velocity_computed {
            self.velocity = reported.velocity;
        }
        if position_computed || velocity_computed {
            self.time = reported.time;
        }
    }
}

impl Default for LockInfo {
    fn default() -> (info: LockInfo)
        ensures
            info.time == (OEMTime { week: 0, ms: 0 }),
            info.position@ == seq![0u64, 0u64, 0u64],
            info.velocity@ == seq![0u64, 0u64, 0u64],
    {
        let info = LockInfo {
            time: OEMTime { week: 0, ms: 0 },
            position: [0u64; 3],
            velocity: [0u64; 3],
        };
        assert(info.position@ =~= seq![0u64, 0u64, 0u64]);
        assert(info.velocity@ =~= seq![0u64, 0u64, 0u64]);
        info
    }
}

/// A known good position survives a loss of lock. After a report that
/// computed a position, any number of parts of a later report may fail: as
/// long as that report computed no position, the position is still the one
/// of the first report, and the same holds of the velocity.
pub proof fn lemma_lock_info_persists(
    info: LockInfo,
    first_status: LockStatus,
    first: LockInfo,
    second_status: LockStatus,
    second: LockInfo,
)
    ensures
        first_status.position_computed() && !second_status.position_computed() ==> info.merged(
            first_status,
            first,
        ).merged(second_status, second).position == first.position,
        first_status.velocity_computed() && !second_status.velocity_computed() ==> info.merged(
            first_status,
            first,
        ).merged(second_status, second).velocity == first.velocity,
{
}

/// A report that computed nothing changes nothing, and no report puts
/// anything into the lock information but what it computed.
pub proof fn lemma_lock_info_only_good_fixes(info: LockInfo, status: LockStatus, reported: LockInfo)
    ensures
        !status.position_computed() ==> info.merged(status, reported).position == info.position,
        !status.velocity_computed() ==> info.merged(status, reported).velocity == info.velocity,
        !status.position_computed() && !status.velocity_computed() ==> info.merged(
            status,
            reported,
        ) == info,
        status.position_computed() ==> info.merged(status, reported).position
            == reported.position,
        status.velocity_computed() ==> info.merged(status, reported).velocity
            == reported.velocity,
{
}

/// The receiver's status word: one bit for each hardware condition flag.
#[derive(Debug, Clone, Copy, PartialEq, Eq, Structural)]
pub struct ReceiverStatus(pub u32);

impl ReceiverStatus {
    /// The status shown where none could be had: every flag set.
    pub fn indeterminate() -> (status: ReceiverStatus)
        ensures
            status.0 == ALL_FLAGS,
    {
        ReceiverStatus(ALL_FLAGS)
    }

    /// Whether every flag is set.
    pub fn all_set(&self) -> (all: bool)
        ensures
            all <==> self.0 == ALL_FLAGS,
    {
        self.0 == ALL_FLAGS
    }
}

/// The receiver's status together with what is known to be wrong.
#[derive(Debug, Clone, PartialEq, Eq)]
pub struct SystemStatus {
    /// Current receiver status. If all flags are present and `errors` is not
    /// empty, the current status could not be had.
    pub status: ReceiverStatus,
    /// Error messages that came with the status
    pub errors: Vec<String>,
}

impl SystemStatus {
    /// A status that the receiver reported.
    pub fn reported(status: ReceiverStatus) -> (system: SystemStatus)
        ensures
            system.status == status,
            system.errors@.len() == 0,
    {
        SystemStatus { status, errors: Vec::new() }
    }

    /// The status shown where the receiver's could not be had: every flag
    /// set, and the reason beside it.
    pub fn unavailable(error: String) -> (system: SystemStatus)
        ensures
            system.status.0 == ALL_FLAGS,
            system.errors@ == seq![error],
    {
        let mut errors: Vec<String> = Vec::new();
        errors.push(error);
        SystemStatus { status: ReceiverStatus::indeterminate(), errors }
    }

    /// Whether this is a status that the receiver reported, not a stand-in
    /// for one that could not be had.
    pub open spec fn spec_is_fresh(&self) -> bool {
        self.errors@.len() == 0
    }

    /// Whether this is a status that the receiver reported.
    #[verifier::when_used_as_spec(spec_is_fresh)]
    pub fn is_fresh(&self) -> (fresh: bool)
        ensures
            fresh == self.spec_is_fresh(),
    {
        self.errors.len() == 0
    }
}

/// One component of the receiver, as its version report describes it.
#[derive(Debug, Clone, PartialEq, Eq)]
pub struct Component {
    /// Component type
    pub comp_type: u32,
    /// Model name
    pub model: String,
    /// Serial number
    pub serial_num: String,
    /// Hardware version
    pub hw_version: String,
    /// Firmware version
    pub sw_version: String,
    /// Boot code version
    pub boot_version: String,
    /// Firmware compile date
    pub compile_date: String,
    /// Firmware compile time
    pub compile_time: String,
}

/// System component data
#[derive(Debug, Clone, PartialEq, Eq)]
pub struct VersionComponent(pub Component);

/// Version information about the device
#[derive(Debug, Clone, PartialEq, Eq)]
pub struct VersionInfo {
    /// Number of system components
    pub num_components: i32,
    /// Data for each system component
    pub components: Vec<VersionComponent>,
}

/// Nominal telemetry as a client sees it.
#[derive(Debug, Clone, PartialEq, Eq)]
pub struct TelemetryNominal {
    /// System status
    pub system_status: SystemStatus,
    /// Last known lock status
    pub lock_status: Option<LockStatus>,
    /// Last known good lock information
    pub lock_info: Option<LockInfo>,
}

/// All telemetry as a client sees it.
#[derive(Debug, Clone, PartialEq, Eq)]
pub struct Telemetry {
    /// Nominal telemetry
    pub nominal: TelemetryNominal,
    /// Debug telemetry
    pub debug: Option<VersionInfo>,
}

/// One decoded telemetry report.
#[derive(Debug, Clone, PartialEq, Eq)]
pub enum TelemetryFrame {
    /// Nominal telemetry: the receiver's status, the quality of the current
    /// solution, and the solution itself.
    Nominal { status: ReceiverStatus, lock_status: LockStatus, lock_info: LockInfo },
    /// Debug telemetry: the versions of the receiver's components.
    Debug { version: VersionInfo },
}

/// The latest of what the receiver reported.
///
/// One writer publishes reports into it; readers take what it holds.
#[derive(Debug, Clone, PartialEq, Eq)]
pub struct StateStore {
    /// Receiver status of the latest nominal report
    pub system_status: SystemStatus,
    /// Lock status of the latest nominal report
    pub lock_status: LockStatus,
    /// Last known good position and velocity
    pub lock_info: LockInfo,
    /// Version information of the latest debug report
    pub version: Option<VersionInfo>,
}

impl StateStore {
    /// The store before any report: no receiver status yet, the initial
    /// lock status, no fix and no version information.
    pub fn new() -> (store: StateStore)
        ensures
            store.system_status.status.0 == ALL_FLAGS,
            store.system_status.errors@.len() == 1,
            store.system_status.errors@[0]@ == "no status received"@,
            store.lock_status == LockStatus::initial(),
            store.lock_info.time == (OEMTime { week: 0, ms: 0 }),
            store.lock_info.position@ == seq![0u64, 0u64, 0u64],
            store.lock_info.velocity@ == seq![0u64, 0u64, 0u64],
            store.version is None,
    {
        StateStore {
            system_status: SystemStatus::unavailable("no status received".to_string()),
            lock_status: LockStatus::default(),
            lock_info: LockInfo::default(),
            version: None,
        }
    }

    /// Takes a report into the store.
    ///
    /// A nominal report replaces the receiver status and the lock status and
    /// is merged into the lock information; the version information stays.
    /// A debug report replaces the version information and nothing else.
    pub fn publish(&mut self, frame: TelemetryFrame)
        ensures
            match frame {
                TelemetryFrame::Nominal { status, lock_status, lock_info } => {
                    &&& final(self).system_status.status == status
                    &&& final(self).system_status.errors@.len() == 0
                    &&& final(self).lock_status == lock_status
                    &&& final(self).lock_info == old(self).lock_info.merged(lock_status, lock_info)
                    &&& final(self).version == old(self).version
                },
                TelemetryFrame::Debug { version } => {
                    &&& final(self).version == Some(version)
                    &&& final(self).system_status == old(self).system_status
                    &&& final(self).lock_status == old(self).lock_status
                    &&& final(self).lock_info == old(self).lock_info
                },
            },
    {
        match frame {
            TelemetryFrame::Nominal { status, lock_status, lock_info } => {
                self.system_status = SystemStatus::reported(status);
                self.lock_status = lock_status;
                self.lock_info.merge(&lock_status, &lock_info);
            },
            TelemetryFrame::Debug { version } => {
                self.version = Some(version);
            },
        }
    }

    /// Records that the receiver's status could not be had: the store shows
    /// every flag set, with `error` beside it. Lock data and version
    /// information stay.
    pub fn status_unavailable(&mut self, error: String)
        ensures
            final(self).system_status.status.0 == ALL_FLAGS,
            final(self).system_status.errors@ == seq![error],
            final(self).lock_status == old(self).lock_status,
            final(self).lock_info == old(self).lock_info,
            final(self).version == old(self).version,
    {
        self.system_status = SystemStatus::unavailable(error);
    }

    /// Hands the content of the store out as telemetry.
    pub fn into_telemetry(self) -> (telemetry: Telemetry)
        ensures
            telemetry.nominal.system_status == self.system_status,
            telemetry.nominal.lock_status == Some(self.lock_status),
            telemetry.nominal.lock_info == Some(self.lock_info),
            telemetry.debug == self.version,
    {
        Telemetry {
            nominal: TelemetryNominal {
                system_status: self.system_status,
                lock_status: Some(self.lock_status),
                lock_info: Some(self.lock_info),
            },
            debug: self.version,
        }
    }
}

} // verus!
