//! Decoding of the receiver's raw status codes.
//!
//! Each enumeration has a fixed table of raw codes. A code outside the table
//! is not an error: it decodes to the `KubosInvalid` variant, so that a
//! firmware revision with new codes cannot stop the driver.

use vstd::prelude::*;
use vstd::std_specs::convert::FromSpecImpl;

verus! {

/// Whether a position or velocity solution could be computed.
#[derive(Debug, Clone, Copy, PartialEq, Eq, Structural)]
pub enum SolutionStatus {
    /// Solution computed
    SolComputed,
    /// Insufficient observations
    InsufficientObservations,
    /// No convergence
    NoConvergence,
    /// Singularity at parameters matrix
    Singularity,
    /// Covariance trace exceeds maximum (trace > 1000 m)
    CovarianceTraceExceeded,
    /// Test distance exceeded (maximum of 3 rejections if distance >10 km)
    TestDistanceExceeded,
    /// Not yet converged from cold start
    ColdStart,
    /// Height or velocity limits exceeded
    HeightVelocityExceeded,
    /// Variance exceeds limits
    VarianceExceeded,
    /// Residuals are too large
    ResidualsTooLarge,
    /// Large residuals make position unreliable
    IntegrityWarning,
    /// Position being computed
    Pending,
    /// Invalid fixed position
    InvalidFix,
    /// Position type is unauthorized
    Unauthorized,
    /// Unknown solution status value encountered
    KubosInvalid,
}

impl SolutionStatus {
    /// The raw codes that the solution status table lists.
    pub open spec fn recognizes(code: u32) -> bool {
        code <= 9 || code == 13 || code == 18 || code == 19 || code == 20
    }

    /// The meaning of a raw code: its table entry, or `KubosInvalid` where the
    /// table has none.
    pub open spec fn of_code(t: u32) -> SolutionStatus {
        match t {
            0 => SolutionStatus::SolComputed,
            1 => SolutionStatus::InsufficientObservations,
            2 => SolutionStatus::NoConvergence,
            3 => SolutionStatus::Singularity,
            4 => SolutionStatus::CovarianceTraceExceeded,
            5 => SolutionStatus::TestDistanceExceeded,
            6 => SolutionStatus::ColdStart,
            7 => SolutionStatus::HeightVelocityExceeded,
            8 => SolutionStatus::VarianceExceeded,
            9 => SolutionStatus::ResidualsTooLarge,
            13 => SolutionStatus::IntegrityWarning,
            18 => SolutionStatus::Pending,
            19 => SolutionStatus::InvalidFix,
            20 => SolutionStatus::Unauthorized,
            _ => SolutionStatus::KubosInvalid,
        }
    }
}

impl FromSpecImpl<u32> for SolutionStatus {
    open spec fn obeys_from_spec() -> bool {
        true
    }

    open spec fn from_spec(t: u32) -> SolutionStatus {
        SolutionStatus::of_code(t)
    }
}

impl From<u32> for SolutionStatus {
    /// Decodes a raw solution status. Total: a code that the table does not
    /// list gives `KubosInvalid`.
    fn from(t: u32) -> (status: SolutionStatus)
        ensures
            status is KubosInvalid <==> !SolutionStatus::recognizes(t),
    {
        match t {
            0 => SolutionStatus::SolComputed,
            1 => SolutionStatus::InsufficientObservations,
            2 => SolutionStatus::NoConvergence,
            3 => SolutionStatus::Singularity,
            4 => SolutionStatus::CovarianceTraceExceeded,
            5 => SolutionStatus::TestDistanceExceeded,
            6 => SolutionStatus::ColdStart,
            7 => SolutionStatus::HeightVelocityExceeded,
            8 => SolutionStatus::VarianceExceeded,
            9 => SolutionStatus::ResidualsTooLarge,
            13 => SolutionStatus::IntegrityWarning,
            18 => SolutionStatus::Pending,
            19 => SolutionStatus::InvalidFix,
            20 => SolutionStatus::Unauthorized,
            _ => SolutionStatus::KubosInvalid,
        }
    }
}

/// The kind of a position or velocity solution.
#[derive(Debug, Clone, Copy, PartialEq, Eq, Structural)]
pub enum PosVelType {
    /// No solution
    NoSolution,
    /// Fixed position
    FixedPos,
    /// Fixed height
    FixedHeight,
    /// Velocity computed using instantaneous Doppler
    DopplerVelocity,
    /// Single point position
    Single,
    /// Pseudorange differential solution
    PSRDiff,
    /// Solution calculated using corrections from an WAAS
    WAAS,
    /// Propagated by a Kalman filter without new observations
    Propagated,
    /// OmniSTAR VBS position
    Omnistar,
    /// Floating L1 ambiguity solution
    L1Float,
    /// Floating ionospheric-free ambiguity solution
    IonoFreeFloat,
    /// Floating narrow-lane ambiguity solution
    NarrowFloat,
    /// Integer L1 ambiguity solution
    L1Integer,
    /// Integer narrow-lane ambiguity solution
    NarrowInteger,
    /// OmniSTAR HP position
    OmnistarHP,
    /// OmniSTAR XP or G2 position
    OmnistarXP,
    /// Converging TerraStar-C solution
    PPPConverging,
    /// Converged TerraStar-C solution
    PPP,
    /// Solution accuracy is within UAL operational limit
    Operational,
    /// Solution accuracy is outside UAL operational limit but within warning limit
    Warning,
    /// Solution accuracy is outside UAL limits
    OutOfBounds,
    /// Converging TerraStar-L solution
    PPPBasicConverging,
    /// Converged TerraStar-L solution
    PPPBasic,
    /// Unknown type value encountered
    KubosInvalid,
}

impl PosVelType {
    /// The raw codes that the solution type table lists.
    pub open spec fn recognizes(code: u32) -> bool {
        code <= 2 || code == 8 || (16 <= code <= 20) || (32 <= code <= 34) || code == 48
            || code == 50 || code == 64 || code == 65 || (68 <= code <= 72) || code == 77
            || code == 78
    }

    /// The meaning of a raw code: its table entry, or `KubosInvalid` where the
    /// table has none.
    pub open spec fn of_code(t: u32) -> PosVelType {
        match t {
            0 => PosVelType::NoSolution,
            1 => PosVelType::FixedPos,
            2 => PosVelType::FixedHeight,
            8 => PosVelType::DopplerVelocity,
            16 => PosVelType::Single,
            17 => PosVelType::PSRDiff,
            18 => PosVelType::WAAS,
            19 => PosVelType::Propagated,
            20 => PosVelType::Omnistar,
            32 => PosVelType::L1Float,
            33 => PosVelType::IonoFreeFloat,
            34 => PosVelType::NarrowFloat,
            48 => PosVelType::L1Integer,
            50 => PosVelType::NarrowInteger,
            64 => PosVelType::OmnistarHP,
            65 => PosVelType::OmnistarXP,
            68 => PosVelType::PPPConverging,
            69 => PosVelType::PPP,
            70 => PosVelType::Operational,
            71 => PosVelType::Warning,
            72 => PosVelType::OutOfBounds,
            77 => PosVelType::PPPBasicConverging,
            78 => PosVelType::PPPBasic,
            _ => PosVelType::KubosInvalid,
        }
    }
}

impl FromSpecImpl<u32> for PosVelType {
    open spec fn obeys_from_spec() -> bool {
        true
    }

    open spec fn from_spec(t: u32) -> PosVelType {
        PosVelType::of_code(t)
    }
}

impl From<u32> for PosVelType {
    /// Decodes a raw solution type. Total: a code that the table does not
    /// list gives `KubosInvalid`.
    fn from(t: u32) -> (kind: PosVelType)
        ensures
            kind is KubosInvalid <==> !PosVelType::recognizes(t),
    {
        match t {
            0 => PosVelType::NoSolution,
            1 => PosVelType::FixedPos,
            2 => PosVelType::FixedHeight,
            8 => PosVelType::DopplerVelocity,
            16 => PosVelType::Single,
            17 => PosVelType::PSRDiff,
            18 => PosVelType::WAAS,
            19 => PosVelType::Propagated,
            20 => PosVelType::Omnistar,
            32 => PosVelType::L1Float,
            33 => PosVelType::IonoFreeFloat,
            34 => PosVelType::NarrowFloat,
            48 => PosVelType::L1Integer,
            50 => PosVelType::NarrowInteger,
            64 => PosVelType::OmnistarHP,
            65 => PosVelType::OmnistarXP,
            68 => PosVelType::PPPConverging,
            69 => PosVelType::PPP,
            70 => PosVelType::Operational,
            71 => PosVelType::Warning,
            72 => PosVelType::OutOfBounds,
            77 => PosVelType::PPPBasicConverging,
            78 => PosVelType::PPPBasic,
            _ => PosVelType::KubosInvalid,
        }
    }
}

/// How far the receiver's reference time can be trusted.
#[derive(Debug, Clone, Copy, PartialEq, Eq, Structural)]
pub enum RefTimeStatus {
    /// Time validity is unknown
    Unknown,
    /// Time is set approximately
    Approximate,
    /// Time is approaching coarse precision
    CoarseAdjusting,
    /// Time is valid to coarse precision
    Coarse,
    /// Time is coarse set and is being steered
    CoarseSteering,
    /// Position is lost and the range bias cannot be calculated
    FreeWheeling,
    /// Time is adjusting to fine precision
    FineAdjusting,
    /// Time has fine precision
    Fine,
    /// Time is fine set and is being steered by the backup system
    FineBackupSteering,
    /// Time is fine set and is being steered
    FineSteering,
    /// Time from satellite. Only used in logs containing satellite data such as ephemeris and almanac
    SatTime,
    /// Unknown status value encountered
    KubosInvalid,
}

impl RefTimeStatus {
    /// The raw codes that the time status table lists.
    pub open spec fn recognizes(code: u8) -> bool {
        code == 20 || code == 60 || code == 80 || code == 100 || code == 120 || code == 130
            || code == 140 || code == 160 || code == 170 || code == 180 || code == 200
    }

    /// The meaning of a raw code: its table entry, or `KubosInvalid` where the
    /// table has none.
    pub open spec fn of_code(t: u8) -> RefTimeStatus {
        match t {
            20 => RefTimeStatus::Unknown,
            60 => RefTimeStatus::Approximate,
            80 => RefTimeStatus::CoarseAdjusting,
            100 => RefTimeStatus::Coarse,
            120 => RefTimeStatus::CoarseSteering,
            130 => RefTimeStatus::FreeWheeling,
            140 => RefTimeStatus::FineAdjusting,
            160 => RefTimeStatus::Fine,
            170 => RefTimeStatus::FineBackupSteering,
            180 => RefTimeStatus::FineSteering,
            200 => RefTimeStatus::SatTime,
            _ => RefTimeStatus::KubosInvalid,
        }
    }
}

impl FromSpecImpl<u8> for RefTimeStatus {
    open spec fn obeys_from_spec() -> bool {
        true
    }

    open spec fn from_spec(t: u8) -> RefTimeStatus {
        RefTimeStatus::of_code(t)
    }
}

impl From<u8> for RefTimeStatus {
    /// Decodes a raw time status. Total: a code that the table does not list
    /// gives `KubosInvalid`.
    fn from(t: u8) -> (status: RefTimeStatus)
        ensures
            status is KubosInvalid <==> !RefTimeStatus::recognizes(t),
    {
        match t {
            20 => RefTimeStatus::Unknown,
            60 => RefTimeStatus::Approximate,
            80 => RefTimeStatus::CoarseAdjusting,
            100 => RefTimeStatus::Coarse,
            120 => RefTimeStatus::CoarseSteering,
            130 => RefTimeStatus::FreeWheeling,
            140 => RefTimeStatus::FineAdjusting,
            160 => RefTimeStatus::Fine,
            170 => RefTimeStatus::FineBackupSteering,
            180 => RefTimeStatus::FineSteering,
            200 => RefTimeStatus::SatTime,
            _ => RefTimeStatus::KubosInvalid,
        }
    }
}

/// No raw solution status is refused: a code decodes to `KubosInvalid`
/// exactly when the table does not list it, and two different listed codes
/// never decode to the same status.
pub proof fn lemma_solution_status_codes(a: u32, b: u32)
    ensures
        SolutionStatus::of_code(a) is KubosInvalid <==> !SolutionStatus::recognizes(a),
        SolutionStatus::recognizes(a) && SolutionStatus::recognizes(b) && a != b
            ==> SolutionStatus::of_code(a) != SolutionStatus::of_code(b),
{
}

/// No raw solution type is refused: a code decodes to `KubosInvalid` exactly
/// when the table does not list it, and two different listed codes never
/// decode to the same type.
pub proof fn lemma_pos_vel_type_codes(a: u32, b: u32)
    ensures
        PosVelType::of_code(a) is KubosInvalid <==> !PosVelType::recognizes(a),
        PosVelType::recognizes(a) && PosVelType::recognizes(b) && a != b ==> PosVelType::of_code(a) != PosVelType::of_code(b),
{
}

/// No raw time status is refused: a code decodes to `KubosInvalid` exactly
/// when the table does not list it, and two different listed codes never
/// decode to the same status.
pub proof fn lemma_ref_time_status_codes(a: u8, b: u8)
    ensures
        RefTimeStatus::of_code(a) is KubosInvalid <==> !RefTimeStatus::recognizes(a),
        RefTimeStatus::recognizes(a) && RefTimeStatus::recognizes(b) && a != b
            ==> RefTimeStatus::of_code(a) != RefTimeStatus::of_code(b),
{
}

} // verus!
