//! The status decoders on every raw byte and on sampled raw words.

use subsystem_driver::status::{PosVelType, RefTimeStatus, SolutionStatus};

#[test]
fn solution_status_table() {
    let table = [
        (0, SolutionStatus::SolComputed),
        (1, SolutionStatus::InsufficientObservations),
        (2, SolutionStatus::NoConvergence),
        (3, SolutionStatus::Singularity),
        (4, SolutionStatus::CovarianceTraceExceeded),
        (5, SolutionStatus::TestDistanceExceeded),
        (6, SolutionStatus::ColdStart),
        (7, SolutionStatus::HeightVelocityExceeded),
        (8, SolutionStatus::VarianceExceeded),
        (9, SolutionStatus::ResidualsTooLarge),
        (13, SolutionStatus::IntegrityWarning),
        (18, SolutionStatus::Pending),
        (19, SolutionStatus::InvalidFix),
        (20, SolutionStatus::Unauthorized),
    ];
    for code in 0..=1000u32 {
        let expected = table
            .iter()
            .find(|(c, _)| *c == code)
            .map(|(_, s)| *s)
            .unwrap_or(SolutionStatus::KubosInvalid);
        assert_eq!(SolutionStatus::from(code), expected);
    }
}

#[test]
fn pos_vel_type_table() {
    let table = [
        (0, PosVelType::NoSolution),
        (1, PosVelType::FixedPos),
        (2, PosVelType::FixedHeight),
        (8, PosVelType::DopplerVelocity),
        (16, PosVelType::Single),
        (17, PosVelType::PSRDiff),
        (18, PosVelType::WAAS),
        (19, PosVelType::Propagated),
        (20, PosVelType::Omnistar),
        (32, PosVelType::L1Float),
        (33, PosVelType::IonoFreeFloat),
        (34, PosVelType::NarrowFloat),
        (48, PosVelType::L1Integer),
        (50, PosVelType::NarrowInteger),
        (64, PosVelType::OmnistarHP),
        (65, PosVelType::OmnistarXP),
        (68, PosVelType::PPPConverging),
        (69, PosVelType::PPP),
        (70, PosVelType::Operational),
        (71, PosVelType::Warning),
        (72, PosVelType::OutOfBounds),
        (77, PosVelType::PPPBasicConverging),
        (78, PosVelType::PPPBasic),
    ];
    for code in 0..=1000u32 {
        let expected = table
            .iter()
            .find(|(c, _)| *c == code)
            .map(|(_, s)| *s)
            .unwrap_or(PosVelType::KubosInvalid);
        assert_eq!(PosVelType::from(code), expected);
    }
}

#[test]
fn ref_time_status_every_byte() {
    let table = [
        (20, RefTimeStatus::Unknown),
        (60, RefTimeStatus::Approximate),
        (80, RefTimeStatus::CoarseAdjusting),
        (100, RefTimeStatus::Coarse),
        (120, RefTimeStatus::CoarseSteering),
        (130, RefTimeStatus::FreeWheeling),
        (140, RefTimeStatus::FineAdjusting),
        (160, RefTimeStatus::Fine),
        (170, RefTimeStatus::FineBackupSteering),
        (180, RefTimeStatus::FineSteering),
        (200, RefTimeStatus::SatTime),
    ];
    for code in 0..=255u8 {
        let expected = table
            .iter()
            .find(|(c, _)| *c == code)
            .map(|(_, s)| *s)
            .unwrap_or(RefTimeStatus::KubosInvalid);
        assert_eq!(RefTimeStatus::from(code), expected);
    }
}

#[test]
fn unknown_words_are_invalid_not_errors() {
    for code in [
        10u32, 11, 12, 14, 17, 21, 79, 255, 256, 65535, 65536, 0x7FFF_FFFF, 0x8000_0000,
        0xFFFF_FFFE, u32::MAX,
    ] {
        assert_eq!(SolutionStatus::from(code), SolutionStatus::KubosInvalid);
    }
    for code in [
        3u32, 7, 9, 15, 21, 31, 35, 49, 51, 66, 67, 73, 76, 79, 256, 65536, 0x8000_0000, u32::MAX,
    ] {
        assert_eq!(PosVelType::from(code), PosVelType::KubosInvalid);
    }
    let mut code: u32 = 21;
    while code < u32::MAX - 1_000_003 {
        assert_eq!(SolutionStatus::from(code), SolutionStatus::KubosInvalid);
        assert_eq!(PosVelType::from(code + 58), PosVelType::KubosInvalid);
        code += 1_000_003;
    }
}

#[test]
fn into_decodes_as_from_does() {
    let status: SolutionStatus = 13u32.into();
    assert_eq!(status, SolutionStatus::IntegrityWarning);
    let kind: PosVelType = 50u32.into();
    assert_eq!(kind, PosVelType::NarrowInteger);
    let time: RefTimeStatus = 180u8.into();
    assert_eq!(time, RefTimeStatus::FineSteering);
}
