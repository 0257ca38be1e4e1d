use elevation_guard::elevation::{
    after_elevation_info, after_token_open, query_elevation, ElevationInfoOutcome, ProbeStep,
    TokenOpenOutcome,
};

#[test]
fn elevated_token_reports_true() {
    let status = query_elevation(
        TokenOpenOutcome::Opened,
        ElevationInfoOutcome::Reported {
            token_is_elevated: 1,
        },
    );
    assert!(status);
}

#[test]
fn non_elevated_token_reports_false() {
    let status = query_elevation(
        TokenOpenOutcome::Opened,
        ElevationInfoOutcome::Reported {
            token_is_elevated: 0,
        },
    );
    assert!(!status);
}

#[test]
fn any_nonzero_flag_reports_true() {
    let status = query_elevation(
        TokenOpenOutcome::Opened,
        ElevationInfoOutcome::Reported {
            token_is_elevated: u32::MAX,
        },
    );
    assert!(status);
}

#[test]
fn token_acquisition_failure_fails_closed() {
    let status = query_elevation(
        TokenOpenOutcome::Denied { os_error: 5 },
        ElevationInfoOutcome::Reported {
            token_is_elevated: 1,
        },
    );
    assert!(!status);
}

#[test]
fn information_query_failure_fails_closed() {
    let status = query_elevation(
        TokenOpenOutcome::Opened,
        ElevationInfoOutcome::Denied { os_error: 87 },
    );
    assert!(!status);
}

#[test]
fn both_steps_failing_fails_closed() {
    let status = query_elevation(
        TokenOpenOutcome::Denied { os_error: 5 },
        ElevationInfoOutcome::Denied { os_error: 87 },
    );
    assert!(!status);
}

#[test]
fn repeated_probes_agree() {
    let open = TokenOpenOutcome::Opened;
    let info = ElevationInfoOutcome::Reported {
        token_is_elevated: 1,
    };
    let first = query_elevation(open, info);
    let second = query_elevation(open, info);
    assert_eq!(first, second);

    let open = TokenOpenOutcome::Denied { os_error: 5 };
    let info = ElevationInfoOutcome::Denied { os_error: 6 };
    let first = query_elevation(open, info);
    let second = query_elevation(open, info);
    assert_eq!(first, second);
}

#[test]
fn open_token_moves_to_information_query() {
    let step = after_token_open(TokenOpenOutcome::Opened);
    assert_eq!(step, ProbeStep::QueryElevationInfo);
}

#[test]
fn denied_token_settles_not_elevated() {
    let step = after_token_open(TokenOpenOutcome::Denied { os_error: 1314 });
    assert_eq!(step, ProbeStep::Settled { elevated: false });
}

#[test]
fn information_outcome_settles_status() {
    assert!(after_elevation_info(ElevationInfoOutcome::Reported {
        token_is_elevated: 2,
    }));
    assert!(!after_elevation_info(ElevationInfoOutcome::Reported {
        token_is_elevated: 0,
    }));
    assert!(!after_elevation_info(ElevationInfoOutcome::Denied {
        os_error: 998,
    }));
}
