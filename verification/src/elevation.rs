//! The elevation prober: resolves the outcomes of the operating system's
//! security-token queries to a boolean elevation status.
//!
//! The probe has two OS steps: acquire the current process's token with
//! query-only access, then request the token-elevation information class.
//! Any failure resolves to "not elevated" (fail-closed); the status is never
//! an error to the caller.

use vstd::prelude::*;

verus! {

/// Outcome of asking the operating system to open the current process's
/// security token with query-only access rights.
#[derive(Clone, Copy, PartialEq, Eq, Structural, Debug)]
pub enum TokenOpenOutcome {
    /// The OS produced a token handle.
    Opened,
    /// The OS refused; `os_error` is the error code it reported.
    Denied { os_error: u32 },
}

/// Outcome of asking the operating system for the token-elevation
/// information class of an opened token.
#[derive(Clone, Copy, PartialEq, Eq, Structural, Debug)]
pub enum ElevationInfoOutcome {
    /// The elevation structure was filled; `token_is_elevated` is its flag,
    /// non-zero meaning the token carries administrative privilege.
    Reported { token_is_elevated: u32 },
    /// The OS could not produce the information; `os_error` is the error
    /// code it reported.
    Denied { os_error: u32 },
}

/// What the prober does after the token-acquisition step.
#[derive(Clone, Copy, PartialEq, Eq, Structural, Debug)]
pub enum ProbeStep {
    /// The token is open: request its elevation information next.
    QueryElevationInfo,
    /// The probe is settled without consulting the token further.
    Settled { elevated: bool },
}

/// The elevation status that a pair of query outcomes resolves to: elevated
/// exactly when both OS steps succeeded and the reported flag is non-zero.
/// Every failure resolves to `false`, never to an error.
pub open spec fn spec_elevation(open: TokenOpenOutcome, info: ElevationInfoOutcome) -> bool {
    &&& open is Opened
    &&& info matches ElevationInfoOutcome::Reported { token_is_elevated }
        && token_is_elevated != 0
}

/// First decision point of the probe: a token-acquisition failure settles
/// the status to "not elevated"; success moves on to the information query.
pub fn after_token_open(outcome: TokenOpenOutcome) -> (step: ProbeStep)
    ensures
        outcome is Opened ==> step is QueryElevationInfo,
        !(outcome is Opened) ==> step == (ProbeStep::Settled { elevated: false }),
{
    match outcome {
        TokenOpenOutcome::Opened => ProbeStep::QueryElevationInfo,
        TokenOpenOutcome::Denied { .. } => ProbeStep::Settled { elevated: false },
    }
}

/// Second decision point of the probe: the information-query outcome settles
/// the status. A query failure resolves to "not elevated"; otherwise the
/// status is exactly whether the reported flag is non-zero.
pub fn after_elevation_info(info: ElevationInfoOutcome) -> (elevated: bool)
    ensures
        elevated == (info matches ElevationInfoOutcome::Reported { token_is_elevated }
            && token_is_elevated != 0),
{
    match info {
        ElevationInfoOutcome::Reported { token_is_elevated } => token_is_elevated != 0,
        ElevationInfoOutcome::Denied { .. } => false,
    }
}

/// The whole probe as one decision: the elevation status that the two query
/// outcomes resolve to, under the fail-closed policy. When the first step
/// fails the second is never consulted, which the ensures reflects.
pub fn query_elevation(open: TokenOpenOutcome, info: ElevationInfoOutcome) -> (elevated: bool)
    ensures
        elevated == spec_elevation(open, info),
{
    match after_token_open(open) {
        ProbeStep::Settled { elevated } => elevated,
        ProbeStep::QueryElevationInfo => after_elevation_info(info),
    }
}

/// Law: every failure in token acquisition or in the information query
/// resolves to "not elevated" — the probe fails closed and raises no error.
pub proof fn lemma_fail_closed(open: TokenOpenOutcome, info: ElevationInfoOutcome)
    ensures
        !(open is Opened) ==> !spec_elevation(open, info),
        !(info is Reported) ==> !spec_elevation(open, info),
{
}

/// Law: the elevation status is a function of the query outcomes alone, so
/// repeated probes under the same token state return the same value.
pub proof fn lemma_probe_deterministic(
    open1: TokenOpenOutcome,
    info1: ElevationInfoOutcome,
    open2: TokenOpenOutcome,
    info2: ElevationInfoOutcome,
)
    requires
        open1 == open2,
        info1 == info2,
    ensures
        spec_elevation(open1, info1) == spec_elevation(open2, info2),
{
}

/// Law: on a token whose queries succeed, the status is exactly the reported
/// elevation flag — non-zero resolves to `true`, zero to `false`.
pub proof fn lemma_reported_flag_decides(token_is_elevated: u32)
    ensures
        spec_elevation(
            TokenOpenOutcome::Opened,
            ElevationInfoOutcome::Reported { token_is_elevated },
        ) == (token_is_elevated != 0),
{
}

} // verus!
