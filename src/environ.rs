use vstd::prelude::*;
use crate::decimal::{parse_u64, parse_u64_spec, IntErrorKind};
use crate::error::EnvironmentError;

verus! {

/// A value that is read from one environment variable, where the read cannot fail.
pub trait FromEnv: Sized {
    /// Name of the variable.
    fn var_name() -> &'static str;

    /// The value, from what the variable holds (`None` where it is unset).
    fn from_setting(value: Option<&str>) -> Self;
}

/// A value that is read from one environment variable, where the read may fail.
pub trait TryFromEnv: Sized {
    /// Name of the variable.
    fn var_name() -> &'static str;

    /// The value, from what the variable holds (`None` where it is unset).
    fn try_from_setting(value: Option<&str>) -> Result<Self, EnvironmentError>;
}

/// Variable holding the per-request timeout, in whole seconds.
pub const REQUEST_TIMEOUT_VAR: &'static str = "HFENDPOINTS_REQUEST_TIMEOUT_SEC";

/// Timeout applied when the variable is unset, in seconds.
pub const DEFAULT_TIMEOUT_SECS: u64 = 120;

/// How long a request may take, end to end, before the caller is answered
/// with a timeout.
#[derive(Clone, Copy, Debug, PartialEq, Eq, Structural)]
pub struct Timeout {
    /// Length of the timeout in whole seconds.
    pub seconds: u64,
}

impl Timeout {
    /// The timeout that a setting of the variable gives: the default where it
    /// is unset, the decimal number of seconds it holds, or `InvalidEnvVar`
    /// with the reason where it holds no such number.
    pub fn from_setting(value: Option<&str>) -> (r: Result<Timeout, EnvironmentError>)
        ensures
            value is None ==> r == Ok::<Timeout, EnvironmentError>(Timeout { seconds: DEFAULT_TIMEOUT_SECS }),
            value is Some ==> match parse_u64_spec(value->Some_0@) {
                Ok(n) => r is Ok && r->Ok_0.seconds == n,
                Err(k) => r is Err && r->Err_0 == EnvironmentError::InvalidEnvVar(
                    r->Err_0->InvalidEnvVar_0,
                    r->Err_0->InvalidEnvVar_1,
                ) && r->Err_0->InvalidEnvVar_0@ == REQUEST_TIMEOUT_VAR@
                    && r->Err_0->InvalidEnvVar_1@ == k.message_spec(),
            },
    {
        match value {
            None => Ok(Timeout { seconds: DEFAULT_TIMEOUT_SECS }),
            Some(text) => match parse_u64(text) {
                Ok(seconds) => Ok(Timeout { seconds }),
                Err(kind) => Err(
                    EnvironmentError::InvalidEnvVar(
                        REQUEST_TIMEOUT_VAR.to_owned(),
                        kind.message(),
                    ),
                ),
            },
        }
    }
}

impl TryFromEnv for Timeout {
    fn var_name() -> &'static str {
        REQUEST_TIMEOUT_VAR
    }

    fn try_from_setting(value: Option<&str>) -> (r: Result<Timeout, EnvironmentError>)
        ensures
            value is None ==> r == Ok::<Timeout, EnvironmentError>(Timeout { seconds: DEFAULT_TIMEOUT_SECS }),
            value is Some ==> match parse_u64_spec(value->Some_0@) {
                Ok(n) => r is Ok && r->Ok_0.seconds == n,
                Err(k) => r is Err && r->Err_0 is InvalidEnvVar
                    && r->Err_0->InvalidEnvVar_0@ == REQUEST_TIMEOUT_VAR@
                    && r->Err_0->InvalidEnvVar_1@ == k.message_spec(),
            },
    {
        Timeout::from_setting(value)
    }
}

} // verus!
