//! The service's persisted state: the last accepted TOTP step.

use vstd::prelude::*;

use crate::error::OtpuacError;
use crate::text;
use crate::text::{push_decimal, string_of};

verus! {

pub const STATE_VERSION: u32 = 1;

/// What the service keeps between runs.
#[derive(Clone, Debug)]
pub struct RuntimeState {
    pub version: u32,
    pub last_accepted_totp_step: Option<u64>,
}

impl Default for RuntimeState {
    fn default() -> (r: Self)
        ensures
            r.version == STATE_VERSION,
            r.last_accepted_totp_step is None,
    {
        Self::new(None)
    }
}

impl RuntimeState {
    /// The current state format holding `last_accepted_totp_step`.
    pub fn new(last_accepted_totp_step: Option<u64>) -> (r: Self)
        ensures
            r.version == STATE_VERSION,
            r.last_accepted_totp_step == last_accepted_totp_step,
    {
        RuntimeState { version: STATE_VERSION, last_accepted_totp_step }
    }

    /// Only the current state format is accepted.
    pub fn validate(&self) -> (r: Result<(), OtpuacError>)
        ensures
            r is Ok <==> self.version == STATE_VERSION,
            r matches Err(e) ==> (e matches OtpuacError::InvalidState(m) && m@
                == "unsupported service state version "@ + text::decimal(self.version as nat)),
    {
        if self.version != STATE_VERSION {
            let mut m = string_of("unsupported service state version ");
            push_decimal(&mut m, self.version as u64);
            return Err(OtpuacError::InvalidState(m));
        }
        Ok(())
    }
}

} // verus!
