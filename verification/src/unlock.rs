//! The service's unlock decisions: rate limiting, replay protection, and the
//! response to each unlock request.

use std::collections::VecDeque;
use vstd::prelude::*;
use vstd::string::*;

use crate::audit;
use crate::audit::AuditRecord;
use crate::error::OtpuacError;
use crate::ipc::{
    ProviderUnlockRequest, ProviderUnlockResponse, UnlockDecision, UnlockFailureReason,
    CRED_UI_USAGE_SCENARIO,
};
use crate::protect::{is_protection_error, SecretProtector};
use crate::text::{copy_string, str_eq, string_of};
use crate::totp;
use crate::vault::{base64_standard_decode, ReleasedCredential, VaultFile};

verus! {

/// Instants are nanoseconds since the Unix epoch.
pub const NANOS_PER_SECOND: u64 = 1_000_000_000;

pub const MAX_FAILURES: usize = 5;

/// Failures older than this no longer count (60 s).
pub const FAILURE_WINDOW: u64 = 60_000_000_000;

/// How long a lockout lasts (300 s).
pub const LOCKOUT_DURATION: u64 = 300_000_000_000;

pub const REDACTED_PASSWORD: &'static str = "<redacted>";

/// The abstract state of a rate limiter.
pub struct LimiterState {
    pub failures: Seq<u64>,
    pub max_failures: nat,
    pub window: nat,
    pub lockout: nat,
    pub lockout_until: Option<u64>,
    pub last_accepted_step: Option<u64>,
}

/// A failure recorded at `failure` has left the window at `now` (a failure
/// stamped later than `now` never has).
pub open spec fn failure_expired_at(now: u64, failure: u64, window: nat) -> bool {
    failure <= now && now - failure > window
}

/// `failures` without the expired failures at its front.
pub open spec fn pruned(failures: Seq<u64>, now: u64, window: nat) -> Seq<u64>
    decreases failures.len(),
{
    if failures.len() > 0 && failure_expired_at(now, failures[0], window) {
        pruned(failures.drop_first(), now, window)
    } else {
        failures
    }
}

impl LimiterState {
    /// The state after asking whether a request at `now` is limited, and the
    /// answer.
    pub open spec fn check(self, now: u64) -> (LimiterState, bool) {
        match self.lockout_until {
            Some(until) if now < until => (self, true),
            _ => {
                let base = if self.lockout_until is Some {
                    Seq::empty()
                } else {
                    self.failures
                };
                let failures = pruned(base, now, self.window);
                (
                    LimiterState { failures, lockout_until: None, ..self },
                    failures.len() >= self.max_failures,
                )
            },
        }
    }

    /// The state after a failed attempt at `now`.
    pub open spec fn fail(self, now: u64) -> LimiterState {
        let failures = pruned(self.failures.push(now), now, self.window);
        LimiterState {
            failures,
            lockout_until: if failures.len() >= self.max_failures {
                Some((now + self.lockout) as u64)
            } else {
                self.lockout_until
            },
            ..self
        }
    }

    /// The state after an accepted code for `step`.
    pub open spec fn succeed(self, step: u64) -> LimiterState {
        LimiterState {
            failures: Seq::empty(),
            lockout_until: None,
            last_accepted_step: Some(
                match self.last_accepted_step {
                    Some(last) => if last >= step {
                        last
                    } else {
                        step
                    },
                    None => step,
                },
            ),
            ..self
        }
    }

    /// A step at or before the last accepted one is a replay.
    pub open spec fn is_replay(self, step: u64) -> bool {
        match self.last_accepted_step {
            Some(last) => step <= last,
            None => false,
        }
    }
}

/// Limits failed unlock attempts and remembers the last accepted TOTP step.
pub struct RateLimiter {
    failures: VecDeque<u64>,
    max_failures: usize,
    window: u64,
    lockout: u64,
    lockout_until: Option<u64>,
    last_accepted_step: Option<u64>,
}

impl RateLimiter {
    pub closed spec fn state(&self) -> LimiterState {
        LimiterState {
            failures: self.failures@,
            max_failures: self.max_failures as nat,
            window: self.window as nat,
            lockout: self.lockout as nat,
            lockout_until: self.lockout_until,
            last_accepted_step: self.last_accepted_step,
        }
    }

    /// A limiter with the default policy and no accepted step.
    pub fn new() -> (r: Self)
        ensures
            r.state() == (LimiterState {
                failures: Seq::empty(),
                max_failures: MAX_FAILURES as nat,
                window: FAILURE_WINDOW as nat,
                lockout: LOCKOUT_DURATION as nat,
                lockout_until: None,
                last_accepted_step: None,
            }),
    {
        Self::with_last_accepted_step(None)
    }

    /// A limiter with the default policy that remembers `last_accepted_step`.
    pub fn with_last_accepted_step(last_accepted_step: Option<u64>) -> (r: Self)
        ensures
            r.state() == (LimiterState {
                failures: Seq::empty(),
                max_failures: MAX_FAILURES as nat,
                window: FAILURE_WINDOW as nat,
                lockout: LOCKOUT_DURATION as nat,
                lockout_until: None,
                last_accepted_step,
            }),
    {
        Self::with_policy(MAX_FAILURES, FAILURE_WINDOW, LOCKOUT_DURATION, last_accepted_step)
    }

    /// A limiter that locks out for `lockout` nanoseconds once
    /// `max_failures` failures fall within `window` nanoseconds.
    pub fn with_policy(
        max_failures: usize,
        window: u64,
        lockout: u64,
        last_accepted_step: Option<u64>,
    ) -> (r: Self)
        ensures
            r.state() == (LimiterState {
                failures: Seq::empty(),
                max_failures: max_failures as nat,
                window: window as nat,
                lockout: lockout as nat,
                lockout_until: None,
                last_accepted_step,
            }),
    {
        RateLimiter {
            failures: VecDeque::new(),
            max_failures,
            window,
            lockout,
            lockout_until: None,
            last_accepted_step,
        }
    }

    /// Whether a request at `now` is refused. An expired lockout is lifted
    /// and forgets all failures; expired failures are dropped.
    pub fn is_limited(&mut self, now: u64) -> (r: bool)
        ensures
            (final(self).state(), r) == old(self).state().check(now),
    {
        if let Some(until) = self.lockout_until {
            if now < until {
                return true;
            }
            self.lockout_until = None;
            self.failures.clear();
        }
        self.prune(now);
        self.failures.len() >= self.max_failures
    }

    /// Records a failed attempt at `now`; reaching the failure limit starts a
    /// lockout.
    pub fn record_failure(&mut self, now: u64)
        requires
            now as nat + old(self).state().lockout <= u64::MAX,
        ensures
            final(self).state() == old(self).state().fail(now),
    {
        self.failures.push_back(now);
        self.prune(now);
        if self.failures.len() >= self.max_failures {
            self.lockout_until = Some(now + self.lockout);
        }
    }

    /// Records an accepted code for `step`: failures and lockout are cleared
    /// and the last accepted step never decreases.
    pub fn record_success(&mut self, accepted_step: u64)
        ensures
            final(self).state() == old(self).state().succeed(accepted_step),
    {
        self.failures.clear();
        self.lockout_until = None;
        self.last_accepted_step = Some(
            match self.last_accepted_step {
                Some(last_step) => if last_step >= accepted_step {
                    last_step
                } else {
                    accepted_step
                },
                None => accepted_step,
            },
        );
    }

    /// Whether `accepted_step` was already used (it is not after the last
    /// accepted step).
    pub fn is_replay(&self, accepted_step: u64) -> (r: bool)
        ensures
            r == self.state().is_replay(accepted_step),
    {
        match self.last_accepted_step {
            Some(last_step) => accepted_step <= last_step,
            None => false,
        }
    }

    /// The last accepted TOTP step.
    pub fn last_accepted_step(&self) -> (r: Option<u64>)
        ensures
            r == self.state().last_accepted_step,
    {
        self.last_accepted_step
    }

    /// The lockout delay configured for this limiter.
    pub fn lockout(&self) -> (r: u64)
        ensures
            r == self.state().lockout,
    {
        self.lockout
    }

    fn prune(&mut self, now: u64)
        ensures
            final(self).state() == (LimiterState {
                failures: pruned(old(self).state().failures, now, old(self).state().window),
                ..old(self).state()
            }),
    {
        let ghost start = self.failures@;
        while self.failures.len() > 0 && failure_expired(now, self.failures[0], self.window)
            invariant
                pruned(self.failures@, now, self.window as nat) == pruned(
                    start,
                    now,
                    self.window as nat,
                ),
                self.max_failures == old(self).max_failures,
                self.window == old(self).window,
                self.lockout == old(self).lockout,
                self.lockout_until == old(self).lockout_until,
                self.last_accepted_step == old(self).last_accepted_step,
            decreases self.failures@.len(),
        {
            let _ = self.failures.pop_front();
        }
    }
}

/// Whether a failure at `failure` has left a window of `window` nanoseconds
/// at `now`.
pub fn failure_expired(now: u64, failure: u64, window: u64) -> (r: bool)
    ensures
        r == failure_expired_at(now, failure, window as nat),
{
    failure <= now && now - failure > window
}

/// The failure window: a failure stamped at or before `now` has expired
/// exactly when it is more than `window` nanoseconds old; a failure stamped
/// after `now` never has.
pub proof fn law_failure_window(now: u64, failure: u64, window: nat)
    ensures
        failure <= now && now - failure > window ==> failure_expired_at(now, failure, window),
        failure <= now && now - failure <= window ==> !failure_expired_at(now, failure, window),
        failure > now ==> !failure_expired_at(now, failure, window),
{
}

proof fn lemma_pruned_keeps_recent(failures: Seq<u64>, now: u64, window: nat)
    requires
        failures.len() > 0,
        forall|i: int|
            0 <= i < failures.len() - 1 ==> #[trigger] failures[i] <= now && now - failures[i]
                > window,
        failures.last() <= now && now - failures.last() <= window,
    ensures
        pruned(failures, now, window) == seq![failures.last()],
    decreases failures.len(),
{
    if failures.len() == 1 {
        assert(failures =~= seq![failures.last()]);
    } else {
        assert(failures[0] <= now && now - failures[0] > window);
        let rest = failures.drop_first();
        assert forall|i: int| 0 <= i < rest.len() - 1 implies #[trigger] rest[i] <= now && now
            - rest[i] > window by {
            assert(rest[i] == failures[i + 1]);
        }
        lemma_pruned_keeps_recent(rest, now, window);
    }
}

/// Spread-out failures do not add up: when every recorded failure is older
/// than the window, a new failure leaves that single failure on record, and
/// with a limit above one it starts no lockout.
pub proof fn law_spread_failures_do_not_accumulate(state: LimiterState, now: u64)
    requires
        forall|i: int|
            0 <= i < state.failures.len() ==> #[trigger] state.failures[i] <= now && now
                - state.failures[i] > state.window,
    ensures
        state.fail(now).failures == seq![now],
        state.max_failures > 1 ==> state.fail(now).lockout_until == state.lockout_until,
{
    let pushed = state.failures.push(now);
    assert forall|i: int| 0 <= i < pushed.len() - 1 implies #[trigger] pushed[i] <= now && now
        - pushed[i] > state.window by {
        assert(pushed[i] == state.failures[i]);
    }
    lemma_pruned_keeps_recent(pushed, now, state.window);
}

/// Replaying a step: once a step is accepted, it and every earlier step are
/// replays, and the last accepted step never decreases.
pub proof fn law_accepted_steps_are_not_reusable(state: LimiterState, accepted: u64, later: u64)
    requires
        later <= accepted,
    ensures
        state.succeed(accepted).is_replay(later),
        state.succeed(accepted).last_accepted_step matches Some(l) && l >= accepted
            && (state.last_accepted_step matches Some(prev) ==> l >= prev),
        state.succeed(accepted).is_replay(accepted),
{
}

/// Only a success moves the last accepted step, and then never backwards: a
/// check and a failure keep it, and so keep every replay verdict.
pub proof fn law_last_step_only_grows(state: LimiterState, now: u64, accepted: u64, step: u64)
    ensures
        state.check(now).0.last_accepted_step == state.last_accepted_step,
        state.fail(now).last_accepted_step == state.last_accepted_step,
        state.is_replay(step) ==> state.check(now).0.is_replay(step) && state.fail(now).is_replay(
            step,
        ) && state.succeed(accepted).is_replay(step),
{
}

/// Lockout: a failure that brings the failures within the window to the
/// limit refuses every request from then until the lockout delay has passed.
pub proof fn law_lockout_after_failures(state: LimiterState, now: u64, later: u64)
    requires
        state.fail(now).failures.len() >= state.max_failures,
        now + state.lockout <= u64::MAX,
        now <= later < now + state.lockout,
    ensures
        state.fail(now).check(later).1,
        state.fail(now).check(later).0 == state.fail(now),
{
}

/// A lockout ends: once its time has come, the failures it counted are
/// forgotten, and a request is refused only if the limit is zero.
pub proof fn law_lockout_expires(state: LimiterState, now: u64)
    requires
        state.lockout_until matches Some(until) && until <= now,
    ensures
        state.check(now).0.failures == Seq::<u64>::empty(),
        state.check(now).0.lockout_until is None,
        state.check(now).1 == (state.max_failures == 0),
{
}

/// A success lifts any lockout and forgets all failures.
pub proof fn law_success_resets_limit(state: LimiterState, step: u64, now: u64)
    ensures
        state.succeed(step).check(now).1 == (state.max_failures == 0),
        state.succeed(step).lockout_until is None,
{
}

/// What one step of handling a request does to the limiter's state: an
/// approval (`approved` is `Some(step)`) is for a step that was not a replay
/// and records it; any other step keeps the last accepted step.
pub open spec fn handled(before: LimiterState, after: LimiterState, approved: Option<u64>) -> bool {
    match approved {
        Some(step) => !before.is_replay(step) && after == before.succeed(step),
        None => after.last_accepted_step == before.last_accepted_step,
    }
}

/// A run of handled steps: `states[k]` becomes `states[k + 1]` with the
/// approval `approvals[k]`.
pub open spec fn is_handled_run(states: Seq<LimiterState>, approvals: Seq<Option<u64>>) -> bool {
    &&& states.len() == approvals.len() + 1
    &&& forall|k: int|
        0 <= k < approvals.len() ==> handled(states[k], states[k + 1], #[trigger] approvals[k])
}

proof fn lemma_last_step_persists(
    states: Seq<LimiterState>,
    approvals: Seq<Option<u64>>,
    i: int,
    j: int,
    a: u64,
)
    requires
        is_handled_run(states, approvals),
        0 <= i <= j < states.len(),
        states[i].last_accepted_step == Some(a),
    ensures
        states[j].last_accepted_step matches Some(b) && b >= a,
    decreases j - i,
{
    if i < j {
        assert(handled(states[i], states[i + 1], approvals[i]));
        let b = states[i + 1].last_accepted_step->0;
        assert(states[i + 1].last_accepted_step == Some(b) && b >= a);
        lemma_last_step_persists(states, approvals, i + 1, j, b);
    }
}

/// Replay over a run of requests (each step being what `begin_unlock` and
/// `finish_unlock` ensure): the last accepted step never decreases, and a
/// later approval is always for a strictly later step than an earlier one,
/// so a step once accepted is never approved again.
pub proof fn law_approved_steps_increase(
    states: Seq<LimiterState>,
    approvals: Seq<Option<u64>>,
    i: int,
    j: int,
)
    requires
        is_handled_run(states, approvals),
        0 <= i < j < approvals.len(),
    ensures
        states[i].last_accepted_step matches Some(a) ==> states[j].last_accepted_step matches Some(
            b,
        ) && b >= a,
        approvals[i] matches Some(si) ==> (approvals[j] matches Some(sj) ==> sj > si),
{
    if states[i].last_accepted_step is Some {
        lemma_last_step_persists(states, approvals, i, j, states[i].last_accepted_step->0);
    }
    if approvals[i] is Some && approvals[j] is Some {
        let si = approvals[i]->0;
        let sj = approvals[j]->0;
        assert(handled(states[i], states[i + 1], approvals[i]));
        assert(handled(states[j], states[j + 1], approvals[j]));
        let a = states[i + 1].last_accepted_step->0;
        assert(states[i + 1].last_accepted_step == Some(a) && a >= si);
        lemma_last_step_persists(states, approvals, i + 1, j, a);
    }
}

/// `decision` denies for `reason` with `message`.
pub open spec fn is_denial(
    decision: UnlockDecision,
    reason: UnlockFailureReason,
    message: Seq<char>,
) -> bool {
    decision matches UnlockDecision::Denied { reason: r, message: m } && r == reason && m@
        == message
}

/// `decision` is the generic error answer.
pub open spec fn is_unlock_error(decision: UnlockDecision) -> bool {
    decision matches UnlockDecision::Error { message } && message@
        == "OTPUAC could not unlock the managed credential"@
}

fn denied_response(request_id: &str, reason: UnlockFailureReason, message: &str) -> (r:
    ProviderUnlockResponse)
    ensures
        r.request_id@ == request_id@,
        is_denial(r.decision, reason, message@),
{
    ProviderUnlockResponse {
        request_id: string_of(request_id),
        decision: UnlockDecision::Denied { reason, message: string_of(message) },
    }
}

fn unlock_error_response(request_id: &str) -> (r: ProviderUnlockResponse)
    ensures
        r.request_id@ == request_id@,
        is_unlock_error(r.decision),
{
    ProviderUnlockResponse {
        request_id: string_of(request_id),
        decision: UnlockDecision::Error {
            message: string_of("OTPUAC could not unlock the managed credential"),
        },
    }
}

/// The answer to a request that ends before the vault is read, if it does:
/// a usage scenario other than the UAC credential UI is denied without
/// touching the limiter, and otherwise the limiter decides.
pub fn begin_unlock(request: &ProviderUnlockRequest, limiter: &mut RateLimiter, now: u64) -> (r:
    Option<(ProviderUnlockResponse, AuditRecord)>)
    ensures
        handled(old(limiter).state(), final(limiter).state(), None),
        request.usage_scenario@ != CRED_UI_USAGE_SCENARIO@ ==> {
            &&& final(limiter).state() == old(limiter).state()
            &&& r matches Some((response, record))
            &&& response.request_id@ == request.request_id@
            &&& is_denial(
                response.decision,
                UnlockFailureReason::UnsupportedUsageScenario,
                "OTPUAC only supports UAC Credential UI requests"@,
            )
            &&& record.kind == audit::AuditKind::Warning
            &&& record.message@ == audit::rejected_text(
                request.request_id@,
                "unsupported usage scenario"@,
            )
        },
        request.usage_scenario@ == CRED_UI_USAGE_SCENARIO@ ==> {
            &&& final(limiter).state() == old(limiter).state().check(now).0
            &&& old(limiter).state().check(now).1 ==> {
                &&& r matches Some((response, record))
                &&& response.request_id@ == request.request_id@
                &&& is_denial(
                    response.decision,
                    UnlockFailureReason::RateLimited,
                    "Too many failed attempts; wait before trying again"@,
                )
                &&& record.kind == audit::AuditKind::Warning
                &&& record.message@ == audit::rate_limited_text(request.request_id@)
            }
            &&& !old(limiter).state().check(now).1 ==> r is None
        },
{
    let request_id = request.request_id.as_str();
    if !str_eq(request.usage_scenario.as_str(), CRED_UI_USAGE_SCENARIO) {
        let record = audit::unlock_rejected(request_id, "unsupported usage scenario");
        let response = denied_response(
            request_id,
            UnlockFailureReason::UnsupportedUsageScenario,
            "OTPUAC only supports UAC Credential UI requests",
        );
        return Some((response, record));
    }
    if limiter.is_limited(now) {
        let record = audit::unlock_rate_limited(request_id);
        let response = denied_response(
            request_id,
            UnlockFailureReason::RateLimited,
            "Too many failed attempts; wait before trying again",
        );
        return Some((response, record));
    }
    None
}

/// The answer when the vault could not be loaded: the generic error, with the
/// error's text in the audit log.
pub fn respond_to_vault_error(request_id: &str, error: &OtpuacError) -> (r: (
    ProviderUnlockResponse,
    AuditRecord,
))
    ensures
        r.0.request_id@ == request_id@,
        is_unlock_error(r.0.decision),
        r.1.kind == audit::AuditKind::Error,
        crate::error::error_text(*error) matches Some(t) ==> r.1.message@
            == audit::vault_error_text(request_id@, t),
{
    let message = error.message();
    let record = audit::vault_error(request_id, message.as_str());
    (unlock_error_response(request_id), record)
}

/// The answer once the code has been checked against the vault, if the
/// request ends there: a malformed or rejected code and a replayed step each
/// count as a failure and are denied; any other error is the generic error;
/// a fresh accepted step goes on to the release of the credential (`None`).
pub fn respond_to_step(
    request_id: &str,
    step: &Result<u64, OtpuacError>,
    limiter: &mut RateLimiter,
    now: u64,
) -> (r: Option<(ProviderUnlockResponse, AuditRecord)>)
    requires
        now as nat + old(limiter).state().lockout <= u64::MAX,
    ensures
        match step {
            Err(OtpuacError::InvalidTotpCode) | Err(OtpuacError::TotpRejected) => {
                &&& final(limiter).state() == old(limiter).state().fail(now)
                &&& r matches Some((response, record))
                &&& response.request_id@ == request_id@
                &&& is_denial(
                    response.decision,
                    UnlockFailureReason::InvalidCode,
                    "TOTP code was rejected"@,
                )
                &&& record.kind == audit::AuditKind::Warning
                &&& record.message@ == audit::rejected_text(request_id@, "invalid TOTP code"@)
            },
            Err(e) => {
                &&& final(limiter).state() == old(limiter).state()
                &&& r matches Some((response, record))
                &&& response.request_id@ == request_id@
                &&& is_unlock_error(response.decision)
                &&& record.kind == audit::AuditKind::Error
                &&& crate::error::error_text(*e) matches Some(t) ==> record.message@
                    == audit::vault_error_text(request_id@, t)
            },
            Ok(s) => if old(limiter).state().is_replay(*s) {
                &&& final(limiter).state() == old(limiter).state().fail(now)
                &&& r matches Some((response, record))
                &&& response.request_id@ == request_id@
                &&& is_denial(
                    response.decision,
                    UnlockFailureReason::ReplayDetected,
                    "This TOTP code was already used"@,
                )
                &&& record.kind == audit::AuditKind::Warning
                &&& record.message@ == audit::rejected_text(request_id@, "replayed TOTP code"@)
            } else {
                &&& final(limiter).state() == old(limiter).state()
                &&& r is None
            },
        },
{
    match step {
        Ok(s) => {
            if limiter.is_replay(*s) {
                limiter.record_failure(now);
                let record = audit::unlock_rejected(request_id, "replayed TOTP code");
                let response = denied_response(
                    request_id,
                    UnlockFailureReason::ReplayDetected,
                    "This TOTP code was already used",
                );
                Some((response, record))
            } else {
                None
            }
        },
        Err(OtpuacError::InvalidTotpCode) | Err(OtpuacError::TotpRejected) => {
            limiter.record_failure(now);
            let record = audit::unlock_rejected(request_id, "invalid TOTP code");
            let response = denied_response(
                request_id,
                UnlockFailureReason::InvalidCode,
                "TOTP code was rejected",
            );
            Some((response, record))
        },
        Err(e) => Some(respond_to_vault_error(request_id, e)),
    }
}

/// The approval for a released credential; unless `emit_secret` is set the
/// password is replaced by `<redacted>`.
pub fn approved_response(request_id: &str, credential: ReleasedCredential, emit_secret: bool) -> (r:
    ProviderUnlockResponse)
    ensures
        r.request_id@ == request_id@,
        r.decision matches UnlockDecision::Approved { username, domain, password } && username
            == credential.account.username && domain == credential.account.domain && (emit_secret
            ==> password@ == credential.password@) && (!emit_secret ==> password@
            == REDACTED_PASSWORD@),
{
    let ReleasedCredential { account, password } = credential;
    let password = if emit_secret {
        password
    } else {
        string_of(REDACTED_PASSWORD)
    };
    ProviderUnlockResponse {
        request_id: string_of(request_id),
        decision: UnlockDecision::Approved {
            username: account.username,
            domain: account.domain,
            password,
        },
    }
}

/// The answer once the credential has been released for an accepted step:
/// success resets the limiter and records the step; an error is the generic
/// error and leaves the limiter alone.
pub fn respond_to_release(
    request_id: &str,
    release: Result<ReleasedCredential, OtpuacError>,
    step: u64,
    limiter: &mut RateLimiter,
    emit_secret: bool,
) -> (r: (ProviderUnlockResponse, AuditRecord))
    ensures
        r.0.request_id@ == request_id@,
        match release {
            Ok(c) => {
                &&& final(limiter).state() == old(limiter).state().succeed(step)
                &&& r.0.decision matches UnlockDecision::Approved { username, domain, password }
                &&& username == c.account.username
                &&& domain == c.account.domain
                &&& emit_secret ==> password@ == c.password@
                &&& !emit_secret ==> password@ == REDACTED_PASSWORD@
                &&& r.1.kind == audit::AuditKind::Information
                &&& r.1.message@ == audit::accepted_text(request_id@, c.account.label_text())
            },
            Err(e) => {
                &&& final(limiter).state() == old(limiter).state()
                &&& is_unlock_error(r.0.decision)
                &&& r.1.kind == audit::AuditKind::Error
                &&& crate::error::error_text(e) matches Some(t) ==> r.1.message@
                    == audit::vault_error_text(request_id@, t)
            },
        },
{
    match release {
        Ok(credential) => {
            limiter.record_success(step);
            let label = credential.account.label();
            let record = audit::unlock_accepted(request_id, label.as_str());
            (approved_response(request_id, credential, emit_secret), record)
        },
        Err(e) => respond_to_vault_error(request_id, &e),
    }
}

/// The answer to a code that is refused once the vault's TOTP secret has
/// been reached: a denial for `reason` with `message`, audited with
/// `audit_reason`, that counts as a failure; unless the protector could not
/// open the secret, which is reported as an error with its protection error
/// and counts as nothing.
pub open spec fn refused_code_answer(
    request_id: Seq<char>,
    response: ProviderUnlockResponse,
    record: AuditRecord,
    before: LimiterState,
    after: LimiterState,
    now: u64,
    reason: UnlockFailureReason,
    message: Seq<char>,
    audit_reason: Seq<char>,
) -> bool {
    ||| {
        &&& is_denial(response.decision, reason, message)
        &&& after == before.fail(now)
        &&& record.kind == audit::AuditKind::Warning
        &&& record.message@ == audit::rejected_text(request_id, audit_reason)
    }
    ||| {
        &&& is_unlock_error(response.decision)
        &&& after == before
        &&& record.kind == audit::AuditKind::Error
        &&& exists|e: OtpuacError|
            is_protection_error(e) && (crate::error::error_text(e) matches Some(t)
                && record.message@ == audit::vault_error_text(request_id, t))
    }
}

/// Finishes an unlock request once the vault has been read (`vault` is the
/// outcome of reading it). An approval is given only for a code that is
/// accepted at `now_unix` against the vault's TOTP secret and whose step is
/// not a replay; it then records that step.
pub fn finish_unlock<P: SecretProtector>(
    request: &ProviderUnlockRequest,
    vault: Result<VaultFile, OtpuacError>,
    limiter: &mut RateLimiter,
    now: u64,
    now_unix: u64,
    protector: &P,
    emit_secret: bool,
) -> (r: (ProviderUnlockResponse, AuditRecord))
    requires
        now as nat + old(limiter).state().lockout <= u64::MAX,
    ensures
        r.0.request_id@ == request.request_id@,
        vault is Err ==> final(limiter).state() == old(limiter).state() && is_unlock_error(
            r.0.decision,
        ),
        (vault matches Ok(v) && (!v.is_valid() || v.totp_secret.scheme@ != protector.scheme_name()
            || base64_standard_decode(v.totp_secret.data_base64@) is None)) ==> is_unlock_error(
            r.0.decision,
        ) && final(limiter).state() == old(limiter).state(),
        r.0.decision is Approved ==> exists|step: u64|
            {
                &&& vault matches Ok(v)
                &&& v.totp_secret.plaintext(*protector) matches Some(secret)
                &&& totp::accepted_step(secret, v.totp_policy, request.totp_code@, now_unix)
                    == Some(step)
                &&& !old(limiter).state().is_replay(step)
                &&& final(limiter).state() == #[trigger] old(limiter).state().succeed(step)
                &&& v.password.plaintext(*protector) matches Some(bytes)
                &&& r.0.decision matches UnlockDecision::Approved { username, domain, password }
                &&& username@ == v.account.username@
                &&& crate::text::opt_view(domain) == v.account.domain_view()
                &&& emit_secret ==> vstd::utf8::valid_utf8(bytes) && password@ == vstd::utf8::decode_utf8(bytes)
                &&& !emit_secret ==> password@ == REDACTED_PASSWORD@
            },
        r.0.decision is Denied ==> final(limiter).state() == old(limiter).state().fail(now),
        r.0.decision is Error ==> final(limiter).state() == old(limiter).state(),
        r.0.decision matches UnlockDecision::Denied { reason, .. } ==> {
            &&& reason == UnlockFailureReason::InvalidCode || reason
                == UnlockFailureReason::ReplayDetected
            &&& vault matches Ok(v)
            &&& v.is_valid()
            &&& v.totp_secret.plaintext(*protector) matches Some(secret)
            &&& reason == UnlockFailureReason::InvalidCode ==> (!totp::is_candidate_code(
                crate::text::trim(request.totp_code@),
                v.totp_policy.digits,
            ) || totp::accepted_step(secret, v.totp_policy, request.totp_code@, now_unix) is None)
            &&& reason == UnlockFailureReason::ReplayDetected ==> (totp::accepted_step(
                secret,
                v.totp_policy,
                request.totp_code@,
                now_unix,
            ) matches Some(step) && old(limiter).state().is_replay(step))
        },
        (vault matches Ok(v) && (v.totp_secret.plaintext(*protector) matches Some(secret)
            && totp::is_candidate_code(crate::text::trim(request.totp_code@), v.totp_policy.digits)
            && (totp::accepted_step(secret, v.totp_policy, request.totp_code@, now_unix) matches Some(
            step,
        ) && !old(limiter).state().is_replay(step)))) ==> !(r.0.decision is Denied),
        exists|approved: Option<u64>|
            handled(old(limiter).state(), final(limiter).state(), approved) && (approved is Some
                <==> r.0.decision is Approved),
        (vault matches Ok(v) && (v.is_valid() && v.totp_secret.scheme@ == protector.scheme_name()
            && base64_standard_decode(v.totp_secret.data_base64@) is Some && (
        !totp::is_candidate_code(crate::text::trim(request.totp_code@), v.totp_policy.digits) || (
        v.totp_secret.plaintext(*protector) matches Some(secret) && totp::accepted_step(
            secret,
            v.totp_policy,
            request.totp_code@,
            now_unix,
        ) is None)))) ==> refused_code_answer(
            request.request_id@,
            r.0,
            r.1,
            old(limiter).state(),
            final(limiter).state(),
            now,
            UnlockFailureReason::InvalidCode,
            "TOTP code was rejected"@,
            "invalid TOTP code"@,
        ),
        (vault matches Ok(v) && (v.is_valid() && v.totp_secret.scheme@ == protector.scheme_name()
            && base64_standard_decode(v.totp_secret.data_base64@) is Some
            && totp::is_candidate_code(crate::text::trim(request.totp_code@), v.totp_policy.digits)
            && (v.totp_secret.plaintext(*protector) matches Some(secret) && (totp::accepted_step(
            secret,
            v.totp_policy,
            request.totp_code@,
            now_unix,
        ) matches Some(step) && old(limiter).state().is_replay(step))))) ==> refused_code_answer(
            request.request_id@,
            r.0,
            r.1,
            old(limiter).state(),
            final(limiter).state(),
            now,
            UnlockFailureReason::ReplayDetected,
            "This TOTP code was already used"@,
            "replayed TOTP code"@,
        ),
{
    let request_id = request.request_id.as_str();
    let vault = match vault {
        Ok(v) => v,
        Err(e) => {
            let answer = respond_to_vault_error(request_id, &e);
            proof {
                assert(handled(old(limiter).state(), limiter.state(), None));
            }
            return answer;
        },
    };
    let step = vault.accepted_totp_step(request.totp_code.as_str(), now_unix, protector);
    if let Some(answer) = respond_to_step(request_id, &step, limiter, now) {
        proof {
            assert(handled(old(limiter).state(), limiter.state(), None));
        }
        return answer;
    }
    let accepted = match step {
        Ok(s) => s,
        Err(_) => {
            let answer = respond_to_vault_error(request_id, &OtpuacError::TotpRejected);
            proof {
                assert(handled(old(limiter).state(), limiter.state(), None));
            }
            return answer;
        },
    };
    let release = vault.release_credential(protector);
    let ghost released = release is Ok;
    let answer = respond_to_release(request_id, release, accepted, limiter, emit_secret);
    proof {
        if released {
            assert(handled(old(limiter).state(), limiter.state(), Some(accepted)));
        } else {
            assert(handled(old(limiter).state(), limiter.state(), None));
        }
    }
    answer
}

/// A response with an approved password replaced by `<redacted>`.
pub fn redact_response(response: ProviderUnlockResponse) -> (r: ProviderUnlockResponse)
    ensures
        r.request_id == response.request_id,
        match (response.decision, r.decision) {
            (
                UnlockDecision::Approved { username: u0, domain: d0, .. },
                UnlockDecision::Approved { username: u1, domain: d1, password },
            ) => u1 == u0 && d1 == d0 && password@ == REDACTED_PASSWORD@,
            (UnlockDecision::Approved { .. }, _) => false,
            (before, after) => after == before,
        },
{
    let ProviderUnlockResponse { request_id, decision } = response;
    let decision = match decision {
        UnlockDecision::Approved { username, domain, .. } => UnlockDecision::Approved {
            username,
            domain,
            password: string_of(REDACTED_PASSWORD),
        },
        other => other,
    };
    ProviderUnlockResponse { request_id, decision }
}

} // verus!
