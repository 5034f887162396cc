//! Config subscription: live configuration updates from the journal after
//! boot, with reconnection from the last processed sequence (at-least-once
//! delivery) and exponential backoff.
//!
//! The stream itself is driven by the agent runtime; this module keeps the
//! subscription state, decides the reconnect delays and classifies the
//! updates.

use vstd::prelude::*;

use crate::text::{chars_of, push_chars, push_str, string_from, string_of, views};

verus! {

broadcast use vstd::string::group_string_axioms;

/// Reconnection state of a subscription.
#[derive(Debug, Clone, Copy, PartialEq, Eq, Structural)]
pub struct SubscriptionState {
    /// Last successfully processed sequence number.
    pub last_sequence: u64,
    /// Number of consecutive reconnect attempts.
    pub reconnect_attempts: u32,
    /// Whether the subscription is currently connected.
    pub connected: bool,
}

impl Default for SubscriptionState {
    /// Nothing processed, no attempts, not connected.
    fn default() -> (r: Self)
        ensures
            r.last_sequence == 0,
            r.reconnect_attempts == 0,
            !r.connected,
    {
        SubscriptionState { last_sequence: 0, reconnect_attempts: 0, connected: false }
    }
}

/// Configuration of subscription behaviour.
#[derive(Debug, Clone)]
pub struct SubscriptionConfig {
    /// Node ID of this agent.
    pub node_id: String,
    /// vCluster this agent belongs to.
    pub vcluster_id: String,
    /// Base reconnect delay in milliseconds.
    pub reconnect_base_ms: u64,
    /// Maximum reconnect delay in milliseconds.
    pub reconnect_max_ms: u64,
    /// Maximum consecutive reconnect attempts before giving up.
    pub max_reconnect_attempts: u32,
}

impl Default for SubscriptionConfig {
    /// One second base, one minute cap, 100 attempts.
    fn default() -> (r: Self)
        ensures
            r.node_id@.len() == 0,
            r.vcluster_id@.len() == 0,
            r.reconnect_base_ms == 1000,
            r.reconnect_max_ms == 60_000,
            r.max_reconnect_attempts == 100,
    {
        SubscriptionConfig {
            node_id: String::new(),
            vcluster_id: String::new(),
            reconnect_base_ms: 1000,
            reconnect_max_ms: 60_000,
            max_reconnect_attempts: 100,
        }
    }
}

/// Decoded update payload.
#[derive(Debug, Clone)]
pub enum UpdatePayload {
    VClusterChange(Vec<u8>),
    NodeChange(Vec<u8>),
    PolicyChange(Vec<u8>),
    BlacklistChange(Vec<u8>),
}

/// 2 to the power `e`.
pub open spec fn two_pow(e: nat) -> nat
    decreases e,
{
    if e == 0 {
        1
    } else {
        2 * two_pow((e - 1) as nat)
    }
}

/// The backoff exponent of an attempt: the attempt number, at most 10.
pub open spec fn backoff_exponent(attempts: u32) -> nat {
    if attempts < 10 {
        attempts as nat
    } else {
        10
    }
}

/// The delay before reconnect attempt `attempts`: base times 2 to the
/// exponent, capped at the maximum.
pub open spec fn backoff_delay(base: u64, max: u64, attempts: u32) -> int {
    let d = base * two_pow(backoff_exponent(attempts));
    if d < max {
        d
    } else {
        max as int
    }
}

/// Whether the uncapped delay of an attempt fits in a `u64` (the
/// multiplication overflows otherwise).
pub open spec fn backoff_fits(base: u64, attempts: u32) -> bool {
    base * two_pow(backoff_exponent(attempts)) <= u64::MAX
}

fn two_pow_exec(e: u32) -> (r: u64)
    requires
        e <= 10,
    ensures
        r == two_pow(e as nat),
{
    let mut r: u64 = 1;
    let mut i: u32 = 0;
    while i < e
        invariant
            i <= e <= 10,
            r == two_pow(i as nat),
            r <= 1024,
        decreases e - i,
    {
        proof {
            assert(two_pow((i + 1) as nat) == 2 * two_pow(i as nat));
            lemma_two_pow_bound((i + 1) as nat);
        }
        r = r * 2;
        i = i + 1;
    }
    r
}

proof fn lemma_two_pow_bound(e: nat)
    requires
        e <= 10,
    ensures
        1 <= two_pow(e) <= two_pow(10),
        two_pow(10) == 1024,
    decreases e,
{
    reveal_with_fuel(two_pow, 11);
    if e > 0 {
        lemma_two_pow_bound((e - 1) as nat);
        lemma_two_pow_mono((e - 1) as nat, 10);
    }
}

proof fn lemma_two_pow_mono(a: nat, b: nat)
    requires
        a <= b,
    ensures
        two_pow(a) <= two_pow(b),
    decreases b,
{
    if a < b {
        lemma_two_pow_mono(a, (b - 1) as nat);
    }
}

impl SubscriptionState {
    /// Records a successful connection: connected, attempts reset.
    pub fn on_connected(&mut self)
        ensures
            *final(self) == (SubscriptionState { connected: true, reconnect_attempts: 0, ..*old(self) }),
    {
        self.connected = true;
        self.reconnect_attempts = 0;
    }

    /// Records a disconnection and decides the delay before reconnecting,
    /// or `None` once the attempts exceed the maximum.
    pub fn on_disconnected(&mut self, config: &SubscriptionConfig) -> (r: Option<u64>)
        requires
            old(self).reconnect_attempts < u32::MAX,
            (old(self).reconnect_attempts + 1) as u32 <= config.max_reconnect_attempts
                ==> backoff_fits(config.reconnect_base_ms, (old(self).reconnect_attempts + 1) as u32),
        ensures
            final(self).connected == false,
            final(self).reconnect_attempts == old(self).reconnect_attempts + 1,
            final(self).last_sequence == old(self).last_sequence,
            final(self).reconnect_attempts > config.max_reconnect_attempts ==> r is None,
            final(self).reconnect_attempts <= config.max_reconnect_attempts ==> r == Some(
                backoff_delay(config.reconnect_base_ms, config.reconnect_max_ms, final(self).reconnect_attempts) as u64,
            ),
    {
        self.connected = false;
        self.reconnect_attempts = self.reconnect_attempts + 1;
        if self.reconnect_attempts > config.max_reconnect_attempts {
            return None;
        }
        let exp = if self.reconnect_attempts < 10 { self.reconnect_attempts } else { 10 };
        let factor = two_pow_exec(exp);
        let delay = config.reconnect_base_ms * factor;
        let delay = if delay < config.reconnect_max_ms { delay } else { config.reconnect_max_ms };
        Some(delay)
    }

    /// Records a processed update: reconnection resumes after it.
    pub fn record_processed(&mut self, sequence: u64)
        ensures
            *final(self) == (SubscriptionState { last_sequence: sequence, ..*old(self) }),
    {
        self.last_sequence = sequence;
    }

    /// Completes an update once its action was handed on: `send` is the
    /// outcome of handing it to the action channel (with the error's text
    /// when the channel is closed).  The sequence is recorded only when the
    /// action was handed on; otherwise nothing changes and the error names
    /// the closed channel.
    pub fn finish_update(&mut self, sequence: u64, send: Result<(), String>) -> (r: Result<(), String>)
        ensures
            match send {
                Ok(_) => r is Ok && *final(self) == (SubscriptionState { last_sequence: sequence, ..*old(self) }),
                Err(e) => (r matches Err(m) && m@ == "action channel closed: "@ + e@) && *final(self) == *old(self),
            },
    {
        match send {
            Ok(()) => {
                self.record_processed(sequence);
                Ok(())
            },
            Err(e) => {
                let mut out: Vec<char> = Vec::new();
                push_str(&mut out, "action channel closed: ");
                push_chars(&mut out, &chars_of(e.as_str()));
                Err(string_of(&out))
            },
        }
    }

    /// The sequence to resume the subscription from.
    pub fn from_sequence(&self) -> (r: u64)
        ensures
            r == self.last_sequence,
    {
        self.last_sequence
    }
}

/// A reconnect delay never exceeds the configured maximum, and it does not
/// shrink from one attempt to the next.
pub proof fn law_backoff_bounded_monotone(base: u64, max: u64, attempts: u32)
    requires
        attempts < u32::MAX,
    ensures
        backoff_delay(base, max, attempts) <= max,
        backoff_delay(base, max, attempts) <= backoff_delay(base, max, (attempts + 1) as u32),
{
    let e1 = backoff_exponent(attempts);
    let e2 = backoff_exponent((attempts + 1) as u32);
    lemma_two_pow_mono(e1, e2);
    assert(base * two_pow(e1) <= base * two_pow(e2)) by (nonlinear_arith)
        requires
            two_pow(e1) <= two_pow(e2),
    ;
}

/// What the agent does with an update.
#[derive(Debug, Clone)]
pub enum UpdateDecision {
    /// vCluster overlay changed: re-apply these bytes.
    OverlayChanged(Vec<u8>),
    /// Node-specific delta changed: re-apply these bytes.
    NodeDeltaChanged(Vec<u8>),
    /// Policy changed: these bytes hold the new policy document.
    PolicyChanged(Vec<u8>),
    /// Blacklist patterns changed.
    BlacklistChanged(Vec<String>),
}

/// The string list a JSON document holds (`serde_json::from_slice::<Vec<String>>`),
/// or the parser's message when it holds none.
pub uninterp spec fn json_string_list(data: Seq<u8>) -> Result<Seq<Seq<char>>, Seq<char>>;

/// `serde_json::from_slice::<Vec<String>>`: the named result for the bytes.
#[verifier::external_body]
fn parse_string_list(data: &[u8]) -> (r: Result<Vec<String>, String>)
    ensures
        match r {
            Ok(v) => json_string_list(data@) == Ok::<Seq<Seq<char>>, Seq<char>>(views(v@)),
            Err(m) => json_string_list(data@) == Err::<Seq<Seq<char>>, Seq<char>>(m@),
        },
{
    match serde_json::from_slice::<Vec<String>>(data) {
        Ok(v) => Ok(v),
        Err(e) => Err(e.to_string()),
    }
}

/// Classifies an update: overlays and node deltas are passed on; a policy
/// is passed on when its document parses (`policy_parse` is the outcome of
/// parsing a policy payload into the policy type, with the parser's message
/// on failure; it is not read for other payloads); blacklists must be a
/// JSON list of strings.
pub fn classify_update(update: UpdatePayload, policy_parse: Result<(), String>) -> (r: Result<UpdateDecision, String>)
    ensures
        match update {
            UpdatePayload::VClusterChange(d) => r matches Ok(UpdateDecision::OverlayChanged(x)) && x@ == d@,
            UpdatePayload::NodeChange(d) => r matches Ok(UpdateDecision::NodeDeltaChanged(x)) && x@ == d@,
            UpdatePayload::PolicyChange(d) => match policy_parse {
                Ok(_) => r matches Ok(UpdateDecision::PolicyChanged(x)) && x@ == d@,
                Err(e) => r matches Err(m) && m@ == "invalid policy payload: "@ + e@,
            },
            UpdatePayload::BlacklistChange(d) => match json_string_list(d@) {
                Ok(p) => r matches Ok(UpdateDecision::BlacklistChanged(v)) && views(v@) == p,
                Err(e) => r matches Err(m) && m@ == "invalid blacklist payload: "@ + e,
            },
        },
{
    match update {
        UpdatePayload::VClusterChange(d) => Ok(UpdateDecision::OverlayChanged(d)),
        UpdatePayload::NodeChange(d) => Ok(UpdateDecision::NodeDeltaChanged(d)),
        UpdatePayload::PolicyChange(d) => match policy_parse {
            Ok(()) => Ok(UpdateDecision::PolicyChanged(d)),
            Err(e) => {
                let mut out: Vec<char> = Vec::new();
                push_str(&mut out, "invalid policy payload: ");
                push_chars(&mut out, &chars_of(e.as_str()));
                Err(string_of(&out))
            },
        },
        UpdatePayload::BlacklistChange(d) => match parse_string_list(d.as_slice()) {
            Ok(p) => Ok(UpdateDecision::BlacklistChanged(p)),
            Err(e) => {
                let mut out: Vec<char> = Vec::new();
                push_str(&mut out, "invalid blacklist payload: ");
                push_chars(&mut out, &chars_of(e.as_str()));
                Err(string_of(&out))
            },
        },
    }
}

} // verus!
