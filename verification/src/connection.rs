//! The sticky connection to the executor.
//!
//! [`ConnectionState`] is the single record observers read: the
//! user-advanceable target port, the bound port, and the two flags.
//! [`ConnectionManager`] owns it and performs every transition. Each probe or
//! send is a real network exchange, so its outcome is unknown in advance; the
//! contracts therefore state, for both outcomes, exactly which state is
//! committed.

use vstd::prelude::*;

use crate::net::{build_client, http_get, http_post};
use crate::{spec_next_port, next_port, HOST, MAX_PORT, MIN_PORT};
use vstd::string::StringExecFns;

verus! {

/// The token the executor answers with on `GET /secret`.
pub const SECRET_TOKEN: &'static str = "0xdeadbeef";

/// The shared record of the connection, read by observers and mutated only by
/// [`ConnectionManager`] operations.
#[derive(Debug, Clone, Copy, PartialEq, Eq)]
pub struct ConnectionState {
    /// The port the next reconnect attempt will target; advanced by the user.
    pub current_port: u16,
    /// The port the executor was last verified on, if any.
    pub bound_port: Option<u16>,
    /// Whether the last probe of `bound_port` succeeded.
    pub connected: bool,
    /// Raised only while a probe is in flight; every committed state has it
    /// lowered.
    pub connecting: bool,
}

impl ConnectionState {
    /// The record's invariant: a connection is recorded exactly when a port is
    /// bound, and the bound port is the current one; no probe is in flight in
    /// a committed state.
    pub open spec fn wf(self) -> bool {
        &&& self.connected <==> self.bound_port is Some
        &&& self.connected ==> self.bound_port == Some(self.current_port)
        &&& !self.connecting
    }

    /// Connected to `port`: bound and current agree.
    pub open spec fn spec_connected_at(port: u16) -> ConnectionState {
        ConnectionState { current_port: port, bound_port: Some(port), connected: true, connecting: false }
    }

    /// Disconnected while targeting `port`.
    pub open spec fn spec_disconnected_at(port: u16) -> ConnectionState {
        ConnectionState { current_port: port, bound_port: None, connected: false, connecting: false }
    }

    /// The state a process starts in: disconnected, targeting the lowest port.
    pub open spec fn spec_initial() -> ConnectionState {
        ConnectionState::spec_disconnected_at(MIN_PORT)
    }

    /// Build the initial state.
    pub fn initial() -> (r: ConnectionState)
        ensures
            r == ConnectionState::spec_initial(),
            r.wf(),
    {
        ConnectionState { current_port: MIN_PORT, bound_port: None, connected: false, connecting: false }
    }
}

/// Whether an HTTP exchange identified the executor: a response was received,
/// its status is 2xx, and its body is exactly the secret token.
pub open spec fn spec_probe_hit(resp: Result<(u16, String), String>) -> bool {
    match resp {
        Ok((status, body)) => 200 <= status < 300 && body@ == SECRET_TOKEN@,
        Err(_) => false,
    }
}

/// Decide a probe from the exchange's outcome. Anything short of a fully read
/// 2xx response carrying the secret token — a transport error, a timeout
/// surfaced as one, a wrong status, a wrong body — is a miss.
pub fn probe_hit(resp: &Result<(u16, String), String>) -> (r: bool)
    ensures
        r == spec_probe_hit(*resp),
{
    match resp {
        Ok((status, body)) => {
            *status >= 200 && *status < 300 && *body == SECRET_TOKEN.to_owned()
        }
        Err(_) => false,
    }
}

/// Whether an HTTP status lies in the 2xx success range.
pub open spec fn spec_is_success(status: u16) -> bool {
    200 <= status < 300
}

/// Whether a delivery's POST outcome counts as success: a fully read
/// response whose status is 2xx, and nothing else.
pub open spec fn spec_send_success(resp: Result<(u16, String), String>) -> bool {
    match resp {
        Ok((status, _)) => spec_is_success(status),
        Err(_) => false,
    }
}

/// Whether a delivery's POST outcome drops the binding: exactly a transport
/// failure. Any HTTP response, 2xx or not, keeps the binding.
pub open spec fn spec_send_clears(resp: Result<(u16, String), String>) -> bool {
    resp is Err
}

/// Decide a delivery from the POST's outcome: `.0` is whether the delivery
/// succeeded — exactly on a 2xx status — and `.1` is whether the binding
/// must be dropped — exactly on a transport failure. A response outside 2xx
/// fails the delivery but keeps the binding.
pub fn send_reply(resp: &Result<(u16, String), String>) -> (r: (bool, bool))
    ensures
        r.0 == spec_send_success(*resp),
        r.1 == spec_send_clears(*resp),
{
    match resp {
        Ok((status, _body)) => (*status >= 200 && *status < 300, false),
        Err(_) => (false, true),
    }
}

/// What one reconnect cycle did, for the caller to report to observers.
#[derive(Debug, Clone, Copy, PartialEq, Eq)]
pub enum CycleOutcome {
    /// The bound port still answers; the state is unchanged.
    StillConnected,
    /// The connection was down and a probe of the current port succeeded.
    Reconnected(u16),
    /// The connection was down and the current port did not answer.
    StillDisconnected,
}

/// Owns the [`ConnectionState`] and performs every transition on it.
pub struct ConnectionManager {
    /// The client every request goes through; requests time out per its
    /// configuration. Opaque to the proofs.
    pub client: reqwest::blocking::Client,
    /// The record all transitions commit to.
    pub state: ConnectionState,
}

impl ConnectionManager {
    /// A manager in the initial state, with a client whose requests time out
    /// after `timeout_ms` milliseconds; `None` when no client can be built.
    pub fn new(timeout_ms: u64) -> (r: Option<ConnectionManager>)
        ensures
            r is Some ==> r->0.state == ConnectionState::spec_initial() && r->0.state.wf(),
    {
        match build_client(timeout_ms) {
            Some(client) => Some(ConnectionManager { client, state: ConnectionState::initial() }),
            None => None,
        }
    }

    /// A copy of the committed state, for observers.
    pub fn get_status(&self) -> (r: ConnectionState)
        ensures
            r == self.state,
    {
        self.state
    }

    /// Probe `port` and bind to it on success. The port is taken as given,
    /// inside the configured range or not. On a miss the state is left
    /// disconnected, the target port unchanged.
    pub fn connect(&mut self, port: u16) -> (r: bool)
        requires
            old(self).state.wf(),
        ensures
            final(self).state.wf(),
            r ==> final(self).state == ConnectionState::spec_connected_at(port),
            !r ==> final(self).state == ConnectionState::spec_disconnected_at(old(self).state.current_port),
    {
        let resp = http_get(&self.client, HOST, port, "/secret");
        if probe_hit(&resp) {
            self.state = ConnectionState {
                current_port: port,
                bound_port: Some(port),
                connected: true,
                connecting: false,
            };
            true
        } else {
            self.state = ConnectionState {
                current_port: self.state.current_port,
                bound_port: None,
                connected: false,
                connecting: false,
            };
            false
        }
    }

    /// Re-probe the bound port, if any: a liveness check that heals the record
    /// on failure. Returns true exactly when a bound port was recorded and
    /// still answers; then the state is unchanged. Otherwise the state is left
    /// disconnected, the target port unchanged.
    pub fn is_connected(&mut self) -> (r: bool)
        requires
            old(self).state.wf(),
        ensures
            final(self).state.wf(),
            r ==> old(self).state.connected && final(self).state == old(self).state,
            !r ==> final(self).state == ConnectionState::spec_disconnected_at(old(self).state.current_port),
            !old(self).state.connected ==> !r,
    {
        let bound = self.state.bound_port;
        match bound {
            Some(port) => {
                let resp = http_get(&self.client, HOST, port, "/secret");
                if probe_hit(&resp) {
                    true
                } else {
                    self.state = ConnectionState {
                        current_port: self.state.current_port,
                        bound_port: None,
                        connected: false,
                        connecting: false,
                    };
                    false
                }
            }
            None => false,
        }
    }

    /// Deliver `payload` over the bound connection. With no bound port the
    /// call fails at once and changes nothing. Otherwise the payload is POSTed
    /// to `/execute` and the response is decided by [`send_reply`], whose
    /// contract fixes both halves of the decision: the result is true exactly
    /// when the response status is 2xx, and the binding is dropped exactly on
    /// a transport failure — a response outside 2xx fails the delivery but
    /// leaves the binding in place.
    pub fn send(&mut self, payload: &str) -> (r: bool)
        requires
            old(self).state.wf(),
        ensures
            final(self).state.wf(),
            !old(self).state.connected ==> !r && final(self).state == old(self).state,
            r ==> old(self).state.connected && final(self).state == old(self).state,
            final(self).state == old(self).state
                || final(self).state == ConnectionState::spec_disconnected_at(old(self).state.current_port),
    {
        let bound = self.state.bound_port;
        match bound {
            Some(port) => {
                let resp = http_post(&self.client, HOST, port, "/execute", payload);
                let (success, clear) = send_reply(&resp);
                if clear {
                    self.state = ConnectionState {
                        current_port: self.state.current_port,
                        bound_port: None,
                        connected: false,
                        connecting: false,
                    };
                }
                success
            }
            None => false,
        }
    }

    /// Deliver the setting command `"<key> <value>"` over the bound
    /// connection, exactly as [`Self::send`] delivers a script — the wire
    /// protocol does not distinguish the two — with the response decided by
    /// [`send_reply`] as there.
    pub fn change_setting(&mut self, key: &str, value: &str) -> (r: bool)
        requires
            old(self).state.wf(),
        ensures
            final(self).state.wf(),
            !old(self).state.connected ==> !r && final(self).state == old(self).state,
            r ==> old(self).state.connected && final(self).state == old(self).state,
            final(self).state == old(self).state
                || final(self).state == ConnectionState::spec_disconnected_at(old(self).state.current_port),
    {
        let payload = format_setting(key, value);
        self.send(payload.as_str())
    }

    /// Advance the target port, wrapping from `MAX_PORT` to `MIN_PORT`, and
    /// drop any existing binding, live or not: the user asked for a different
    /// port, so the old binding no longer stands. Returns the committed state.
    pub fn increment_port(&mut self) -> (r: ConnectionState)
        ensures
            final(self).state.wf(),
            final(self).state == ConnectionState::spec_disconnected_at(
                spec_next_port(old(self).state.current_port),
            ),
            r == final(self).state,
    {
        let next = next_port(self.state.current_port);
        self.state = ConnectionState {
            current_port: next,
            bound_port: None,
            connected: false,
            connecting: false,
        };
        self.state
    }

    /// Force one probe of the current port now, committing the outcome as
    /// [`Self::connect`] does, and return the committed state.
    pub fn refresh(&mut self) -> (r: ConnectionState)
        requires
            old(self).state.wf(),
        ensures
            final(self).state.wf(),
            r == final(self).state,
            final(self).state == ConnectionState::spec_connected_at(old(self).state.current_port)
                || final(self).state == ConnectionState::spec_disconnected_at(old(self).state.current_port),
    {
        let port = self.state.current_port;
        let _ = self.connect(port);
        self.state
    }

    /// One cycle of the background reconnect loop: check liveness; when down,
    /// retry the current port. The current port is never advanced here. The
    /// outcome tells the caller which notifications to emit.
    pub fn reconnect_cycle(&mut self) -> (r: CycleOutcome)
        requires
            old(self).state.wf(),
        ensures
            final(self).state.wf(),
            r is StillConnected ==> old(self).state.connected && final(self).state == old(self).state,
            r matches CycleOutcome::Reconnected(port) ==> port == old(self).state.current_port
                && final(self).state == ConnectionState::spec_connected_at(old(self).state.current_port),
            r is StillDisconnected ==> final(self).state == ConnectionState::spec_disconnected_at(
                old(self).state.current_port,
            ),
    {
        if self.is_connected() {
            CycleOutcome::StillConnected
        } else {
            let port = self.state.current_port;
            if self.connect(port) {
                CycleOutcome::Reconnected(port)
            } else {
                CycleOutcome::StillDisconnected
            }
        }
    }
}

/// The state after one advance of the target port from `s`: disconnected,
/// targeting the next port of the cycle.
pub open spec fn spec_advanced(s: ConnectionState) -> ConnectionState {
    ConnectionState::spec_disconnected_at(spec_next_port(s.current_port))
}

/// The target port after `k` advances from `p`.
pub open spec fn spec_advance_k(p: u16, k: nat) -> u16
    decreases k,
{
    if k == 0 {
        p
    } else {
        spec_next_port(spec_advance_k(p, (k - 1) as nat))
    }
}

/// Advancing the target port cycles it through the configured range: inside
/// the range it moves one up, from `MAX_PORT` it wraps to `MIN_PORT`, and it
/// never leaves the range once inside it.
pub proof fn lemma_port_advance_cycles(p: u16)
    ensures
        MIN_PORT <= p < MAX_PORT ==> spec_next_port(p) == p + 1,
        p >= MAX_PORT ==> spec_next_port(p) == MIN_PORT,
        MIN_PORT <= p <= MAX_PORT ==> MIN_PORT <= spec_next_port(p) <= MAX_PORT,
{
}

/// Advancing the target port is idempotent on everything but the port itself:
/// one advance already commits a well-formed, fully disconnected record, and
/// any further advance commits exactly that same shape again, moving only the
/// port.
pub proof fn lemma_port_advance_idempotent_off_port(s: ConnectionState)
    ensures
        spec_advanced(s).bound_port is None,
        !spec_advanced(s).connected,
        !spec_advanced(s).connecting,
        spec_advanced(s).wf(),
        spec_advanced(spec_advanced(s)).bound_port == spec_advanced(s).bound_port,
        spec_advanced(spec_advanced(s)).connected == spec_advanced(s).connected,
        spec_advanced(spec_advanced(s)).connecting == spec_advanced(s).connecting,
{
}

proof fn lemma_advance_k_add(p: u16, a: nat, b: nat)
    ensures
        spec_advance_k(p, a + b) == spec_advance_k(spec_advance_k(p, a), b),
    decreases b,
{
    if b > 0 {
        lemma_advance_k_add(p, a, (b - 1) as nat);
    }
}

proof fn lemma_advance_k_no_wrap(p: u16, k: nat)
    requires
        MIN_PORT <= p <= MAX_PORT,
        p + k <= MAX_PORT,
    ensures
        spec_advance_k(p, k) == p + k,
    decreases k,
{
    if k > 0 {
        lemma_advance_k_no_wrap(p, (k - 1) as nat);
    }
}

/// From any port inside the range, advancing once per port of the range walks
/// the whole cycle and returns to the starting port.
pub proof fn lemma_port_advance_full_cycle(p: u16)
    requires
        MIN_PORT <= p <= MAX_PORT,
    ensures
        spec_advance_k(p, (MAX_PORT - MIN_PORT + 1) as nat) == p,
{
    let to_max = (MAX_PORT - p) as nat;
    let from_min = (p - MIN_PORT) as nat;
    lemma_advance_k_no_wrap(p, to_max);
    lemma_advance_k_add(p, to_max, 1);
    assert(spec_advance_k(p, to_max + 1) == MIN_PORT);
    lemma_advance_k_add(p, to_max + 1, from_min);
    lemma_advance_k_no_wrap(MIN_PORT, from_min);
}

/// Serialize a setting change for the wire: the key and the value joined by a
/// single space, the form the executor expects on `/execute`.
pub fn format_setting(key: &str, value: &str) -> (r: String)
    ensures
        r@ == key@ + " "@ + value@,
{
    let mut s = key.to_owned();
    s.append(" ");
    s.append(value);
    s
}

} // verus!
