//! One-shot script delivery over a fresh range scan.
//!
//! Unlike the sticky [`crate::connection::ConnectionManager`], the dispatcher
//! keeps no state between calls: each delivery probes every port of the range
//! in ascending order, stops at the first port that answers with the secret
//! token, and sends the script there. The two discovery strategies are
//! deliberately independent: a one-shot delivery may succeed on a port other
//! than the one the sticky connection believes bound.

use vstd::prelude::*;

use crate::connection::{probe_hit, spec_is_success};
use crate::net::{build_client, http_get, http_post};
use crate::text::{spec_decimal, u16_to_decimal};
use crate::{HOST, MAX_PORT, MIN_PORT};
use vstd::string::StringExecFns;

verus! {

/// Why a one-shot delivery failed.
#[derive(Debug, Clone, PartialEq, Eq)]
pub enum ExecuteError {
    /// No port of the range answered the probe; carries a description that
    /// names the range and the last transport error seen.
    ConnectionError(String),
    /// A port answered the probe but the delivery itself failed; carries the
    /// response's status and body, or the transport error.
    ExecutionError(String),
}

/// The description of a delivery that reached a port but came back with a
/// status outside 2xx: the status in decimal, then the response body.
pub open spec fn spec_http_error(status: u16, body: Seq<char>) -> Seq<char> {
    "HTTP "@ + spec_decimal(status as int) + ": "@ + body
}

/// Build the description of a failed delivery.
pub fn http_error_message(status: u16, body: &str) -> (r: String)
    ensures
        r@ == spec_http_error(status, body@),
{
    let mut s = "HTTP ".to_owned();
    let digits = u16_to_decimal(status);
    s.append(digits.as_str());
    s.append(": ");
    s.append(body);
    proof {
        assert(s@ =~= spec_http_error(status, body@));
    }
    s
}

/// The description of an exhausted range scan: the range's bounds in decimal,
/// then the last transport error observed.
pub open spec fn spec_range_exhausted(last_error: Seq<char>) -> Seq<char> {
    "Could not locate HTTP server on ports "@ + spec_decimal(MIN_PORT as int) + "-"@
        + spec_decimal(MAX_PORT as int) + ". Last error: "@ + last_error
}

/// Build the error for a scan on which no port answered correctly.
pub fn range_exhausted_error(last_error: &str) -> (r: ExecuteError)
    ensures
        r matches ExecuteError::ConnectionError(m) && m@ == spec_range_exhausted(last_error@),
{
    let mut s = "Could not locate HTTP server on ports ".to_owned();
    let low = u16_to_decimal(MIN_PORT);
    s.append(low.as_str());
    s.append("-");
    let high = u16_to_decimal(MAX_PORT);
    s.append(high.as_str());
    s.append(". Last error: ");
    s.append(last_error);
    proof {
        assert(s@ =~= spec_range_exhausted(last_error@));
    }
    ExecuteError::ConnectionError(s)
}

/// What a one-shot delivery returns, as a function of the response of the
/// `/execute` POST: the body on a 2xx status, the described failure on any
/// other status, and the transport error's text when no response came back.
pub open spec fn spec_execute_reply(resp: Result<(u16, String), String>, r: Result<
    String,
    ExecuteError,
>) -> bool {
    match resp {
        Ok((status, body)) => {
            if spec_is_success(status) {
                r matches Ok(b) && b@ == body@
            } else {
                r matches Err(ExecuteError::ExecutionError(m)) && m@ == spec_http_error(
                    status,
                    body@,
                )
            }
        },
        Err(e) => r matches Err(ExecuteError::ExecutionError(m)) && m@ == e@,
    }
}

/// Turn the response of the `/execute` POST into the delivery's result.
pub fn execute_reply(resp: Result<(u16, String), String>) -> (r: Result<String, ExecuteError>)
    ensures
        spec_execute_reply(resp, r),
{
    match resp {
        Ok((status, body)) => {
            if status >= 200 && status < 300 {
                Ok(body)
            } else {
                Err(ExecuteError::ExecutionError(http_error_message(status, body.as_str())))
            }
        },
        Err(e) => Err(ExecuteError::ExecutionError(e)),
    }
}

impl ExecuteError {
    /// The user-facing description: the failure's kind, then its detail.
    pub fn message(&self) -> (r: String)
        ensures
            self matches ExecuteError::ConnectionError(d) ==> r@ == "Failed to connect to server: "@
                + d@,
            self matches ExecuteError::ExecutionError(d) ==> r@ == "Failed to execute script: "@
                + d@,
    {
        match self {
            ExecuteError::ConnectionError(d) => {
                let mut s = "Failed to connect to server: ".to_owned();
                s.append(d.as_str());
                s
            },
            ExecuteError::ExecutionError(d) => {
                let mut s = "Failed to execute script: ".to_owned();
                s.append(d.as_str());
                s
            },
        }
    }
}

/// The stateless, one-shot delivery path.
pub struct ScriptDispatcher {
    /// The client every probe and delivery goes through. Opaque to the
    /// proofs.
    pub client: reqwest::blocking::Client,
}

impl ScriptDispatcher {
    /// A dispatcher whose requests time out after `timeout_ms` milliseconds;
    /// `None` when no client can be built.
    pub fn new(timeout_ms: u64) -> (r: Option<ScriptDispatcher>) {
        match build_client(timeout_ms) {
            Some(client) => Some(ScriptDispatcher { client }),
            None => None,
        }
    }

    /// Deliver `script` once, with no sticky state: probe every port of
    /// `[MIN_PORT, MAX_PORT]` in ascending order, stop at the first one that
    /// answers with the secret token, and POST the script there. Probing
    /// stops at the first hit; ports beyond it are not contacted. When no
    /// port answers correctly, the error names the range and the last
    /// transport error seen ([`range_exhausted_error`]); otherwise the result
    /// follows the POST's response exactly as [`execute_reply`] states. The
    /// contract fixes what the network cannot vary: a connection error is
    /// only ever the exhausted-range description, never anything else.
    pub fn execute_once(&self, script: &str) -> (r: Result<String, ExecuteError>)
        ensures
            r matches Err(ExecuteError::ConnectionError(m)) ==> exists|last: Seq<char>|
                m@ == #[trigger] spec_range_exhausted(last),
    {
        let mut last_error = String::new();
        let mut found: Option<u16> = None;
        let mut port: u16 = MIN_PORT;
        while port <= MAX_PORT
            invariant
                MIN_PORT <= port <= MAX_PORT + 1,
            decreases MAX_PORT + 1 - port,
        {
            let resp = http_get(&self.client, HOST, port, "/secret");
            if probe_hit(&resp) {
                found = Some(port);
                break ;
            }
            if let Err(e) = &resp {
                last_error = e.clone();
            }
            port = port + 1;
        }
        match found {
            Some(hit) => {
                let resp = http_post(&self.client, HOST, hit, "/execute", script);
                let reply = execute_reply(resp);
                proof {
                    assert(!(reply matches Err(ExecuteError::ConnectionError(_))));
                }
                reply
            },
            None => {
                let err = range_exhausted_error(last_error.as_str());
                proof {
                    assert(err matches ExecuteError::ConnectionError(m) && m@
                        == spec_range_exhausted(last_error@));
                }
                Err(err)
            },
        }
    }
}

} // verus!
