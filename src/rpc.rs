//! The presence client's decisions: reconnect backoff, when to connect,
//! endpoint names, and how to read the peer's replies. The transports
//! themselves are I/O and live with the program that drives the bridge.

use crate::frame::FrameError;
use url::Url;
use vstd::prelude::*;

verus! {

/// How many backoff steps the schedule has.
pub const BACKOFF_STEP_COUNT: usize = 4;

/// How many local endpoints are probed, on each transport.
pub const ENDPOINT_SLOTS: u8 = 10;

/// The first WebSocket port probed.
pub const FIRST_WS_PORT: u16 = 6463;

/// The wait of backoff step `i`, in milliseconds; steps past the last repeat it.
pub open spec fn backoff_step_spec(i: nat) -> u64 {
    if i == 0 {
        2_000
    } else if i == 1 {
        5_000
    } else if i == 2 {
        10_000
    } else {
        30_000
    }
}

/// The step index after one more failed connection.
pub open spec fn after_failure(i: nat) -> nat {
    if i + 1 < BACKOFF_STEP_COUNT {
        i + 1
    } else {
        (BACKOFF_STEP_COUNT - 1) as nat
    }
}

/// The step index after `k` failed connections in a row, starting from `i`.
pub open spec fn after_failures(i: nat, k: nat) -> nat
    decreases k,
{
    if k == 0 {
        i
    } else {
        after_failure(after_failures(i, (k - 1) as nat))
    }
}

/// The wait of backoff step `i`, in milliseconds.
pub fn backoff_step_ms(i: usize) -> (r: u64)
    ensures
        r == backoff_step_spec(i as nat),
{
    if i == 0 {
        2_000
    } else if i == 1 {
        5_000
    } else if i == 2 {
        10_000
    } else {
        30_000
    }
}

/// Consecutive failed connections wait non-decreasing steps, never longer
/// than the longest step; after a success the next failure waits the
/// shortest step again.
pub proof fn lemma_backoff_monotone(start: nat, k: nat)
    requires
        start < BACKOFF_STEP_COUNT,
    ensures
        after_failures(start, k) < BACKOFF_STEP_COUNT,
        backoff_step_spec(after_failures(start, k)) <= backoff_step_spec(
            after_failures(start, k + 1),
        ),
        backoff_step_spec(after_failures(start, k)) <= 30_000,
        backoff_step_spec(after_failures(0, 0)) == 2_000,
        forall|i: nat| #[trigger] backoff_step_spec(i) >= backoff_step_spec(0),
        after_failures(0, k) == (if k < BACKOFF_STEP_COUNT {
            k
        } else {
            (BACKOFF_STEP_COUNT - 1) as nat
        }),
    decreases k,
{
    if k > 0 {
        lemma_backoff_monotone(start, (k - 1) as nat);
        lemma_backoff_monotone(0, (k - 1) as nat);
    }
}

/// What to do when a command needs a connection.
#[derive(Debug, Clone, Copy, PartialEq, Eq, Structural)]
pub enum ConnectStep {
    /// A transport is up: use it.
    Reuse,
    /// The backoff deadline has not passed: fail without I/O.
    Wait,
    /// Try the local endpoints now.
    Attempt,
}

/// The connection bookkeeping of the presence client.
pub struct ConnectionModel {
    pub client_id: Seq<char>,
    pub connected: bool,
    pub backoff_idx: nat,
    pub next_retry_at_ms: u64,
}

/// Whom the client speaks for, whether a transport is up, and when the next
/// connection attempt is allowed (monotonic milliseconds).
pub struct ConnectionState {
    client_id: String,
    connected: bool,
    backoff_idx: usize,
    next_retry_at_ms: u64,
}

impl View for ConnectionState {
    type V = ConnectionModel;

    closed spec fn view(&self) -> ConnectionModel {
        ConnectionModel {
            client_id: self.client_id@,
            connected: self.connected,
            backoff_idx: self.backoff_idx as nat,
            next_retry_at_ms: self.next_retry_at_ms,
        }
    }
}

impl ConnectionState {
    #[verifier::type_invariant]
    spec fn step_in_schedule(self) -> bool {
        self.backoff_idx < BACKOFF_STEP_COUNT
    }

    /// A client for `client_id` with no transport, allowed to connect at once.
    pub fn new(client_id: String, now_ms: u64) -> (r: Self)
        ensures
            r@ == (ConnectionModel {
                client_id: client_id@,
                connected: false,
                backoff_idx: 0,
                next_retry_at_ms: now_ms,
            }),
    {
        ConnectionState { client_id, connected: false, backoff_idx: 0, next_retry_at_ms: now_ms }
    }

    pub fn client_id(&self) -> (r: &String)
        ensures
            r@ == self@.client_id,
    {
        &self.client_id
    }

    pub fn is_connected(&self) -> (r: bool)
        ensures
            r == self@.connected,
    {
        self.connected
    }

    /// Reuse a live transport; otherwise wait out the backoff deadline, or
    /// attempt a connection once it has passed.
    pub fn connect_step(&self, now_ms: u64) -> (r: ConnectStep)
        ensures
            self@.connected ==> r == ConnectStep::Reuse,
            !self@.connected && now_ms < self@.next_retry_at_ms ==> r == ConnectStep::Wait,
            !self@.connected && now_ms >= self@.next_retry_at_ms ==> r == ConnectStep::Attempt,
    {
        if self.connected {
            ConnectStep::Reuse
        } else if now_ms < self.next_retry_at_ms {
            ConnectStep::Wait
        } else {
            ConnectStep::Attempt
        }
    }

    /// A transport came up: the schedule starts over.
    pub fn record_connected(&mut self, now_ms: u64)
        ensures
            final(self)@ == (ConnectionModel {
                client_id: old(self)@.client_id,
                connected: true,
                backoff_idx: 0,
                next_retry_at_ms: now_ms,
            }),
    {
        proof {
            use_type_invariant(&*self);
        }
        self.connected = true;
        self.backoff_idx = 0;
        self.next_retry_at_ms = now_ms;
    }

    /// A connection attempt, a send or a receive failed: the transport is
    /// gone, the next attempt waits the current step, and the schedule
    /// advances one step.
    pub fn record_failure(&mut self, now_ms: u64)
        ensures
            final(self)@.client_id == old(self)@.client_id,
            !final(self)@.connected,
            final(self)@.next_retry_at_ms == (if now_ms + backoff_step_spec(old(self)@.backoff_idx)
                > u64::MAX {
                u64::MAX as int
            } else {
                now_ms + backoff_step_spec(old(self)@.backoff_idx)
            }),
            final(self)@.backoff_idx == after_failure(old(self)@.backoff_idx),
            old(self)@.backoff_idx < BACKOFF_STEP_COUNT,
    {
        proof {
            use_type_invariant(&*self);
        }
        let wait = backoff_step_ms(self.backoff_idx);
        self.connected = false;
        self.next_retry_at_ms = now_ms.saturating_add(wait);
        self.backoff_idx = if self.backoff_idx + 1 < BACKOFF_STEP_COUNT {
            self.backoff_idx + 1
        } else {
            BACKOFF_STEP_COUNT - 1
        };
    }

    /// Switches to another application identity. A different identity drops
    /// the transport and resets the schedule; the result says whether it did.
    pub fn update_client_id(&mut self, client_id: String, now_ms: u64) -> (changed: bool)
        ensures
            changed == (client_id@ != old(self)@.client_id),
            changed ==> final(self)@ == (ConnectionModel {
                client_id: client_id@,
                connected: false,
                backoff_idx: 0,
                next_retry_at_ms: now_ms,
            }),
            !changed ==> final(self)@ == old(self)@,
    {
        proof {
            use_type_invariant(&*self);
        }
        if self.client_id != client_id {
            self.client_id = client_id;
            self.connected = false;
            self.backoff_idx = 0;
            self.next_retry_at_ms = now_ms;
            true
        } else {
            false
        }
    }
}

/// Why a presence command failed.
#[derive(Debug, Clone)]
pub enum RpcError {
    /// The reconnect backoff deadline has not passed.
    BackoffActive,
    /// No local endpoint accepted a handshake.
    Unreachable,
    /// A frame from the peer could not be read.
    BadFrame(FrameError),
    /// The transport failed or closed; the text says how.
    Transport(String),
    /// The peer answered with an error.
    Peer { code: i64, message: String },
}

/// The fields of a peer reply that matter: its event name and, for errors,
/// the code and message under `data`.
#[derive(Debug, Clone)]
pub struct RpcReply {
    pub evt: Option<String>,
    pub code: Option<i64>,
    pub message: Option<String>,
}

/// The code point of `c` with ASCII capitals lowered.
pub open spec fn ascii_lower(c: char) -> u32 {
    if 'A' <= c && c <= 'Z' {
        (c as u32 + 32) as u32
    } else {
        c as u32
    }
}

/// `a` and `b` are equal when ASCII letters are compared without case.
pub open spec fn eq_ignoring_ascii_case(a: Seq<char>, b: Seq<char>) -> bool {
    &&& a.len() == b.len()
    &&& forall|i: int| 0 <= i < a.len() ==> #[trigger] ascii_lower(a[i]) == ascii_lower(b[i])
}

fn lower_code(c: char) -> (r: u32)
    ensures
        r == ascii_lower(c),
{
    let v = c as u32;
    if 65 <= v && v <= 90 {
        v + 32
    } else {
        v
    }
}

/// Compares two strings, ignoring the case of ASCII letters.
pub fn eq_ignore_ascii_case(a: &str, b: &str) -> (r: bool)
    ensures
        r == eq_ignoring_ascii_case(a@, b@),
{
    let n = a.unicode_len();
    if n != b.unicode_len() {
        return false;
    }
    let mut i: usize = 0;
    while i < n
        invariant
            n == a@.len(),
            n == b@.len(),
            i <= n,
            forall|j: int| 0 <= j < i ==> #[trigger] ascii_lower(a@[j]) == ascii_lower(b@[j]),
        decreases n - i,
    {
        if lower_code(a.get_char(i)) != lower_code(b.get_char(i)) {
            return false;
        }
        i = i + 1;
    }
    true
}

/// The reply is an error event.
pub open spec fn is_error_reply(reply: RpcReply) -> bool {
    reply.evt matches Some(e) && eq_ignoring_ascii_case(e@, "ERROR"@)
}

/// Reads a reply. `None` stands for a reply that is not JSON, which peers
/// may send and which counts as success. An `evt` of "ERROR", in any case,
/// is the peer's error, with code 0 and a stock message where the reply
/// lacks them.
pub fn check_reply(reply: &Option<RpcReply>) -> (r: Result<(), RpcError>)
    ensures
        match reply {
            Some(rep) => if is_error_reply(*rep) {
                r matches Err(RpcError::Peer { code, message }) && code == (match rep.code {
                    Some(c) => c,
                    None => 0,
                }) && message@ == (match rep.message {
                    Some(m) => m@,
                    None => "unknown discord rpc error"@,
                })
            } else {
                r is Ok
            },
            None => r is Ok,
        },
{
    match reply {
        Some(rep) => {
            let is_error = match &rep.evt {
                Some(e) => eq_ignore_ascii_case(e.as_str(), "ERROR"),
                None => false,
            };
            if is_error {
                let code = match rep.code {
                    Some(c) => c,
                    None => 0,
                };
                let message = match &rep.message {
                    Some(m) => m.clone(),
                    None => String::from_str("unknown discord rpc error"),
                };
                Err(RpcError::Peer { code, message })
            } else {
                Ok(())
            }
        },
        None => Ok(()),
    }
}

/// The digit `d` (below sixteen) as a character, lower case past nine.
pub open spec fn digit_char(d: nat) -> char {
    if d == 0 {
        '0'
    } else if d == 1 {
        '1'
    } else if d == 2 {
        '2'
    } else if d == 3 {
        '3'
    } else if d == 4 {
        '4'
    } else if d == 5 {
        '5'
    } else if d == 6 {
        '6'
    } else if d == 7 {
        '7'
    } else if d == 8 {
        '8'
    } else if d == 9 {
        '9'
    } else if d == 10 {
        'a'
    } else if d == 11 {
        'b'
    } else if d == 12 {
        'c'
    } else if d == 13 {
        'd'
    } else if d == 14 {
        'e'
    } else {
        'f'
    }
}

/// The decimal numeral of `n`.
pub open spec fn decimal(n: nat) -> Seq<char>
    decreases n,
{
    if n < 10 {
        seq![digit_char(n)]
    } else {
        decimal(n / 10).push(digit_char(n % 10))
    }
}

/// The lower-case hexadecimal numeral of `n`.
pub open spec fn hex(n: nat) -> Seq<char>
    decreases n,
{
    if n < 16 {
        seq![digit_char(n)]
    } else {
        hex(n / 16).push(digit_char(n % 16))
    }
}

fn digit_text(d: u64) -> (r: String)
    requires
        d < 16,
    ensures
        r@ == seq![digit_char(d as nat)],
{
    let lit = if d == 0 {
        "0"
    } else if d == 1 {
        "1"
    } else if d == 2 {
        "2"
    } else if d == 3 {
        "3"
    } else if d == 4 {
        "4"
    } else if d == 5 {
        "5"
    } else if d == 6 {
        "6"
    } else if d == 7 {
        "7"
    } else if d == 8 {
        "8"
    } else if d == 9 {
        "9"
    } else if d == 10 {
        "a"
    } else if d == 11 {
        "b"
    } else if d == 12 {
        "c"
    } else if d == 13 {
        "d"
    } else if d == 14 {
        "e"
    } else {
        "f"
    };
    proof {
        reveal_strlit("0");
        reveal_strlit("1");
        reveal_strlit("2");
        reveal_strlit("3");
        reveal_strlit("4");
        reveal_strlit("5");
        reveal_strlit("6");
        reveal_strlit("7");
        reveal_strlit("8");
        reveal_strlit("9");
        reveal_strlit("a");
        reveal_strlit("b");
        reveal_strlit("c");
        reveal_strlit("d");
        reveal_strlit("e");
        reveal_strlit("f");
    }
    let r = String::from_str(lit);
    assert(r@ =~= seq![digit_char(d as nat)]);
    r
}

/// The decimal numeral of `n`.
pub fn decimal_text(n: u64) -> (r: String)
    ensures
        r@ == decimal(n as nat),
{
    let mut x: u64 = n / 10;
    let mut text = digit_text(n % 10);
    proof {
        assert(decimal(n as nat) == if n < 10 {
            seq![digit_char(n as nat)]
        } else {
            decimal((n / 10) as nat) + seq![digit_char((n % 10) as nat)]
        });
    }
    while x > 0
        invariant
            x > 0 ==> decimal(n as nat) =~= decimal(x as nat) + text@,
            x == 0 ==> decimal(n as nat) =~= text@,
        decreases x,
    {
        let mut head = digit_text(x % 10);
        head.append(text.as_str());
        proof {
            if x >= 10 {
                assert(decimal(x as nat) =~= decimal((x / 10) as nat) + seq![digit_char((x % 10) as nat)]);
            }
        }
        text = head;
        x = x / 10;
    }
    text
}

/// The lower-case hexadecimal numeral of `n`.
pub fn hex_text(n: u128) -> (r: String)
    ensures
        r@ == hex(n as nat),
{
    let mut x: u128 = n / 16;
    let mut text = digit_text((n % 16) as u64);
    proof {
        assert(hex(n as nat) == if n < 16 {
            seq![digit_char(n as nat)]
        } else {
            hex((n / 16) as nat) + seq![digit_char((n % 16) as nat)]
        });
    }
    while x > 0
        invariant
            x > 0 ==> hex(n as nat) =~= hex(x as nat) + text@,
            x == 0 ==> hex(n as nat) =~= text@,
        decreases x,
    {
        let mut head = digit_text((x % 16) as u64);
        head.append(text.as_str());
        proof {
            if x >= 16 {
                assert(hex(x as nat) =~= hex((x / 16) as nat) + seq![digit_char((x % 16) as nat)]);
            }
        }
        text = head;
        x = x / 16;
    }
    text
}

/// The WebSocket port of endpoint slot `slot`.
pub fn ws_port(slot: u8) -> (r: u16)
    requires
        slot < ENDPOINT_SLOTS,
    ensures
        r == FIRST_WS_PORT + slot,
{
    FIRST_WS_PORT + slot as u16
}

/// The file name of the local socket or pipe of endpoint slot `slot`.
pub fn ipc_socket_name(slot: u8) -> (r: String)
    requires
        slot < ENDPOINT_SLOTS,
    ensures
        r@ == "discord-ipc-"@ + decimal(slot as nat),
{
    let mut name = String::from_str("discord-ipc-");
    let digits = decimal_text(slot as u64);
    name.append(digits.as_str());
    name
}

/// The text of the WebSocket endpoint on `port` for `client_id`.
pub open spec fn ws_url_text(port: u16, client_id: Seq<char>) -> Seq<char> {
    "ws://127.0.0.1:"@ + decimal(port as nat) + "/?v=1&client_id="@ + client_id
}

/// What the URL parser makes of a text: its serialization, or `None` when
/// the text is no URL.
pub uninterp spec fn url_serialization(s: Seq<char>) -> Option<Seq<char>>;

/// Relies on url::Url::parse, and on Url::as_str for the serialization of
/// the parsed URL.
#[verifier::external_body]
fn parse_url(s: &str) -> (r: Option<String>)
    ensures
        match r {
            Some(u) => url_serialization(s@) == Some(u@),
            None => url_serialization(s@) is None,
        },
{
    match Url::parse(s) {
        Ok(u) => Some(u.as_str().to_string()),
        Err(_) => None,
    }
}

/// The parsed WebSocket endpoint on `port` for `client_id`, or `None` when
/// that text is no URL (a client id can make it so).
pub fn ws_endpoint(port: u16, client_id: &str) -> (r: Option<String>)
    ensures
        match r {
            Some(u) => url_serialization(ws_url_text(port, client_id@)) == Some(u@),
            None => url_serialization(ws_url_text(port, client_id@)) is None,
        },
{
    let mut text = String::from_str("ws://127.0.0.1:");
    let digits = decimal_text(port as u64);
    text.append(digits.as_str());
    text.append("/?v=1&client_id=");
    text.append(client_id);
    parse_url(text.as_str())
}

} // verus!
