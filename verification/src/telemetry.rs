//! Decision logic and wire format of the telemetry sink.
//!
//! The sink owns a persistent stream connection and transmits one ASCII
//! line per emitted delay estimate. Connecting retries at a fixed interval
//! indefinitely; a write failure invalidates the connection and triggers one
//! reconnect sequence before the call returns, and the failed record is not
//! retried — delivery is at most once, best effort. The connection state
//! machine lives here; the blocking connect, write and sleep calls are
//! performed by the thread that owns the connection, which feeds each
//! outcome back as an event.

use vstd::prelude::*;

verus! {

/// Connection state of the sink.
#[derive(Debug, PartialEq, Eq, Structural, Clone, Copy)]
pub enum SinkState {
    /// A stream is established and writable until proven otherwise.
    Connected,
    /// No usable stream; connect attempts are in progress.
    Reconnecting,
}

/// What the owning thread observed.
#[derive(Debug, PartialEq, Eq, Structural, Clone, Copy)]
pub enum SinkEvent {
    /// A record is ready to transmit.
    SendRequested,
    /// The write and flush of the current record succeeded.
    WriteSucceeded,
    /// The write or flush of the current record failed.
    WriteFailed,
    /// A connect attempt succeeded.
    ConnectSucceeded,
    /// A connect attempt failed.
    ConnectFailed,
}

/// What the owning thread must do next.
#[derive(Debug, PartialEq, Eq, Structural, Clone, Copy)]
pub enum SinkAction {
    /// Write and flush the current record on the established stream.
    Write,
    /// Attempt to establish a new stream.
    Connect,
    /// Wait one retry interval, then attempt to establish a new stream.
    RetryAfterDelay,
    /// Nothing: the current record is finished, delivered or dropped.
    Idle,
}

/// Transition table of the sink: which state follows an event, and which
/// action the owning thread performs next. A write failure moves to
/// Reconnecting with an immediate connect; failed connects retry after a
/// delay; a successful connect ends the sequence without retrying the
/// record. A send requested without a usable stream reconnects and drops
/// the record.
pub open spec fn sink_step_spec(s: SinkState, e: SinkEvent) -> (SinkState, SinkAction) {
    match (s, e) {
        (SinkState::Connected, SinkEvent::SendRequested) => (SinkState::Connected, SinkAction::Write),
        (SinkState::Connected, SinkEvent::WriteSucceeded) => (SinkState::Connected, SinkAction::Idle),
        (SinkState::Connected, SinkEvent::WriteFailed) => (SinkState::Reconnecting, SinkAction::Connect),
        (SinkState::Connected, SinkEvent::ConnectSucceeded) => (SinkState::Connected, SinkAction::Idle),
        (SinkState::Connected, SinkEvent::ConnectFailed) => (SinkState::Connected, SinkAction::Idle),
        (SinkState::Reconnecting, SinkEvent::SendRequested) => (SinkState::Reconnecting, SinkAction::Connect),
        (SinkState::Reconnecting, SinkEvent::ConnectSucceeded) => (SinkState::Connected, SinkAction::Idle),
        (SinkState::Reconnecting, SinkEvent::ConnectFailed) => (SinkState::Reconnecting, SinkAction::RetryAfterDelay),
        (SinkState::Reconnecting, SinkEvent::WriteSucceeded) => (SinkState::Reconnecting, SinkAction::Idle),
        (SinkState::Reconnecting, SinkEvent::WriteFailed) => (SinkState::Reconnecting, SinkAction::Idle),
    }
}

/// State the sink starts in: construction connects before anything is sent.
pub fn sink_initial() -> (s: SinkState)
    ensures
        s == SinkState::Reconnecting,
{
    SinkState::Reconnecting
}

/// One step of the sink's decision logic.
pub fn sink_step(s: SinkState, e: SinkEvent) -> (r: (SinkState, SinkAction))
    ensures
        r == sink_step_spec(s, e),
{
    match (s, e) {
        (SinkState::Connected, SinkEvent::SendRequested) => (SinkState::Connected, SinkAction::Write),
        (SinkState::Connected, SinkEvent::WriteSucceeded) => (SinkState::Connected, SinkAction::Idle),
        (SinkState::Connected, SinkEvent::WriteFailed) => (SinkState::Reconnecting, SinkAction::Connect),
        (SinkState::Connected, SinkEvent::ConnectSucceeded) => (SinkState::Connected, SinkAction::Idle),
        (SinkState::Connected, SinkEvent::ConnectFailed) => (SinkState::Connected, SinkAction::Idle),
        (SinkState::Reconnecting, SinkEvent::SendRequested) => (SinkState::Reconnecting, SinkAction::Connect),
        (SinkState::Reconnecting, SinkEvent::ConnectSucceeded) => (SinkState::Connected, SinkAction::Idle),
        (SinkState::Reconnecting, SinkEvent::ConnectFailed) => (SinkState::Reconnecting, SinkAction::RetryAfterDelay),
        (SinkState::Reconnecting, SinkEvent::WriteSucceeded) => (SinkState::Reconnecting, SinkAction::Idle),
        (SinkState::Reconnecting, SinkEvent::WriteFailed) => (SinkState::Reconnecting, SinkAction::Idle),
    }
}

/// The actions a run of the sink performs, one per event.
pub open spec fn sink_actions(s: SinkState, events: Seq<SinkEvent>) -> Seq<SinkAction>
    decreases events.len(),
{
    if events.len() == 0 {
        Seq::empty()
    } else {
        let (s2, a) = sink_step_spec(s, events[0]);
        seq![a] + sink_actions(s2, events.drop_first())
    }
}

/// Law of the reconnect discipline: when a write on a live connection fails
/// and the following connect attempt succeeds, the run performs exactly one
/// Connect — the failed record is dropped, and the next send writes on the
/// restored connection with no further reconnect.
pub proof fn lemma_single_reconnect_after_write_failure()
    ensures
        sink_actions(
            SinkState::Connected,
            seq![
                SinkEvent::WriteFailed,
                SinkEvent::ConnectSucceeded,
                SinkEvent::SendRequested,
                SinkEvent::WriteSucceeded,
            ],
        ) == seq![SinkAction::Connect, SinkAction::Idle, SinkAction::Write, SinkAction::Idle],
{
    let e0 = seq![
        SinkEvent::WriteFailed,
        SinkEvent::ConnectSucceeded,
        SinkEvent::SendRequested,
        SinkEvent::WriteSucceeded,
    ];
    let e1 = seq![SinkEvent::ConnectSucceeded, SinkEvent::SendRequested, SinkEvent::WriteSucceeded];
    let e2 = seq![SinkEvent::SendRequested, SinkEvent::WriteSucceeded];
    let e3 = seq![SinkEvent::WriteSucceeded];
    reveal_with_fuel(sink_actions, 6);
    assert(sink_actions(SinkState::Connected, Seq::<SinkEvent>::empty())
        =~= Seq::<SinkAction>::empty());
    assert(e0.drop_first() =~= e1);
    assert(e1.drop_first() =~= e2);
    assert(e2.drop_first() =~= e3);
    assert(e3.drop_first() =~= Seq::<SinkEvent>::empty());
    assert(sink_actions(SinkState::Connected, e3) =~= seq![SinkAction::Idle]);
    assert(sink_actions(SinkState::Connected, e2) =~= seq![SinkAction::Write, SinkAction::Idle]);
    assert(sink_actions(SinkState::Reconnecting, e1) =~= seq![
        SinkAction::Idle,
        SinkAction::Write,
        SinkAction::Idle,
    ]);
    assert(sink_actions(SinkState::Connected, e0) =~= seq![
        SinkAction::Connect,
        SinkAction::Idle,
        SinkAction::Write,
        SinkAction::Idle,
    ]);
}

/// The state the sink is left in after a run of events.
pub open spec fn sink_state_after(s: SinkState, events: Seq<SinkEvent>) -> SinkState
    decreases events.len(),
{
    if events.len() == 0 {
        s
    } else {
        sink_state_after(sink_step_spec(s, events[0]).0, events.drop_first())
    }
}

/// A reconnect sequence as the owning thread observes it: n failed connect
/// attempts, then a successful one.
pub open spec fn retry_events(n: nat) -> Seq<SinkEvent> {
    Seq::new(n, |t: int| SinkEvent::ConnectFailed).push(SinkEvent::ConnectSucceeded)
}

/// While reconnecting, each failed connect attempt is answered by exactly
/// one delayed retry, the successful one by nothing further, and the sink
/// is then connected again.
pub proof fn lemma_retry_until_connected(n: nat)
    ensures
        sink_actions(SinkState::Reconnecting, retry_events(n)) == Seq::new(
            n,
            |t: int| SinkAction::RetryAfterDelay,
        ).push(SinkAction::Idle),
        sink_state_after(SinkState::Reconnecting, retry_events(n)) == SinkState::Connected,
    decreases n,
{
    if n == 0 {
        assert(retry_events(0) =~= seq![SinkEvent::ConnectSucceeded]);
        assert(retry_events(0).drop_first() =~= Seq::<SinkEvent>::empty());
        reveal_with_fuel(sink_actions, 3);
        reveal_with_fuel(sink_state_after, 3);
        assert(sink_actions(SinkState::Reconnecting, retry_events(0)) =~= Seq::new(
            0,
            |t: int| SinkAction::RetryAfterDelay,
        ).push(SinkAction::Idle));
    } else {
        lemma_retry_until_connected((n - 1) as nat);
        assert(retry_events(n)[0] == SinkEvent::ConnectFailed);
        assert(retry_events(n).drop_first() =~= retry_events((n - 1) as nat));
        assert(sink_actions(SinkState::Reconnecting, retry_events(n)) =~= Seq::new(
            n,
            |t: int| SinkAction::RetryAfterDelay,
        ).push(SinkAction::Idle));
    }
}

/// General law of the reconnect discipline: a write failure on a live
/// connection is followed by exactly one immediate Connect, however many
/// delayed retries the connect attempts themselves need, and the sink ends
/// connected. No second reconnect sequence starts.
pub proof fn lemma_one_reconnect_sequence(n: nat)
    ensures
        sink_actions(SinkState::Connected, seq![SinkEvent::WriteFailed] + retry_events(n))
            == seq![SinkAction::Connect] + Seq::new(n, |t: int| SinkAction::RetryAfterDelay).push(
            SinkAction::Idle,
        ),
        sink_state_after(SinkState::Connected, seq![SinkEvent::WriteFailed] + retry_events(n))
            == SinkState::Connected,
{
    lemma_retry_until_connected(n);
    let events = seq![SinkEvent::WriteFailed] + retry_events(n);
    assert(events[0] == SinkEvent::WriteFailed);
    assert(events.drop_first() =~= retry_events(n));
    assert(sink_actions(SinkState::Connected, events) =~= seq![SinkAction::Connect] + Seq::new(
        n,
        |t: int| SinkAction::RetryAfterDelay,
    ).push(SinkAction::Idle));
}

/// Decimal digits of n, most significant first, as ASCII bytes.
pub open spec fn dec_digits(n: nat) -> Seq<u8>
    decreases n,
{
    if n < 10 {
        seq![(48 + n) as u8]
    } else {
        dec_digits(n / 10).push((48 + n % 10) as u8)
    }
}

/// Render an unsigned value in decimal ASCII.
pub fn u64_to_decimal(x: u64) -> (r: Vec<u8>)
    ensures
        r@ == dec_digits(x as nat),
{
    if x == 0 {
        let mut r: Vec<u8> = Vec::new();
        r.push(48);
        proof {
            assert(r@ =~= dec_digits(0));
        }
        return r;
    }
    let mut rev: Vec<u8> = Vec::new();
    let mut v: u64 = x;
    proof {
        assert(dec_digits(x as nat) =~= dec_digits(v as nat) + rev@.reverse());
    }
    while v > 0
        invariant
            v > 0 ==> dec_digits(x as nat) == dec_digits(v as nat) + rev@.reverse(),
            v == 0 ==> dec_digits(x as nat) == rev@.reverse(),
        decreases v,
    {
        let ghost rev0 = rev@;
        let ghost v0 = v as nat;
        let d: u8 = (v % 10) as u8 + 48;
        rev.push(d);
        v = v / 10;
        proof {
            assert(rev@.reverse() =~= seq![d] + rev0.reverse());
            if v > 0 {
                assert(dec_digits(v0) == dec_digits(v0 / 10).push((48 + v0 % 10) as u8));
                assert(dec_digits(x as nat) =~= dec_digits(v as nat) + rev@.reverse());
            } else {
                assert(dec_digits(v0) =~= seq![d]);
                assert(dec_digits(x as nat) =~= rev@.reverse());
            }
        }
    }
    let mut r: Vec<u8> = Vec::new();
    let mut i: usize = rev.len();
    while i > 0
        invariant
            i <= rev@.len(),
            r@.len() == rev@.len() - i,
            forall|t: int| 0 <= t < r@.len() ==> r@[t] == rev@[rev@.len() - 1 - t],
        decreases i,
    {
        i -= 1;
        r.push(rev[i]);
    }
    proof {
        assert(r@ =~= rev@.reverse());
    }
    r
}

/// Append a copy of every byte of src to dst.
fn push_all(dst: &mut Vec<u8>, src: &Vec<u8>)
    ensures
        final(dst)@ == old(dst)@ + src@,
{
    let n = src.len();
    let mut i: usize = 0;
    while i < n
        invariant
            i <= n,
            n == src@.len(),
            dst@ == old(dst)@ + src@.subrange(0, i as int),
        decreases n - i,
    {
        dst.push(src[i]);
        proof {
            assert(dst@ =~= old(dst)@ + src@.subrange(0, i + 1));
        }
        i += 1;
    }
    proof {
        assert(dst@ =~= old(dst)@ + src@);
    }
}

/// Build one wire record, `timestamp,h,k,phi,mic_distance,delay` followed by
/// a newline, as ASCII bytes. The four geometry fields and the delay arrive
/// already rendered; the timestamp is rendered here in decimal.
pub fn telemetry_line(
    timestamp: u64,
    h: &Vec<u8>,
    k: &Vec<u8>,
    phi: &Vec<u8>,
    mic_distance: &Vec<u8>,
    delay: &Vec<u8>,
) -> (r: Vec<u8>)
    ensures
        r@ == dec_digits(timestamp as nat) + seq![44u8] + h@ + seq![44u8] + k@ + seq![44u8] + phi@
            + seq![44u8] + mic_distance@ + seq![44u8] + delay@ + seq![10u8],
{
    let mut r = u64_to_decimal(timestamp);
    r.push(44);
    push_all(&mut r, h);
    r.push(44);
    push_all(&mut r, k);
    r.push(44);
    push_all(&mut r, phi);
    r.push(44);
    push_all(&mut r, mic_distance);
    r.push(44);
    push_all(&mut r, delay);
    r.push(10);
    proof {
        assert(r@ =~= dec_digits(timestamp as nat) + seq![44u8] + h@ + seq![44u8] + k@
            + seq![44u8] + phi@ + seq![44u8] + mic_distance@ + seq![44u8] + delay@ + seq![10u8]);
    }
    r
}

} // verus!
