//! The probe/response state machine.
//!
//! One iteration of the client is: record a send, then either classify
//! one inbound reply against the outstanding sequence number or take
//! the timeout branch, then report the cumulative counters and pace.
//! The functions here make every one of those decisions from plain
//! values; the surrounding program only moves packets and sleeps.
//!
//! A matched Time-Exceeded reply raises the TTL (hop limit) by one on
//! both address families. On a timeout only the IPv4 path raises the
//! TTL; the IPv6 path leaves its hop limit alone there. Only a matched
//! reply (of any kind) advances the sequence number.

use vstd::prelude::*;

verus! {

/// The interval between probe sends, and also the receive timeout
/// budget, in microseconds.
pub const PROBE_INTERVAL_MICROS: u64 = 2000000;

/// Cumulative counters for one run.
#[derive(Clone, Copy, PartialEq, Eq, Structural, Debug)]
pub struct Session {
    pub total_sent: u64,
    pub total_successful: u64,
}

/// The whole mutable state of one probing run.
#[derive(Clone, Copy, PartialEq, Eq, Structural, Debug)]
pub struct PingState {
    /// Sequence number of the next probe to send (and of the probe
    /// currently awaiting its reply, once sent).
    pub sequence_number: u16,
    /// TTL (IPv4) or hop limit (IPv6) for the next probe.
    pub ttl: u8,
    pub session: Session,
}

/// How one inbound ICMP message relates to this client.
#[derive(Clone, Copy, PartialEq, Eq, Structural, Debug)]
pub enum ReplyKind {
    EchoReply,
    TimeExceeded,
    Other,
}

/// The verdict on one inbound message: matched the outstanding probe
/// (and was of the given kind), or carried a foreign sequence number.
#[derive(Clone, Copy, PartialEq, Eq, Structural, Debug)]
pub enum MatchOutcome {
    Matched(ReplyKind),
    Mismatch,
}

/// Classifies an ICMP type byte: Echo-Reply is type 0 for ICMP and
/// type 129 for ICMPv6; Time-Exceeded is type 11 and type 3.
pub open spec fn spec_classify(icmp_type: u8, is_v6: bool) -> ReplyKind {
    if !is_v6 {
        if icmp_type == 0 {
            ReplyKind::EchoReply
        } else if icmp_type == 11 {
            ReplyKind::TimeExceeded
        } else {
            ReplyKind::Other
        }
    } else {
        if icmp_type == 129 {
            ReplyKind::EchoReply
        } else if icmp_type == 3 {
            ReplyKind::TimeExceeded
        } else {
            ReplyKind::Other
        }
    }
}

pub fn classify(icmp_type: u8, is_v6: bool) -> (r: ReplyKind)
    ensures
        r == spec_classify(icmp_type, is_v6),
{
    if !is_v6 {
        if icmp_type == 0 {
            ReplyKind::EchoReply
        } else if icmp_type == 11 {
            ReplyKind::TimeExceeded
        } else {
            ReplyKind::Other
        }
    } else {
        if icmp_type == 129 {
            ReplyKind::EchoReply
        } else if icmp_type == 3 {
            ReplyKind::TimeExceeded
        } else {
            ReplyKind::Other
        }
    }
}

/// The state a run starts in: sequence number 0, both counters 0, and
/// the TTL the user asked for.
pub open spec fn spec_initial_state(ttl: u8) -> PingState {
    PingState {
        sequence_number: 0,
        ttl: ttl,
        session: Session { total_sent: 0, total_successful: 0 },
    }
}

pub fn initial_state(ttl: u8) -> (r: PingState)
    ensures
        r == spec_initial_state(ttl),
        r.sequence_number == 0,
        r.session.total_sent == 0,
        r.session.total_successful == 0,
        r.ttl == ttl,
{
    PingState {
        sequence_number: 0,
        ttl: ttl,
        session: Session { total_sent: 0, total_successful: 0 },
    }
}

/// Recording a send bumps the sent counter and nothing else.
pub open spec fn spec_record_send(s: PingState) -> PingState {
    PingState {
        sequence_number: s.sequence_number,
        ttl: s.ttl,
        session: Session {
            total_sent: (s.session.total_sent + 1) as u64,
            total_successful: s.session.total_successful,
        },
    }
}

pub fn record_send(state: &mut PingState)
    requires
        old(state).session.total_sent < u64::MAX,
    ensures
        *final(state) == spec_record_send(*old(state)),
        final(state).session.total_sent == old(state).session.total_sent + 1,
        final(state).session.total_successful == old(state).session.total_successful,
        final(state).sequence_number == old(state).sequence_number,
        final(state).ttl == old(state).ttl,
{
    state.session.total_sent = state.session.total_sent + 1;
}

/// What one inbound message does to the state. A foreign sequence
/// number leaves the state untouched. A matching Echo-Reply counts a
/// success; a matching Time-Exceeded raises the TTL (hop limit) by
/// one; any matched message advances the sequence number by one.
pub open spec fn spec_handle_reply(s: PingState, is_v6: bool, icmp_type: u8, reply_seq: u16) -> (
    PingState,
    MatchOutcome,
) {
    if reply_seq != s.sequence_number {
        (s, MatchOutcome::Mismatch)
    } else {
        let kind = spec_classify(icmp_type, is_v6);
        let next_seq = (s.sequence_number + 1) as u16;
        match kind {
            ReplyKind::EchoReply => (
                PingState {
                    sequence_number: next_seq,
                    ttl: s.ttl,
                    session: Session {
                        total_sent: s.session.total_sent,
                        total_successful: (s.session.total_successful + 1) as u64,
                    },
                },
                MatchOutcome::Matched(ReplyKind::EchoReply),
            ),
            ReplyKind::TimeExceeded => (
                PingState {
                    sequence_number: next_seq,
                    ttl: (s.ttl + 1) as u8,
                    session: s.session,
                },
                MatchOutcome::Matched(ReplyKind::TimeExceeded),
            ),
            ReplyKind::Other => (
                PingState { sequence_number: next_seq, ttl: s.ttl, session: s.session },
                MatchOutcome::Matched(ReplyKind::Other),
            ),
        }
    }
}

pub fn handle_reply(state: &mut PingState, is_v6: bool, icmp_type: u8, reply_seq: u16) -> (r:
    MatchOutcome)
    requires
        reply_seq == old(state).sequence_number ==> old(state).sequence_number < 0xFFFF,
        (reply_seq == old(state).sequence_number && spec_classify(icmp_type, is_v6)
            == ReplyKind::TimeExceeded) ==> old(state).ttl < 0xFF,
        (reply_seq == old(state).sequence_number && spec_classify(icmp_type, is_v6)
            == ReplyKind::EchoReply) ==> old(state).session.total_successful < u64::MAX,
    ensures
        (*final(state), r) == spec_handle_reply(*old(state), is_v6, icmp_type, reply_seq),
        r == MatchOutcome::Mismatch <==> reply_seq != old(state).sequence_number,
        r == MatchOutcome::Mismatch ==> *final(state) == *old(state),
        r != MatchOutcome::Mismatch ==> final(state).sequence_number == old(
            state,
        ).sequence_number + 1,
        final(state).session.total_sent == old(state).session.total_sent,
        final(state).session.total_successful >= old(state).session.total_successful,
{
    if reply_seq != state.sequence_number {
        MatchOutcome::Mismatch
    } else {
        let kind = classify(icmp_type, is_v6);
        state.sequence_number = state.sequence_number + 1;
        match kind {
            ReplyKind::EchoReply => {
                state.session.total_successful = state.session.total_successful + 1;
                MatchOutcome::Matched(ReplyKind::EchoReply)
            },
            ReplyKind::TimeExceeded => {
                state.ttl = state.ttl + 1;
                MatchOutcome::Matched(ReplyKind::TimeExceeded)
            },
            ReplyKind::Other => MatchOutcome::Matched(ReplyKind::Other),
        }
    }
}

/// A timeout never advances the sequence number and never changes a
/// counter; on the IPv4 path it raises the TTL by one.
pub open spec fn spec_handle_timeout(s: PingState, is_v6: bool) -> PingState {
    PingState {
        sequence_number: s.sequence_number,
        ttl: if is_v6 {
            s.ttl
        } else {
            (s.ttl + 1) as u8
        },
        session: s.session,
    }
}

pub fn handle_timeout(state: &mut PingState, is_v6: bool)
    requires
        !is_v6 ==> old(state).ttl < 0xFF,
    ensures
        *final(state) == spec_handle_timeout(*old(state), is_v6),
        final(state).sequence_number == old(state).sequence_number,
        final(state).session == old(state).session,
{
    if !is_v6 {
        state.ttl = state.ttl + 1;
    }
}

/// Loss percentage with integer floor division, as the report line
/// prints it.
pub fn loss_percent(sent: u64, successful: u64) -> (r: u64)
    requires
        1 <= sent,
        successful <= sent,
    ensures
        r as int == 100 * (sent - successful) / sent as int,
        r <= 100,
{
    let lost: u64 = sent - successful;
    proof {
        assert(100 * (lost as int) / (sent as int) <= 100) by (nonlinear_arith)
            requires
                lost <= sent,
                1 <= sent,
        ;
        assert(100 * (lost as int) / (sent as int) >= 0) by (nonlinear_arith)
            requires
                0 <= lost,
                1 <= sent,
        ;
    }
    ((100u128 * (lost as u128)) / (sent as u128)) as u64
}

/// How long to sleep before the next iteration so sends stay at least
/// one probe interval apart: the remainder of the interval, or nothing
/// if the reply already took longer.
pub fn pacing_delay_micros(elapsed_micros: u64) -> (r: u64)
    ensures
        elapsed_micros >= PROBE_INTERVAL_MICROS ==> r == 0,
        elapsed_micros < PROBE_INTERVAL_MICROS ==> r as int == PROBE_INTERVAL_MICROS
            - elapsed_micros,
{
    if elapsed_micros >= PROBE_INTERVAL_MICROS {
        0
    } else {
        PROBE_INTERVAL_MICROS - elapsed_micros
    }
}

/// One stimulus of the probe loop, as the state machine sees it: a
/// probe was sent, an inbound ICMP message arrived, or the receive
/// timeout expired with nothing matching.
pub enum LoopEvent {
    Send,
    Reply { icmp_type: u8, sequence_number: u16 },
    TimeoutExpiry,
}

/// What one loop event does to the state.
pub open spec fn spec_step(s: PingState, is_v6: bool, ev: LoopEvent) -> PingState {
    match ev {
        LoopEvent::Send => spec_record_send(s),
        LoopEvent::Reply { icmp_type, sequence_number } => spec_handle_reply(
            s,
            is_v6,
            icmp_type,
            sequence_number,
        ).0,
        LoopEvent::TimeoutExpiry => spec_handle_timeout(s, is_v6),
    }
}

/// The state after a whole run of loop events.
pub open spec fn spec_run(s: PingState, is_v6: bool, evs: Seq<LoopEvent>) -> PingState
    decreases evs.len(),
{
    if evs.len() == 0 {
        s
    } else {
        spec_step(spec_run(s, is_v6, evs.drop_last()), is_v6, evs.last())
    }
}

/// Whether an event is a reply that matches the outstanding sequence
/// number of `s`.
pub open spec fn is_match(s: PingState, ev: LoopEvent) -> bool {
    match ev {
        LoopEvent::Reply { icmp_type: _, sequence_number } => sequence_number
            == s.sequence_number,
        _ => false,
    }
}

/// Whether an event is a matching reply of kind Echo-Reply.
pub open spec fn is_echo_match(s: PingState, is_v6: bool, ev: LoopEvent) -> bool {
    match ev {
        LoopEvent::Reply { icmp_type, sequence_number } => sequence_number == s.sequence_number
            && spec_classify(icmp_type, is_v6) == ReplyKind::EchoReply,
        _ => false,
    }
}

/// How many events of the run match the probe outstanding when they
/// arrive.
pub open spec fn match_count(s: PingState, is_v6: bool, evs: Seq<LoopEvent>) -> int
    decreases evs.len(),
{
    if evs.len() == 0 {
        0
    } else {
        match_count(s, is_v6, evs.drop_last()) + if is_match(
            spec_run(s, is_v6, evs.drop_last()),
            evs.last(),
        ) {
            1int
        } else {
            0int
        }
    }
}

/// How many events of the run are matching Echo-Replies.
pub open spec fn echo_match_count(s: PingState, is_v6: bool, evs: Seq<LoopEvent>) -> int
    decreases evs.len(),
{
    if evs.len() == 0 {
        0
    } else {
        echo_match_count(s, is_v6, evs.drop_last()) + if is_echo_match(
            spec_run(s, is_v6, evs.drop_last()),
            is_v6,
            evs.last(),
        ) {
            1int
        } else {
            0int
        }
    }
}

/// How many events of the run are sends.
pub open spec fn send_count(evs: Seq<LoopEvent>) -> int
    decreases evs.len(),
{
    if evs.len() == 0 {
        0
    } else {
        send_count(evs.drop_last()) + if evs.last() is Send {
            1int
        } else {
            0int
        }
    }
}

/// Over any run of the loop, as long as no counter reaches its machine
/// limit: the sequence number advances by exactly the number of
/// matched replies, the sent counter by exactly the number of sends,
/// and the success counter by exactly the number of matched
/// Echo-Replies. Timeouts, mismatched replies and matched non-echo
/// messages never touch the success counter.
pub proof fn lemma_run_counts(s: PingState, is_v6: bool, evs: Seq<LoopEvent>)
    requires
        s.sequence_number + match_count(s, is_v6, evs) <= 0xFFFF,
        s.session.total_sent + send_count(evs) <= u64::MAX,
        s.session.total_successful + echo_match_count(s, is_v6, evs) <= u64::MAX,
    ensures
        spec_run(s, is_v6, evs).sequence_number == s.sequence_number + match_count(s, is_v6, evs),
        spec_run(s, is_v6, evs).session.total_sent == s.session.total_sent + send_count(evs),
        spec_run(s, is_v6, evs).session.total_successful == s.session.total_successful
            + echo_match_count(s, is_v6, evs),
    decreases evs.len(),
{
    if evs.len() > 0 {
        let prefix = evs.drop_last();
        let prev = spec_run(s, is_v6, prefix);
        assert(match_count(s, is_v6, prefix) <= match_count(s, is_v6, evs));
        assert(send_count(prefix) <= send_count(evs));
        assert(echo_match_count(s, is_v6, prefix) <= echo_match_count(s, is_v6, evs));
        lemma_run_counts(s, is_v6, prefix);
        match evs.last() {
            LoopEvent::Send => {},
            LoopEvent::Reply { icmp_type, sequence_number } => {
                if sequence_number == prev.sequence_number {
                    assert(is_match(prev, evs.last()));
                } else {
                    assert(!is_match(prev, evs.last()));
                }
            },
            LoopEvent::TimeoutExpiry => {},
        }
    }
}

/// Sequence numbers of consecutively matched probes increase by
/// exactly one: a message only matches the outstanding sequence
/// number, and a match advances that number by one, so when two
/// messages match in turn the second carries the successor of the
/// first. The first probe of a run carries sequence number 0.
pub proof fn lemma_consecutive_matches(
    s0: PingState,
    is_v6: bool,
    type1: u8,
    seq1: u16,
    type2: u8,
    seq2: u16,
)
    requires
        spec_handle_reply(s0, is_v6, type1, seq1).1 != MatchOutcome::Mismatch,
        spec_handle_reply(spec_handle_reply(s0, is_v6, type1, seq1).0, is_v6, type2, seq2).1
            != MatchOutcome::Mismatch,
        s0.sequence_number < 0xFFFF,
    ensures
        seq1 == s0.sequence_number,
        seq2 == seq1 + 1,
        spec_initial_state(s0.ttl).sequence_number == 0,
{
}

/// Between two matches nothing moves the sequence number: recording a
/// send, a timeout, and a mismatched reply all leave it where it is.
pub proof fn lemma_sequence_stable_between_matches(
    s: PingState,
    is_v6: bool,
    icmp_type: u8,
    reply_seq: u16,
)
    ensures
        spec_record_send(s).sequence_number == s.sequence_number,
        spec_handle_timeout(s, is_v6).sequence_number == s.sequence_number,
        reply_seq != s.sequence_number ==> spec_handle_reply(
            s,
            is_v6,
            icmp_type,
            reply_seq,
        ).0.sequence_number == s.sequence_number,
{
}

/// The counters never decrease, and a reply can only raise the success
/// counter when a send is already recorded ahead of it, so successes
/// never overtake sends across a whole send/classify iteration.
pub proof fn lemma_iteration_preserves_counters(
    s0: PingState,
    is_v6: bool,
    icmp_type: u8,
    reply_seq: u16,
)
    requires
        s0.session.total_successful <= s0.session.total_sent,
        s0.session.total_sent < u64::MAX,
        s0.session.total_successful < u64::MAX,
    ensures
        spec_handle_reply(spec_record_send(s0), is_v6, icmp_type, reply_seq).0.session.total_successful
            <= spec_handle_reply(spec_record_send(s0), is_v6, icmp_type, reply_seq).0.session.total_sent,
        spec_handle_timeout(spec_record_send(s0), is_v6).session.total_successful
            <= spec_handle_timeout(spec_record_send(s0), is_v6).session.total_sent,
        spec_record_send(s0).session.total_sent >= s0.session.total_sent,
        spec_handle_reply(spec_record_send(s0), is_v6, icmp_type, reply_seq).0.session.total_successful
            >= s0.session.total_successful,
{
}

} // verus!
