//! What the UDP receiver keeps between ticks.
//!
//! The receiving thread hands over every datagram with its arrival time.
//! A datagram that parses as a Quest packet becomes the latest packet and
//! its arrival time is appended to a log that keeps only the newest
//! [`MAX_TIMESTAMPS`] entries; a datagram that does not parse changes
//! nothing. Because each datagram counts on its own, recording a batch of
//! datagrams one at a time gives the same state as recording the batch
//! whole (see [`lemma_recording_one_at_a_time_is_recording_the_batch`]).

use std::collections::VecDeque;

use vstd::prelude::*;

use crate::message::{datagram_fields, JsonValue, QuestMessage};

verus! {

/// How many arrival timestamps are kept.
pub const MAX_TIMESTAMPS: usize = 512;

/// The last `n` elements of `s` (all of `s` when it is shorter).
pub open spec fn newest(s: Seq<i64>, n: nat) -> Seq<i64> {
    if s.len() > n {
        s.subrange(s.len() - n, s.len() as int)
    } else {
        s
    }
}

/// The freshest parsed Quest packet, and the arrival times (nanoseconds)
/// of the newest parsed packets.
#[derive(Debug)]
pub struct ReceiverState {
    latest: Option<QuestMessage>,
    recv_ts: VecDeque<i64>,
}

/// The fields of the latest packet, and the log of arrival times, oldest
/// first.
pub struct ReceiverView {
    /// The fields of the latest parsed packet, if any.
    pub latest: Option<Map<Seq<char>, JsonValue>>,
    /// The logged arrival times, oldest first.
    pub timestamps: Seq<i64>,
}

impl View for ReceiverState {
    type V = ReceiverView;

    closed spec fn view(&self) -> ReceiverView {
        ReceiverView {
            latest: match self.latest {
                Some(m) => Some(m@),
                None => None,
            },
            timestamps: self.recv_ts@,
        }
    }
}

/// The state after one datagram with arrival time `recv_ns` and bytes
/// `data`: unchanged when the datagram holds no message; otherwise its
/// fields are the latest and its time joins the log, of which the newest
/// [`MAX_TIMESTAMPS`] entries are kept.
pub open spec fn after_datagram(s: ReceiverView, recv_ns: i64, data: Seq<u8>) -> ReceiverView {
    match datagram_fields(data) {
        None => s,
        Some(fields) => ReceiverView {
            latest: Some(fields),
            timestamps: newest(s.timestamps.push(recv_ns), MAX_TIMESTAMPS as nat),
        },
    }
}

impl Clone for ReceiverState {
    /// A copy with the same latest packet and timestamps.
    fn clone(&self) -> (copy: Self)
        ensures
            copy@ == self@,
    {
        proof {
            use_type_invariant(self);
        }
        let recv_ts = self.recv_ts.clone();
        assert(recv_ts@ =~= self.recv_ts@);
        let latest = match &self.latest {
            Some(m) => Some(m.clone()),
            None => None,
        };
        ReceiverState { latest, recv_ts }
    }
}

impl Default for ReceiverState {
    /// The empty state of [`ReceiverState::new`].
    fn default() -> (s: Self)
        ensures
            s@.latest is None,
            s@.timestamps == Seq::<i64>::empty(),
    {
        ReceiverState::new()
    }
}

impl ReceiverState {
    #[verifier::type_invariant]
    spec fn log_is_bounded(&self) -> bool {
        self.recv_ts@.len() <= MAX_TIMESTAMPS
    }

    /// An empty state: no latest packet, no timestamps.
    pub fn new() -> (s: Self)
        ensures
            s@.latest is None,
            s@.timestamps == Seq::<i64>::empty(),
    {
        ReceiverState { latest: None, recv_ts: VecDeque::new() }
    }

    /// Records one datagram received at `recv_ns` (nanoseconds).
    ///
    /// When `data` parses as a Quest packet it becomes the latest packet
    /// and `recv_ns` is appended to the log, dropping the oldest entry
    /// beyond [`MAX_TIMESTAMPS`]. A datagram that does not parse is
    /// dropped without a trace.
    pub fn record_datagram(&mut self, recv_ns: i64, data: &[u8])
        ensures
            final(self)@ == after_datagram(old(self)@, recv_ns, data@),
            final(self)@.timestamps.len() <= MAX_TIMESTAMPS,
    {
        proof {
            use_type_invariant(&*self);
        }
        let message = match QuestMessage::parse(data) {
            Some(m) => m,
            None => {
                return;
            },
        };
        let mut log: VecDeque<i64> = VecDeque::new();
        std::mem::swap(&mut log, &mut self.recv_ts);
        let ghost before = log@;
        if log.len() >= MAX_TIMESTAMPS {
            log.pop_front();
        }
        log.push_back(recv_ns);
        proof {
            let pushed = before.push(recv_ns);
            if before.len() >= MAX_TIMESTAMPS {
                assert(log@ =~= pushed.subrange(pushed.len() - MAX_TIMESTAMPS, pushed.len() as int));
            } else {
                assert(log@ =~= pushed);
            }
        }
        self.recv_ts = log;
        self.latest = Some(message);
    }

    /// The freshest parsed packet, if any.
    pub fn latest(&self) -> (latest: Option<&QuestMessage>)
        ensures
            match latest {
                Some(m) => self@.latest == Some(m@),
                None => self@.latest is None,
            },
    {
        match &self.latest {
            Some(m) => Some(m),
            None => None,
        }
    }

    /// Returns the logged arrival times, oldest first, and empties the log;
    /// the latest packet stays.
    pub fn drain_recv_timestamps(&mut self) -> (drained: Vec<i64>)
        ensures
            drained@ == old(self)@.timestamps,
            final(self)@.timestamps == Seq::<i64>::empty(),
            final(self)@.latest == old(self)@.latest,
    {
        let mut drained: Vec<i64> = Vec::new();
        let n = self.recv_ts.len();
        let mut i: usize = 0;
        while i < n
            invariant
                n == self.recv_ts@.len(),
                i <= n,
                drained@ == self.recv_ts@.subrange(0, i as int),
            decreases n - i,
        {
            drained.push(self.recv_ts[i]);
            i = i + 1;
            assert(drained@ =~= self.recv_ts@.subrange(0, i as int));
        }
        assert(drained@ =~= self.recv_ts@);
        self.recv_ts = VecDeque::new();
        drained
    }
}

// ---------------------------------------------------------------------
// Laws.
// ---------------------------------------------------------------------

/// The state after recording `events` (arrival time, bytes) one at a
/// time, in order.
pub open spec fn after_datagrams(s: ReceiverView, events: Seq<(i64, Seq<u8>)>) -> ReceiverView
    decreases events.len(),
{
    if events.len() == 0 {
        s
    } else {
        let last = events.last();
        after_datagram(after_datagrams(s, events.drop_last()), last.0, last.1)
    }
}

/// The arrival times of the events that hold a message, in order.
pub open spec fn parsed_times(events: Seq<(i64, Seq<u8>)>) -> Seq<i64>
    decreases events.len(),
{
    if events.len() == 0 {
        Seq::empty()
    } else {
        let last = events.last();
        let rest = parsed_times(events.drop_last());
        if datagram_fields(last.1) is Some {
            rest.push(last.0)
        } else {
            rest
        }
    }
}

/// The fields of the last event that holds a message, or `latest` when
/// none does.
pub open spec fn last_parsed(
    latest: Option<Map<Seq<char>, JsonValue>>,
    events: Seq<(i64, Seq<u8>)>,
) -> Option<Map<Seq<char>, JsonValue>>
    decreases events.len(),
{
    if events.len() == 0 {
        latest
    } else {
        match datagram_fields(events.last().1) {
            Some(fields) => Some(fields),
            None => last_parsed(latest, events.drop_last()),
        }
    }
}

proof fn lemma_newest_of_newest(s: Seq<i64>, x: i64, n: nat)
    requires
        n > 0,
    ensures
        newest(newest(s, n).push(x), n) == newest(s.push(x), n),
{
    let t = newest(s, n);
    if s.len() > n {
        assert(newest(t.push(x), n) =~= newest(s.push(x), n));
    }
}

/// Recording a batch of datagrams one at a time leaves the latest packet
/// of the batch (the last one that parses, or the previous latest when
/// none does) and logs the arrival times of exactly the datagrams that
/// parse, in order, keeping the newest [`MAX_TIMESTAMPS`].
pub proof fn lemma_recording_one_at_a_time_is_recording_the_batch(
    s: ReceiverView,
    events: Seq<(i64, Seq<u8>)>,
)
    requires
        s.timestamps.len() <= MAX_TIMESTAMPS,
    ensures
        after_datagrams(s, events).latest == last_parsed(s.latest, events),
        after_datagrams(s, events).timestamps == newest(
            s.timestamps + parsed_times(events),
            MAX_TIMESTAMPS as nat,
        ),
    decreases events.len(),
{
    if events.len() == 0 {
        assert(s.timestamps + parsed_times(events) =~= s.timestamps);
    } else {
        let rest = events.drop_last();
        let last = events.last();
        lemma_recording_one_at_a_time_is_recording_the_batch(s, rest);
        let mid = after_datagrams(s, rest);
        match datagram_fields(last.1) {
            None => {},
            Some(fields) => {
                lemma_newest_of_newest(
                    s.timestamps + parsed_times(rest),
                    last.0,
                    MAX_TIMESTAMPS as nat,
                );
                assert((s.timestamps + parsed_times(rest)).push(last.0) =~= s.timestamps
                    + parsed_times(events));
            },
        }
    }
}

} // verus!
