use vstd::prelude::*;

use crate::channel::WriteChannel;
use crate::events::NotificationEventPayload;

verus! {

/// Where the supervisor stands in its reconnect cycle.
#[derive(PartialEq, Eq, Structural, Clone, Copy, Debug)]
pub enum Phase {
    Disconnected,
    Connecting,
    Connected,
}

/// The decisions of the reconnect loop: the caller performs each action and
/// reports what came of it as the next event.
pub struct Supervisor {
    pub phase: Phase,
    /// Whether any connection has succeeded since start-up.
    pub ever_connected: bool,
    /// Connection attempts made in the current cycle.
    pub attempts: u64,
    /// Seconds to wait after a failed attempt.
    pub retry_delay: u64,
}

/// What the caller observed. `ConnectSucceeded` carries the new write half.
pub enum SupervisorEvent<W> {
    /// The write lock is held and a new cycle begins.
    Start,
    ConnectFailed,
    ConnectSucceeded(W),
    /// The read half ended, by error or by close.
    StreamEnded,
}

/// An event without its payload.
#[derive(PartialEq, Eq, Structural, Clone, Copy, Debug)]
pub enum EventKind {
    Start,
    ConnectFailed,
    ConnectSucceeded,
    StreamEnded,
}

/// What the caller is to do next.
pub enum SupervisorAction {
    /// Attempt a connection now.
    Connect,
    /// Wait this many seconds, then attempt a connection.
    RetryAfter(u64),
    /// Hand this notification to the observer (then, after `Connected`, drive
    /// the read half; after `LostConnection`, start a new cycle).
    Announce(NotificationEventPayload),
    /// The event does not apply in this phase; nothing to do.
    Ignore,
}

pub open spec fn kind_of<W>(e: SupervisorEvent<W>) -> EventKind {
    match e {
        SupervisorEvent::Start => EventKind::Start,
        SupervisorEvent::ConnectFailed => EventKind::ConnectFailed,
        SupervisorEvent::ConnectSucceeded(_) => EventKind::ConnectSucceeded,
        SupervisorEvent::StreamEnded => EventKind::StreamEnded,
    }
}

pub open spec fn bump(a: u64) -> u64 {
    if a < u64::MAX {
        (a + 1) as u64
    } else {
        a
    }
}

/// Whether `e` applies in phase `p`.
pub open spec fn applies(p: Phase, e: EventKind) -> bool {
    match e {
        EventKind::Start => p == Phase::Disconnected,
        EventKind::ConnectFailed => p == Phase::Connecting,
        EventKind::ConnectSucceeded => p == Phase::Connecting,
        EventKind::StreamEnded => p == Phase::Connected,
    }
}

/// The state after event `e`.
pub open spec fn next(s: Supervisor, e: EventKind) -> Supervisor {
    if !applies(s.phase, e) {
        s
    } else {
        match e {
            EventKind::Start => Supervisor { phase: Phase::Connecting, attempts: 0, ..s },
            EventKind::ConnectFailed => Supervisor { attempts: bump(s.attempts), ..s },
            EventKind::ConnectSucceeded => Supervisor {
                phase: Phase::Connected,
                ever_connected: true,
                attempts: bump(s.attempts),
                ..s
            },
            EventKind::StreamEnded => Supervisor { phase: Phase::Disconnected, ..s },
        }
    }
}

/// The action that event `e` calls for.
pub open spec fn action(s: Supervisor, e: EventKind) -> SupervisorAction {
    if !applies(s.phase, e) {
        SupervisorAction::Ignore
    } else {
        match e {
            EventKind::Start => SupervisorAction::Connect,
            EventKind::ConnectFailed => SupervisorAction::RetryAfter(s.retry_delay),
            EventKind::ConnectSucceeded => SupervisorAction::Announce(
                NotificationEventPayload::Connected { first_connection: !s.ever_connected },
            ),
            EventKind::StreamEnded => SupervisorAction::Announce(
                NotificationEventPayload::LostConnection,
            ),
        }
    }
}

/// The state after a sequence of events.
pub open spec fn run(s: Supervisor, evs: Seq<EventKind>) -> Supervisor
    decreases evs.len(),
{
    if evs.len() == 0 {
        s
    } else {
        next(run(s, evs.drop_last()), evs.last())
    }
}

/// The actions called for along a sequence of events.
pub open spec fn actions(s: Supervisor, evs: Seq<EventKind>) -> Seq<SupervisorAction>
    decreases evs.len(),
{
    if evs.len() == 0 {
        Seq::empty()
    } else {
        actions(s, evs.drop_last()).push(action(run(s, evs.drop_last()), evs.last()))
    }
}

/// The state at process start.
pub open spec fn initial(retry_delay: u64) -> Supervisor {
    Supervisor {
        phase: Phase::Disconnected,
        ever_connected: false,
        attempts: 0,
        retry_delay,
    }
}

/// The flag carried by a `Connected` notice, if the action is one.
pub open spec fn connect_notice(a: SupervisorAction) -> Option<bool> {
    match a {
        SupervisorAction::Announce(NotificationEventPayload::Connected { first_connection }) => Some(
            first_connection,
        ),
        _ => None,
    }
}

/// Whether some action before index `i` announces a connection.
pub open spec fn announced_before(acts: Seq<SupervisorAction>, i: int) -> bool {
    exists|j: int| 0 <= j < i && (#[trigger] connect_notice(acts[j])) is Some
}

proof fn lemma_ever_connected_tracks_notices(d: u64, evs: Seq<EventKind>)
    ensures
        actions(initial(d), evs).len() == evs.len(),
        run(initial(d), evs).ever_connected == announced_before(
            actions(initial(d), evs),
            evs.len() as int,
        ),
        forall|i: int|
            0 <= i < evs.len() && (#[trigger] connect_notice(actions(initial(d), evs)[i])) is Some
                ==> (connect_notice(actions(initial(d), evs)[i]) == Some(true) <==> !announced_before(
                actions(initial(d), evs),
                i,
            )),
    decreases evs.len(),
{
    let s0 = initial(d);
    if evs.len() > 0 {
        let p = evs.drop_last();
        lemma_ever_connected_tracks_notices(d, p);
        let acts = actions(s0, evs);
        let pacts = actions(s0, p);
        assert(acts == pacts.push(action(run(s0, p), evs.last())));
        assert forall|i: int| 0 <= i < p.len() implies acts[i] == pacts[i] by {}
        assert forall|i: int| 0 <= i <= p.len() implies announced_before(acts, i) == announced_before(
            pacts,
            i,
        ) by {
            if announced_before(acts, i) {
                let j = choose|j: int| 0 <= j < i && (#[trigger] connect_notice(acts[j])) is Some;
                assert(connect_notice(pacts[j]) is Some);
            }
            if announced_before(pacts, i) {
                let j = choose|j: int| 0 <= j < i && (#[trigger] connect_notice(pacts[j])) is Some;
                assert(connect_notice(acts[j]) is Some);
            }
        }
        let last = p.len() as int;
        if connect_notice(acts[last]) is Some {
            assert(announced_before(acts, last + 1));
        } else if announced_before(acts, last + 1) {
            let j = choose|j: int| 0 <= j < last + 1 && (#[trigger] connect_notice(acts[j])) is Some;
            assert(j < last);
            assert(announced_before(acts, last));
        }
    }
}

/// From start-up, the first `Connected` notice says that it is the first
/// connection, and every later one says that it is a reconnect, whatever the
/// events in between.
pub proof fn lemma_first_connection_flag(retry_delay: u64, evs: Seq<EventKind>)
    ensures
        forall|i: int|
            0 <= i < actions(initial(retry_delay), evs).len() && (#[trigger] connect_notice(
                actions(initial(retry_delay), evs)[i],
            )) is Some ==> (connect_notice(actions(initial(retry_delay), evs)[i]) == Some(true)
                <==> !announced_before(actions(initial(retry_delay), evs), i)),
{
    lemma_ever_connected_tracks_notices(retry_delay, evs);
}

/// `n` failed connection attempts in a row.
pub open spec fn failures(n: nat) -> Seq<EventKind> {
    Seq::new(n, |i: int| EventKind::ConnectFailed)
}

proof fn lemma_after_failures(s: Supervisor, n: nat)
    requires
        s.phase == Phase::Disconnected,
        n <= u64::MAX,
    ensures
        run(s, seq![EventKind::Start] + failures(n)) == (Supervisor {
            phase: Phase::Connecting,
            attempts: n as u64,
            ..s
        }),
        actions(s, seq![EventKind::Start] + failures(n)) =~= seq![SupervisorAction::Connect]
            + Seq::new(n, |i: int| SupervisorAction::RetryAfter(s.retry_delay)),
    decreases n,
{
    let evs = seq![EventKind::Start] + failures(n);
    if n == 0 {
        assert(evs =~= seq![EventKind::Start]);
        assert(evs.drop_last() =~= Seq::<EventKind>::empty());
        assert(run(s, evs.drop_last()) == s);
        assert(run(s, evs) == next(s, EventKind::Start));
        assert(actions(s, evs.drop_last()) =~= Seq::<SupervisorAction>::empty());
        assert(actions(s, evs) == Seq::<SupervisorAction>::empty().push(SupervisorAction::Connect));
        assert(actions(s, evs) =~= seq![SupervisorAction::Connect]);
    } else {
        let m = (n - 1) as nat;
        let prev = seq![EventKind::Start] + failures(m);
        lemma_after_failures(s, m);
        assert(evs.drop_last() =~= prev);
        assert(evs.last() == EventKind::ConnectFailed);
        assert(action(run(s, prev), EventKind::ConnectFailed) == SupervisorAction::RetryAfter(
            s.retry_delay,
        ));
        assert(run(s, evs) == next(run(s, prev), EventKind::ConnectFailed));
        assert(bump(m as u64) == n as u64);
        assert(actions(s, evs) == actions(s, prev).push(SupervisorAction::RetryAfter(s.retry_delay)));
        assert(seq![SupervisorAction::Connect] + Seq::new(
            n,
            |i: int| SupervisorAction::RetryAfter(s.retry_delay),
        ) =~= (seq![SupervisorAction::Connect] + Seq::new(
            m,
            |i: int| SupervisorAction::RetryAfter(s.retry_delay),
        )).push(SupervisorAction::RetryAfter(s.retry_delay)));
    }
}

/// A supervisor that meets `n` failed connection attempts and then a success
/// makes exactly `n + 1` attempts, waits the retry delay after each failure,
/// never gives up, and is connected after the last.
pub proof fn lemma_reconnect_indefinitely(s: Supervisor, n: nat)
    requires
        s.phase == Phase::Disconnected,
        n < u64::MAX,
    ensures
        ({
            let evs = seq![EventKind::Start] + failures(n) + seq![EventKind::ConnectSucceeded];
            &&& run(s, evs).phase == Phase::Connected
            &&& run(s, evs).attempts == n + 1
            &&& actions(s, evs) =~= seq![SupervisorAction::Connect] + Seq::new(
                n,
                |i: int| SupervisorAction::RetryAfter(s.retry_delay),
            ) + seq![
                SupervisorAction::Announce(
                    NotificationEventPayload::Connected { first_connection: !s.ever_connected },
                ),
            ]
        }),
{
    let evs = seq![EventKind::Start] + failures(n) + seq![EventKind::ConnectSucceeded];
    lemma_after_failures(s, n);
    assert(evs.drop_last() =~= seq![EventKind::Start] + failures(n));
}

/// A connection that drops, followed by `n` failed attempts and a success,
/// gives exactly one `LostConnection` notice first, then a retry per failure,
/// then one `Connected` notice that marks a reconnect; the channel is not
/// connected in between.
pub proof fn lemma_drop_then_reconnect(s: Supervisor, n: nat)
    requires
        s.phase == Phase::Connected,
        s.ever_connected,
        n < u64::MAX,
    ensures
        ({
            let evs = seq![EventKind::StreamEnded, EventKind::Start] + failures(n) + seq![
                EventKind::ConnectSucceeded,
            ];
            &&& run(s, evs).phase == Phase::Connected
            &&& actions(s, evs) =~= seq![
                SupervisorAction::Announce(NotificationEventPayload::LostConnection),
                SupervisorAction::Connect,
            ] + Seq::new(n, |i: int| SupervisorAction::RetryAfter(s.retry_delay)) + seq![
                SupervisorAction::Announce(
                    NotificationEventPayload::Connected { first_connection: false },
                ),
            ]
        }),
{
    let d = Supervisor { phase: Phase::Disconnected, ..s };
    let tail = seq![EventKind::Start] + failures(n) + seq![EventKind::ConnectSucceeded];
    let evs = seq![EventKind::StreamEnded] + tail;
    assert(evs =~= seq![EventKind::StreamEnded, EventKind::Start] + failures(n) + seq![
        EventKind::ConnectSucceeded,
    ]);
    lemma_reconnect_indefinitely(d, n);
    lemma_run_prepend(s, EventKind::StreamEnded, tail);
}

proof fn lemma_run_prepend(s: Supervisor, e: EventKind, evs: Seq<EventKind>)
    ensures
        run(s, seq![e] + evs) == run(next(s, e), evs),
        actions(s, seq![e] + evs) =~= seq![action(s, e)] + actions(next(s, e), evs),
    decreases evs.len(),
{
    let all = seq![e] + evs;
    if evs.len() == 0 {
        assert(all =~= seq![e]);
        assert(all.drop_last() =~= Seq::<EventKind>::empty());
        assert(run(s, all.drop_last()) == s);
        assert(actions(s, all.drop_last()) =~= Seq::<SupervisorAction>::empty());
        assert(actions(s, all) == Seq::<SupervisorAction>::empty().push(action(s, e)));
        assert(actions(next(s, e), evs) =~= Seq::<SupervisorAction>::empty());
    } else {
        let q = evs.drop_last();
        lemma_run_prepend(s, e, q);
        assert(all.drop_last() =~= seq![e] + q);
        assert(all.last() == evs.last());
        assert(run(s, all) == next(run(s, seq![e] + q), evs.last()));
        assert(run(next(s, e), evs) == next(run(next(s, e), q), evs.last()));
        assert(actions(s, all) == actions(s, seq![e] + q).push(
            action(run(s, seq![e] + q), evs.last()),
        ));
        assert(actions(next(s, e), evs) == actions(next(s, e), q).push(
            action(run(next(s, e), q), evs.last()),
        ));
    }
}

impl Supervisor {
    /// The supervisor at start-up: disconnected, never connected.
    pub fn new(retry_delay: u64) -> (r: Supervisor)
        ensures
            r == initial(retry_delay),
    {
        Supervisor { phase: Phase::Disconnected, ever_connected: false, attempts: 0, retry_delay }
    }

    /// Takes one event and updates the write channel with it: a new cycle
    /// marks the channel connecting, a success installs the new write half,
    /// and the end of the read half clears the channel. An event that does
    /// not apply in the current phase changes nothing. Whatever the channel
    /// held before is handed back, to be dropped.
    pub fn step<W>(&mut self, ev: SupervisorEvent<W>, chan: &mut WriteChannel<W>) -> (r: (
        SupervisorAction,
        Option<W>,
    ))
        ensures
            *final(self) == next(*old(self), kind_of(ev)),
            r.0 == action(*old(self), kind_of(ev)),
            match ev {
                SupervisorEvent::Start => if old(self).phase == Phase::Disconnected {
                    *final(chan) is Connecting && r.1 == old(chan).half()
                } else {
                    *final(chan) == *old(chan) && r.1 is None
                },
                SupervisorEvent::ConnectSucceeded(w) => if old(self).phase == Phase::Connecting {
                    *final(chan) == WriteChannel::Connected(w) && r.1 == old(chan).half()
                } else {
                    *final(chan) == *old(chan) && r.1 == Some(w)
                },
                SupervisorEvent::StreamEnded => if old(self).phase == Phase::Connected {
                    *final(chan) is Disconnected && r.1 == old(chan).half()
                } else {
                    *final(chan) == *old(chan) && r.1 is None
                },
                SupervisorEvent::ConnectFailed => *final(chan) == *old(chan) && r.1 is None,
            },
    {
        match ev {
            SupervisorEvent::Start => {
                if self.phase == Phase::Disconnected {
                    self.phase = Phase::Connecting;
                    self.attempts = 0;
                    let prev = chan.begin_connect();
                    (SupervisorAction::Connect, prev)
                } else {
                    (SupervisorAction::Ignore, None)
                }
            },
            SupervisorEvent::ConnectFailed => {
                if self.phase == Phase::Connecting {
                    self.attempts = self.attempts.saturating_add(1);
                    (SupervisorAction::RetryAfter(self.retry_delay), None)
                } else {
                    (SupervisorAction::Ignore, None)
                }
            },
            SupervisorEvent::ConnectSucceeded(w) => {
                if self.phase == Phase::Connecting {
                    let first = !self.ever_connected;
                    self.phase = Phase::Connected;
                    self.ever_connected = true;
                    self.attempts = self.attempts.saturating_add(1);
                    let prev = chan.install(w);
                    (
                        SupervisorAction::Announce(
                            NotificationEventPayload::Connected { first_connection: first },
                        ),
                        prev,
                    )
                } else {
                    (SupervisorAction::Ignore, Some(w))
                }
            },
            SupervisorEvent::StreamEnded => {
                if self.phase == Phase::Connected {
                    self.phase = Phase::Disconnected;
                    let prev = chan.clear();
                    (SupervisorAction::Announce(NotificationEventPayload::LostConnection), prev)
                } else {
                    (SupervisorAction::Ignore, None)
                }
            },
        }
    }
}

} // verus!
