use vstd::prelude::*;

verus! {

/// Liveness-probe bookkeeping, shared by the timer that sends probes and the
/// read path that sees their replies. Times are milliseconds on a monotonic clock.
pub struct Ping {
    pub sent_time: u64,
    pub outstanding: bool,
}

/// What a timer tick asks the caller to do.
#[derive(PartialEq, Eq, Structural, Clone, Copy, Debug)]
pub enum TickAction {
    /// Send one liveness probe now, through the shared write channel.
    SendProbe,
    /// Do nothing this tick.
    Skip,
}

/// A probe goes out on a tick only when none is outstanding and the channel is
/// connected.
pub open spec fn tick_sends(p: Ping, connected: bool) -> bool {
    !p.outstanding && connected
}

/// The state after a tick at `now`.
pub open spec fn after_tick(p: Ping, now: u64, connected: bool) -> Ping {
    if tick_sends(p, connected) {
        Ping { sent_time: now, outstanding: true }
    } else {
        p
    }
}

/// A liveness reply resolves the probe: nothing is outstanding afterwards,
/// and the send time stays for the latency.
pub open spec fn after_reply(p: Ping) -> Ping {
    Ping { sent_time: p.sent_time, outstanding: false }
}

/// Milliseconds from `sent` to `now`, zero if the clock reads earlier than
/// `sent`, capped at the largest `u32`.
pub open spec fn latency_ms(sent: u64, now: u64) -> u32 {
    if now <= sent {
        0
    } else if now - sent >= u32::MAX {
        u32::MAX
    } else {
        (now - sent) as u32
    }
}

/// One event that touches the probe state.
pub enum ProbeEvent {
    Tick { now: u64, connected: bool },
    Reply { now: u64 },
    /// The probe's own send failed, so no reply to it can come.
    SendFailed,
}

pub open spec fn after_event(p: Ping, e: ProbeEvent) -> Ping {
    match e {
        ProbeEvent::Tick { now, connected } => after_tick(p, now, connected),
        ProbeEvent::Reply { .. } => after_reply(p),
        ProbeEvent::SendFailed => after_reply(p),
    }
}

impl Ping {
    /// A fresh state: no probe outstanding, last send time `now_ms`.
    pub fn new(now_ms: u64) -> (r: Ping)
        ensures
            r.sent_time == now_ms,
            !r.outstanding,
    {
        Ping { sent_time: now_ms, outstanding: false }
    }

    /// Decides a timer tick at `now_ms`. While a probe is outstanding, or the
    /// write channel is disconnected, the tick is skipped and nothing changes.
    /// Otherwise the send time is recorded, the probe is marked outstanding,
    /// and the caller is asked to send it.
    pub fn on_tick(&mut self, now_ms: u64, connected: bool) -> (r: TickAction)
        ensures
            *final(self) == after_tick(*old(self), now_ms, connected),
            (r == TickAction::SendProbe) == tick_sends(*old(self), connected),
    {
        if self.outstanding || !connected {
            TickAction::Skip
        } else {
            self.sent_time = now_ms;
            self.outstanding = true;
            TickAction::SendProbe
        }
    }

    /// Handles a liveness reply seen at `now_ms`: the probe is no longer
    /// outstanding, and the round-trip latency since the last send is returned.
    pub fn on_reply(&mut self, now_ms: u64) -> (r: u32)
        ensures
            *final(self) == after_reply(*old(self)),
            r == latency_ms(old(self).sent_time, now_ms),
    {
        self.outstanding = false;
        if now_ms <= self.sent_time {
            0
        } else {
            let d: u64 = now_ms - self.sent_time;
            if d >= 0xffff_ffffu64 {
                u32::MAX
            } else {
                d as u32
            }
        }
    }

    /// Handles a failed send of the probe: no reply to it can come, so it is
    /// no longer outstanding and the next tick may send a fresh one.
    pub fn on_send_failed(&mut self)
        ensures
            *final(self) == after_reply(*old(self)),
    {
        self.outstanding = false;
    }
}

/// While a probe is outstanding no tick sends another, and the outstanding
/// mark is cleared only by a reply, or by the failure of the probe's own send.
pub proof fn lemma_single_outstanding_probe(p: Ping, e: ProbeEvent)
    ensures
        p.outstanding ==> match e {
            ProbeEvent::Tick { now, connected } => !tick_sends(p, connected)
                && after_tick(p, now, connected) == p,
            _ => true,
        },
        p.outstanding && !after_event(p, e).outstanding ==> (e is Reply || e is SendFailed),
        !p.outstanding && after_event(p, e).outstanding ==> e is Tick,
{
}

/// A connected tick with nothing outstanding sends a probe; a reply `d`
/// milliseconds later yields exactly `d` (below the `u32` cap) and leaves
/// nothing outstanding, so the next connected tick sends again.
pub proof fn lemma_probe_round_trip(p: Ping, t: u64, d: u64)
    requires
        !p.outstanding,
        t + d <= u64::MAX,
        d < u32::MAX,
    ensures
        tick_sends(p, true),
        latency_ms(after_tick(p, t, true).sent_time, (t + d) as u64) == d,
        !after_reply(after_tick(p, t, true)).outstanding,
        tick_sends(after_reply(after_tick(p, t, true)), true),
{
}

} // verus!
