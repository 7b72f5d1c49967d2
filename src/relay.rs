use vstd::prelude::*;
use vstd::utf8::{decode_utf8, valid_utf8};

use crate::events::{LatencyEventPayload, MessageEventPayload};
use crate::keepalive::{after_reply, latency_ms, Ping};

verus! {

/// One inbound frame, as far as the relay tells frames apart.
pub enum Frame {
    /// A reply to a liveness probe.
    LivenessReply,
    /// Any other frame, with its payload bytes.
    Payload(Vec<u8>),
}

/// What the relay hands on for one frame.
pub enum Relayed {
    /// A liveness reply: the latency since the last probe was sent.
    Latency(LatencyEventPayload),
    /// A text payload for the observer.
    Message(MessageEventPayload),
    /// A payload that is not UTF-8; it is skipped and counted.
    Undecodable,
}

/// The per-frame tail of the read loop.
pub struct InboundRelay {
    /// Payloads skipped because they were not UTF-8.
    pub decode_errors: u64,
}

/// Relies on String::from_utf8: it succeeds exactly on valid UTF-8 and then
/// holds the decoded characters.
#[verifier::external_body]
fn decode_text(bytes: Vec<u8>) -> (r: Option<String>)
    ensures
        match r {
            Some(s) => valid_utf8(bytes@) && s@ == decode_utf8(bytes@),
            None => !valid_utf8(bytes@),
        },
{
    String::from_utf8(bytes).ok()
}

impl InboundRelay {
    pub fn new() -> (r: InboundRelay)
        ensures
            r.decode_errors == 0,
    {
        InboundRelay { decode_errors: 0 }
    }

    /// Classifies one frame seen at `now_ms`. A liveness reply goes to the
    /// probe state, clears the outstanding probe and yields the latency; it is
    /// never handed on as data. Any other frame is decoded as
    /// UTF-8 and handed on as a message; one that does not decode is skipped
    /// and counted.
    pub fn handle(&mut self, ping: &mut Ping, frame: Frame, now_ms: u64) -> (r: Relayed)
        ensures
            match frame {
                Frame::LivenessReply => {
                    &&& *final(ping) == after_reply(*old(ping))
                    &&& final(self).decode_errors == old(self).decode_errors
                    &&& r == Relayed::Latency(
                        LatencyEventPayload { latency: latency_ms(old(ping).sent_time, now_ms) },
                    )
                },
                Frame::Payload(bytes) => {
                    &&& *final(ping) == *old(ping)
                    &&& if valid_utf8(bytes@) {
                        &&& r is Message
                        &&& r->Message_0.message@ == decode_utf8(bytes@)
                        &&& final(self).decode_errors == old(self).decode_errors
                    } else {
                        &&& r is Undecodable
                        &&& final(self).decode_errors == if old(self).decode_errors < u64::MAX {
                            (old(self).decode_errors + 1) as u64
                        } else {
                            old(self).decode_errors
                        }
                    }
                },
            },
    {
        match frame {
            Frame::LivenessReply => {
                let latency = ping.on_reply(now_ms);
                Relayed::Latency(LatencyEventPayload { latency })
            },
            Frame::Payload(bytes) => match decode_text(bytes) {
                Some(message) => Relayed::Message(MessageEventPayload { message }),
                None => {
                    self.decode_errors = self.decode_errors.saturating_add(1);
                    Relayed::Undecodable
                },
            },
        }
    }
}

/// The probe state after the relay handles frame `f`.
pub open spec fn ping_after_frame(p: Ping, f: Frame) -> Ping {
    match f {
        Frame::LivenessReply => after_reply(p),
        Frame::Payload(_) => p,
    }
}

/// The probe state after the relay handles the frames `fs`, in order.
pub open spec fn ping_after_frames(p: Ping, fs: Seq<Frame>) -> Ping
    decreases fs.len(),
{
    if fs.len() == 0 {
        p
    } else {
        ping_after_frame(ping_after_frames(p, fs.drop_last()), fs.last())
    }
}

/// Over any run of frames the send time never changes, payload frames leave
/// the probe state alone, and an outstanding probe is cleared exactly when
/// some frame is a liveness reply.
pub proof fn lemma_frames_clear_probe_only_by_reply(p: Ping, fs: Seq<Frame>)
    ensures
        ping_after_frames(p, fs).sent_time == p.sent_time,
        ping_after_frames(p, fs).outstanding == (p.outstanding && forall|i: int|
            0 <= i < fs.len() ==> (#[trigger] fs[i]) is Payload),
    decreases fs.len(),
{
    if fs.len() > 0 {
        let q = fs.drop_last();
        lemma_frames_clear_probe_only_by_reply(p, q);
        if p.outstanding && (forall|i: int| 0 <= i < q.len() ==> (#[trigger] q[i]) is Payload)
            && fs.last() is Payload {
            assert forall|i: int| 0 <= i < fs.len() implies (#[trigger] fs[i]) is Payload by {
                if i < q.len() {
                    assert(fs[i] == q[i]);
                }
            }
        }
        if !(p.outstanding && (forall|i: int| 0 <= i < q.len() ==> (#[trigger] q[i]) is Payload)) && p.outstanding {
            let i = choose|i: int| 0 <= i < q.len() && !((#[trigger] q[i]) is Payload);
            assert(fs[i] == q[i]);
        }
    }
}

} // verus!
