use vstd::prelude::*;

verus! {

/// Why an outbound send failed.
#[derive(PartialEq, Eq, Debug)]
pub enum SendError {
    /// No connection is installed: the send fails at once.
    NotConnected,
    /// The transport refused the frame or the flush; its message.
    TransportError(String),
}

/// The holder of the current write half: none while disconnected, none while
/// a connection is being established, the installed half once connected.
pub enum WriteChannel<W> {
    Disconnected,
    Connecting,
    Connected(W),
}

impl<W> WriteChannel<W> {
    /// The write half that a send would use, if any.
    pub open spec fn half(self) -> Option<W> {
        match self {
            WriteChannel::Connected(w) => Some(w),
            _ => None,
        }
    }

    /// A channel with nothing installed.
    pub fn new() -> (r: WriteChannel<W>)
        ensures
            r is Disconnected,
    {
        WriteChannel::Disconnected
    }

    /// Whether a write half is installed.
    pub fn is_connected(&self) -> (r: bool)
        ensures
            r == self.half() is Some,
    {
        match self {
            WriteChannel::Connected(_) => true,
            _ => false,
        }
    }

    /// Marks a connection attempt under way; any earlier half is handed back
    /// to be dropped. Sends fail until `install`.
    pub fn begin_connect(&mut self) -> (r: Option<W>)
        ensures
            *final(self) is Connecting,
            r == old(self).half(),
    {
        let mut prev = WriteChannel::Connecting;
        std::mem::swap(self, &mut prev);
        match prev {
            WriteChannel::Connected(w) => Some(w),
            _ => None,
        }
    }

    /// Installs a freshly established write half; any earlier half is handed
    /// back to be dropped.
    pub fn install(&mut self, w: W) -> (r: Option<W>)
        ensures
            *final(self) == WriteChannel::Connected(w),
            r == old(self).half(),
    {
        let mut prev = WriteChannel::Connected(w);
        std::mem::swap(self, &mut prev);
        match prev {
            WriteChannel::Connected(old_w) => Some(old_w),
            _ => None,
        }
    }

    /// Removes the write half, so that later sends fail fast; the removed half
    /// is handed back.
    pub fn clear(&mut self) -> (r: Option<W>)
        ensures
            *final(self) is Disconnected,
            r == old(self).half(),
    {
        let mut prev = WriteChannel::Disconnected;
        std::mem::swap(self, &mut prev);
        match prev {
            WriteChannel::Connected(w) => Some(w),
            _ => None,
        }
    }

    /// The write half for one send. Without an installed half this fails with
    /// `NotConnected` and changes nothing; otherwise the caller writes through
    /// the installed half, which stays installed.
    pub fn writer(&mut self) -> (r: Result<&mut W, SendError>)
        ensures
            match r {
                Ok(w) => old(self).half() == Some(*w)
                    && *final(self) == WriteChannel::Connected(*final(w)),
                Err(e) => old(self).half() is None && e == SendError::NotConnected
                    && *final(self) == *old(self),
            },
    {
        match self {
            WriteChannel::Connected(w) => Ok(w),
            _ => Err(SendError::NotConnected),
        }
    }
}

impl SendError {
    /// The message handed to the caller of a send.
    pub fn message(&self) -> (r: String)
        ensures
            match self {
                SendError::NotConnected => r@ == "not connected to WebSocket server"@,
                SendError::TransportError(m) => r@ == m@,
            },
    {
        match self {
            SendError::NotConnected => String::from_str("not connected to WebSocket server"),
            SendError::TransportError(m) => m.clone(),
        }
    }
}

/// One operation on the channel, as the lock orders them.
pub enum ChannelOp<W> {
    BeginConnect,
    Install(W),
    Clear,
    Send,
}

pub open spec fn apply<W>(c: WriteChannel<W>, op: ChannelOp<W>) -> WriteChannel<W> {
    match op {
        ChannelOp::BeginConnect => WriteChannel::Connecting,
        ChannelOp::Install(w) => WriteChannel::Connected(w),
        ChannelOp::Clear => WriteChannel::Disconnected,
        ChannelOp::Send => c,
    }
}

/// The channel after the operations `ops`, in order, from `c`.
pub open spec fn replay<W>(c: WriteChannel<W>, ops: Seq<ChannelOp<W>>) -> WriteChannel<W>
    decreases ops.len(),
{
    if ops.len() == 0 {
        c
    } else {
        apply(replay(c, ops.drop_last()), ops.last())
    }
}

/// Every operation takes the channel exclusively, so operations happen one
/// after another, never overlapping. Whatever their order, from a fresh
/// channel a send reaches a write half exactly when the last operation other
/// than a send was an install, and then it reaches the half that install put
/// in.
pub proof fn lemma_send_sees_last_install<W>(ops: Seq<ChannelOp<W>>, w: W)
    ensures
        replay(WriteChannel::<W>::Disconnected, ops).half() == Some(w) <==> exists|i: int|
            0 <= i < ops.len() && ops[i] == ChannelOp::Install(w) && forall|j: int|
                i < j < ops.len() ==> (#[trigger] ops[j]) is Send,
    decreases ops.len(),
{
    let c0 = WriteChannel::<W>::Disconnected;
    if ops.len() > 0 {
        let p = ops.drop_last();
        lemma_send_sees_last_install(p, w);
        let last = ops.len() - 1;
        if replay(c0, ops).half() == Some(w) {
            if ops.last() is Send {
                let i = choose|i: int|
                    0 <= i < p.len() && p[i] == ChannelOp::Install(w) && forall|j: int|
                        i < j < p.len() ==> (#[trigger] p[j]) is Send;
                assert forall|j: int| i < j < ops.len() implies (#[trigger] ops[j]) is Send by {
                    if j < last {
                        assert(ops[j] == p[j]);
                    }
                }
            } else {
                assert(ops[last] == ChannelOp::Install(w));
            }
        }
        if exists|i: int|
            0 <= i < ops.len() && ops[i] == ChannelOp::Install(w) && forall|j: int|
                i < j < ops.len() ==> (#[trigger] ops[j]) is Send {
            let i = choose|i: int|
                0 <= i < ops.len() && ops[i] == ChannelOp::Install(w) && forall|j: int|
                    i < j < ops.len() ==> (#[trigger] ops[j]) is Send;
            if i < last {
                assert(ops[last] is Send);
                assert(p[i] == ChannelOp::Install(w));
                assert forall|j: int| i < j < p.len() implies (#[trigger] p[j]) is Send by {
                    assert(ops[j] == p[j]);
                }
            }
        }
    }
}

} // verus!
