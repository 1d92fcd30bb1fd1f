//! Non-blocking telemetry transmit channel.
//!
//! One transmit buffer, at most one transfer in flight. `send` is total and
//! does constant work: from the ready state it serializes the frame and starts
//! the transfer; while a transfer is in flight it first polls for completion
//! (a check, never a wait) and either reclaims the buffer and sends the new
//! frame, or drops the new frame whole. The in-flight payload is never
//! touched: backpressure is "newest dropped, in-flight preserved".

use vstd::prelude::*;

verus! {

/// Capacity of the transmit buffer.
pub const TX_BUFFER_SIZE: usize = 256;

/// Whether a transfer is believed to be in flight.
#[derive(Clone, Copy, PartialEq, Eq, Structural, Debug)]
pub enum TransferState {
    /// The buffer belongs to the channel; a frame can go out at once.
    Ready,
    /// The buffer belongs to the transfer engine until it reports done.
    MaybeBusy,
}

/// What one `send` did with its frame.
#[derive(Clone, Copy, PartialEq, Eq, Structural, Debug)]
pub enum SendOutcome {
    /// The frame was serialized into the buffer and a transfer was started.
    Started,
    /// A transfer was still in flight: the frame was dropped whole.
    Dropped,
}

/// Ghost image of a channel: the in-flight flag and the buffer contents.
pub ghost struct ChannelModel {
    pub busy: bool,
    pub buffer: Seq<u8>,
}

/// A frame clipped to the transmit buffer's capacity; bytes past it are
/// silently not serialized, the policy of a fixed transmit buffer.
pub open spec fn clip(frame: Seq<u8>) -> Seq<u8> {
    if frame.len() <= TX_BUFFER_SIZE as int {
        frame
    } else {
        frame.take(TX_BUFFER_SIZE as int)
    }
}

/// One send on the model. `done` is what polling the transfer engine would
/// report at this instant; it is meaningless in the ready state.
pub open spec fn spec_send(m: ChannelModel, frame: Seq<u8>, done: bool) -> (ChannelModel,
    SendOutcome) {
    if !m.busy {
        (ChannelModel { busy: true, buffer: clip(frame) }, SendOutcome::Started)
    } else if done {
        // Reclaim the buffer, clear it, and retry the same frame: the
        // triggering frame is still delivered after a completed transfer.
        (ChannelModel { busy: true, buffer: clip(frame) }, SendOutcome::Started)
    } else {
        (m, SendOutcome::Dropped)
    }
}

/// The transmit resource: the single buffer and the state of the one
/// possible transfer.
pub struct Channel {
    state: TransferState,
    buffer: Vec<u8>,
}

impl View for Channel {
    type V = ChannelModel;

    closed spec fn view(&self) -> ChannelModel {
        ChannelModel { busy: self.state is MaybeBusy, buffer: self.buffer@ }
    }
}

/// Make the transmit channel around its (single) buffer.
pub fn channel() -> (c: Channel)
    ensures
        c@ == (ChannelModel { busy: false, buffer: Seq::<u8>::empty() }),
{
    Channel::create()
}

impl Channel {
    /// A ready channel with an empty buffer.
    pub fn create() -> (c: Channel)
        ensures
            c@ == (ChannelModel { busy: false, buffer: Seq::<u8>::empty() }),
    {
        Channel { state: TransferState::Ready, buffer: Vec::new() }
    }

    /// Overwrite the buffer with the frame, clipped to capacity.
    #[verifier::loop_isolation(false)]
    fn fill(&mut self, frame: &[u8])
        ensures
            final(self).buffer@ == clip(frame@),
            final(self).state == old(self).state,
    {
        self.buffer.clear();
        let n = if frame.len() <= TX_BUFFER_SIZE {
            frame.len()
        } else {
            TX_BUFFER_SIZE
        };
        let mut i: usize = 0;
        while i < n
            invariant
                i <= n,
                n <= frame@.len(),
                self.buffer@ =~= frame@.take(i as int),
                self.state == old(self).state,
            decreases n - i,
        {
            self.buffer.push(frame[i]);
            proof {
                assert(self.buffer@ =~= frame@.take(i + 1));
            }
            i = i + 1;
        }
        proof {
            assert(self.buffer@ =~= clip(frame@));
        }
    }

    /// The bytes the transfer engine reads: the serialized frame most
    /// recently accepted.
    pub fn payload(&self) -> (r: &Vec<u8>)
        ensures
            r@ == self@.buffer,
    {
        &self.buffer
    }

    /// Whether a transfer may be in flight.
    pub fn is_busy(&self) -> (b: bool)
        ensures
            b == self@.busy,
    {
        match self.state {
            TransferState::MaybeBusy => true,
            TransferState::Ready => false,
        }
    }

    /// Try to send one frame; never blocks. `transfer_done` is the polled
    /// completion state of the in-flight transfer, if there is one. The
    /// caller that owns the transfer engine starts a transfer of the buffer
    /// contents exactly when `Started` comes back.
    pub fn send(self, frame: &[u8], transfer_done: bool) -> (r: (Channel, SendOutcome))
        ensures
            (r.0@, r.1) == spec_send(self@, frame@, transfer_done),
    {
        let mut this = self;
        match this.state {
            TransferState::Ready => {
                this.fill(frame);
                this.state = TransferState::MaybeBusy;
                (this, SendOutcome::Started)
            },
            TransferState::MaybeBusy => {
                if transfer_done {
                    // The transfer engine is finished with the buffer:
                    // reclaim it, clear it, and deliver the pending frame.
                    this.buffer.clear();
                    this.fill(frame);
                    this.state = TransferState::MaybeBusy;
                    (this, SendOutcome::Started)
                } else {
                    (this, SendOutcome::Dropped)
                }
            },
        }
    }
}

/// Non-blocking law: a send is one case split, never a wait. From every
/// state and for every polled value it either starts the transfer of its
/// own frame at once — exactly when the channel is free or the in-flight
/// transfer reports done — or drops the frame at once and changes nothing.
/// There is no waiting state and no retry beyond the single reclaim: the
/// executable `send` polls the done flag at most once and fills the buffer
/// at most once.
pub proof fn lemma_send_never_blocks(m: ChannelModel, frame: Seq<u8>, done: bool)
    ensures
        ({
            let (m2, o) = spec_send(m, frame, done);
            &&& (o == SendOutcome::Started <==> (!m.busy || done))
            &&& (o == SendOutcome::Started ==> m2 == (ChannelModel {
                busy: true,
                buffer: clip(frame),
            }))
            &&& (o == SendOutcome::Dropped ==> m2 == m)
        }),
{
}

/// Backpressure law: from the ready state, a first send always starts the
/// transfer of exactly its own frame (clipped to the buffer), and a second
/// send before the transfer reports done is dropped whole and leaves the
/// in-flight payload untouched.
pub proof fn lemma_send_preserves_inflight(m: ChannelModel, f1: Seq<u8>, f2: Seq<u8>)
    requires
        !m.busy,
    ensures
        ({
            let (m1, o1) = spec_send(m, f1, false);
            let (m2, o2) = spec_send(m1, f2, false);
            o1 == SendOutcome::Started && m1.buffer == clip(f1) && o2 == SendOutcome::Dropped && m2
                == m1
        }),
{
}

} // verus!
