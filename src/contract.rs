use vstd::prelude::*;

use crate::error::StreamError;
use crate::lifecycle::{
    cancel_spec, cancel_step, next_id_spec, next_stream_id, top_up_spec, top_up_step,
    withdraw_spec, withdraw_step,
};
use crate::principal::Principal;
use crate::stream::{opened, view_of, Stream, StreamView};

verus! {

/// The keys of the durable store: one record per stream id, and the counter.
#[derive(Clone, Copy, Debug, PartialEq, Eq, Structural)]
pub enum DataKey {
    Stream(u64),
    StreamCounter,
}

/// The registry of streams and the operations on it. Ids are issued from 1
/// upwards and never reused: the stream with id `k` is the `k`-th one opened,
/// and records are kept after cancellation.
#[derive(Debug)]
pub struct StreamContract {
    streams: Vec<Stream>,
}

/// The record stored under `id` in the registry `reg`.
pub open spec fn lookup(reg: Seq<StreamView>, id: u64) -> Option<StreamView> {
    if 1 <= id && id <= reg.len() {
        Some(reg[id - 1])
    } else {
        None
    }
}

/// `reg` with the record under `id` replaced by `s`.
pub open spec fn store(reg: Seq<StreamView>, id: u64, s: StreamView) -> Seq<StreamView> {
    reg.update(id - 1, s)
}

impl View for StreamContract {
    type V = Seq<StreamView>;

    closed spec fn view(&self) -> Seq<StreamView> {
        self.streams@.map_values(|s: Stream| s@)
    }
}

impl StreamContract {
    /// Every record holds the record invariant.
    pub open spec fn wf(&self) -> bool {
        forall|i: int| 0 <= i < self@.len() ==> (#[trigger] self@[i]).wf()
    }

    /// An empty registry; the counter starts at zero.
    pub fn new() -> (r: StreamContract)
        ensures
            r@ == Seq::<StreamView>::empty(),
            r.wf(),
    {
        let r = StreamContract { streams: Vec::new() };
        assert(r@ =~= Seq::<StreamView>::empty());
        r
    }

    /// How many ids have been issued.
    pub fn stream_count(&self) -> (r: u64)
        ensures
            r == self@.len(),
    {
        self.streams.len() as u64
    }

    /// Opens a stream of `amount` from `sender` to `recipient` over
    /// `duration` seconds at `now` and returns its id, the one after the
    /// counter. The caller moves `amount` into escrow before it commits.
    pub fn create_stream(
        &mut self,
        sender: Principal,
        recipient: Principal,
        token_address: Principal,
        amount: i128,
        duration: u64,
        now: u64,
    ) -> (r: Result<u64, StreamError>)
        requires
            amount > 0,
            old(self).wf(),
        ensures
            final(self).wf(),
            r == next_id_spec(Some(old(self)@.len() as u64)),
            r is Ok ==> final(self)@ == old(self)@.push(
                opened(sender@, recipient@, token_address@, amount, duration, now),
            ),
            r is Err ==> final(self)@ == old(self)@,
            r matches Ok(id) ==> lookup(final(self)@, id) == Some(
                opened(sender@, recipient@, token_address@, amount, duration, now),
            ),
    {
        let id = match next_stream_id(Some(self.streams.len() as u64)) {
            Ok(id) => id,
            Err(e) => return Err(e),
        };
        let s = Stream::new(sender, recipient, token_address, amount, duration, now);
        self.streams.push(s);
        assert(self@ =~= old(self)@.push(
            opened(sender@, recipient@, token_address@, amount, duration, now),
        ));
        Ok(id)
    }

    /// A copy of the record under `stream_id`.
    fn stored(&self, stream_id: u64) -> (r: Option<Stream>)
        ensures
            view_of(r) == lookup(self@, stream_id),
    {
        let n = self.streams.len() as u64;
        if 1 <= stream_id && stream_id <= n {
            Some(self.streams[(stream_id - 1) as usize].clone())
        } else {
            None
        }
    }

    /// Replaces the record under `stream_id`.
    fn put(&mut self, stream_id: u64, s: Stream)
        requires
            1 <= stream_id <= old(self)@.len(),
        ensures
            final(self)@ == store(old(self)@, stream_id, s@),
    {
        self.streams.set((stream_id - 1) as usize, s);
        assert(self@ =~= store(old(self)@, stream_id, s@));
    }

    /// Adds `amount` to the escrow of the stream, by its sender, at `now`.
    /// The caller moves `amount` into escrow before it commits. On `Err`
    /// nothing changes.
    pub fn top_up_stream(&mut self, sender: &Principal, stream_id: u64, amount: i128, now: u64) -> (r:
        Result<(), StreamError>)
        requires
            old(self).wf(),
        ensures
            final(self).wf(),
            match top_up_spec(lookup(old(self)@, stream_id), sender@, amount, now) {
                Ok(s) => r is Ok && final(self)@ == store(old(self)@, stream_id, s),
                Err(e) => r == Err::<(), StreamError>(e) && final(self)@ == old(self)@,
            },
    {
        let stored = self.stored(stream_id);
        match top_up_step(stored, sender, amount, now) {
            Ok(s) => {
                self.put(stream_id, s);
                assert forall|i: int| 0 <= i < self@.len() implies (#[trigger] self@[i]).wf() by {
                    if i != stream_id - 1 {
                        assert(self@[i] == old(self)@[i]);
                    }
                }
                Ok(())
            },
            Err(e) => Err(e),
        }
    }

    /// Claims for the recipient what accrued on the stream by `now` and
    /// returns the amount to pay out, zero where nothing accrued. On `Err`
    /// nothing changes.
    pub fn withdraw(&mut self, recipient: &Principal, stream_id: u64, now: u64) -> (r: Result<
        i128,
        StreamError,
    >)
        requires
            old(self).wf(),
        ensures
            final(self).wf(),
            match withdraw_spec(lookup(old(self)@, stream_id), recipient@, now) {
                Ok((a, s)) => r == Ok::<i128, StreamError>(a) && final(self)@ == store(
                    old(self)@,
                    stream_id,
                    s,
                ),
                Err(e) => r == Err::<i128, StreamError>(e) && final(self)@ == old(self)@,
            },
    {
        let stored = self.stored(stream_id);
        match withdraw_step(stored, recipient, now) {
            Ok(c) => {
                let amount = c.amount;
                self.put(stream_id, c.stream);
                assert forall|i: int| 0 <= i < self@.len() implies (#[trigger] self@[i]).wf() by {
                    if i != stream_id - 1 {
                        assert(self@[i] == old(self)@[i]);
                    }
                }
                Ok(amount)
            },
            Err(e) => Err(e),
        }
    }

    /// Cancels the stream, by its sender, at `now`: accrual stops there. An
    /// unknown id or another caller changes nothing.
    pub fn cancel_stream(&mut self, sender: &Principal, stream_id: u64, now: u64)
        requires
            old(self).wf(),
        ensures
            final(self).wf(),
            match cancel_spec(lookup(old(self)@, stream_id), sender@, now) {
                Some(s) => final(self)@ == store(old(self)@, stream_id, s),
                None => final(self)@ == old(self)@,
            },
    {
        let stored = self.stored(stream_id);
        match cancel_step(stored, sender, now) {
            Some(s) => {
                self.put(stream_id, s);
                assert forall|i: int| 0 <= i < self@.len() implies (#[trigger] self@[i]).wf() by {
                    if i != stream_id - 1 {
                        assert(self@[i] == old(self)@[i]);
                    }
                }
            },
            None => {},
        }
    }

    /// The record under `stream_id`, if one was ever opened there.
    pub fn get_stream(&self, stream_id: u64) -> (r: Option<Stream>)
        ensures
            view_of(r) == lookup(self@, stream_id),
    {
        self.stored(stream_id)
    }
}

} // verus!
