//! A store of messages through which subsystems that know nothing of each
//! other can be wired together: messages are kept by category, in the order
//! in which they were sent, and handed out by kind.
//!
//! The store does not look inside a message. The sender tags each message
//! with a number that stands for its kind, and a receiver asks for one kind.

use vstd::prelude::*;

verus! {

/// The categories under which messages are kept.
#[derive(Clone, Copy, Debug, PartialEq, Eq, Hash, Structural)]
pub enum MessageID {
    Electrical,
    Hydraulic,
}

/// The messages of kind `kind` among `messages`, in their order.
pub open spec fn of_kind<M>(messages: Seq<(u64, M)>, kind: u64) -> Seq<M>
    decreases messages.len(),
{
    if messages.len() == 0 {
        Seq::empty()
    } else if messages.last().0 == kind {
        of_kind(messages.drop_last(), kind).push(messages.last().1)
    } else {
        of_kind(messages.drop_last(), kind)
    }
}

/// The store as plain values: under each category, the messages sent so far
/// with their kinds, oldest first.
pub struct StoreState<M> {
    pub electrical: Seq<(u64, M)>,
    pub hydraulic: Seq<(u64, M)>,
}

impl<M> StoreState<M> {
    /// The messages kept under `id`.
    pub open spec fn under(self, id: MessageID) -> Seq<(u64, M)> {
        match id {
            MessageID::Electrical => self.electrical,
            MessageID::Hydraulic => self.hydraulic,
        }
    }

    /// The store after a message of kind `kind` has been sent under `id`.
    pub open spec fn with_message(self, id: MessageID, kind: u64, message: M) -> StoreState<M> {
        match id {
            MessageID::Electrical => StoreState {
                electrical: self.electrical.push((kind, message)),
                ..self
            },
            MessageID::Hydraulic => StoreState {
                hydraulic: self.hydraulic.push((kind, message)),
                ..self
            },
        }
    }
}

/// A store of messages.
pub struct CommunicationBus<M> {
    electrical: Vec<(u64, M)>,
    hydraulic: Vec<(u64, M)>,
}

impl<M> View for CommunicationBus<M> {
    type V = StoreState<M>;

    closed spec fn view(&self) -> StoreState<M> {
        StoreState { electrical: self.electrical@, hydraulic: self.hydraulic@ }
    }
}

/// What a list of borrowed messages holds.
pub open spec fn borrowed<M>(list: Seq<&M>) -> Seq<M> {
    Seq::new(list.len(), |k: int| *list[k])
}

impl<M> CommunicationBus<M> {
    /// A store without messages.
    pub fn new() -> (made: Self)
        ensures
            made@ == (StoreState::<M> { electrical: Seq::empty(), hydraulic: Seq::empty() }),
    {
        Self { electrical: Vec::new(), hydraulic: Vec::new() }
    }

    /// Keep `message`, which is of kind `kind`, under `id`, after all that is
    /// kept there already.
    pub fn send(&mut self, id: MessageID, kind: u64, message: M)
        ensures
            final(self)@ == old(self)@.with_message(id, kind, message),
    {
        match id {
            MessageID::Electrical => {
                self.electrical.push((kind, message));
            },
            MessageID::Hydraulic => {
                self.hydraulic.push((kind, message));
            },
        }
    }

    /// Every message of kind `kind` kept under `id`, oldest first. Messages of
    /// other kinds are passed over, and the store stays as it is.
    pub fn receive(&self, id: MessageID, kind: u64) -> (found: Vec<&M>)
        ensures
            borrowed(found@) == of_kind(self@.under(id), kind),
    {
        let messages: &Vec<(u64, M)> = match id {
            MessageID::Electrical => &self.electrical,
            MessageID::Hydraulic => &self.hydraulic,
        };
        let mut found: Vec<&M> = Vec::new();
        let mut k: usize = 0;
        while k < messages.len()
            invariant
                k <= messages.len(),
                borrowed(found@) == of_kind(messages@.take(k as int), kind),
            decreases messages.len() - k,
        {
            let ghost before = borrowed(found@);
            proof {
                let taken = messages@.take(k + 1);
                assert(taken.drop_last() =~= messages@.take(k as int));
                assert(taken.last() == messages@[k as int]);
            }
            if messages[k].0 == kind {
                found.push(&messages[k].1);
                proof {
                    assert(borrowed(found@) =~= before.push(messages@[k as int].1));
                }
            }
            k += 1;
        }
        proof {
            assert(messages@.take(messages.len() as int) =~= messages@);
        }
        found
    }
}

/// A message can be received once it has been sent: what is received of a
/// kind under a category, after a message of that kind has been sent there,
/// is what was received before with the new message at the end. What is
/// received of another kind, or under another category, stays as it was.
pub proof fn lemma_sent_message_is_received<M>(
    store: StoreState<M>,
    id: MessageID,
    kind: u64,
    message: M,
    other_id: MessageID,
    other_kind: u64,
)
    ensures
        of_kind(store.with_message(id, kind, message).under(id), kind) == of_kind(
            store.under(id),
            kind,
        ).push(message),
        other_kind != kind ==> of_kind(store.with_message(id, kind, message).under(id), other_kind)
            == of_kind(store.under(id), other_kind),
        other_id != id ==> store.with_message(id, kind, message).under(other_id) == store.under(
            other_id,
        ),
{
    let before = store.under(id);
    let after = store.with_message(id, kind, message).under(id);
    assert(after == before.push((kind, message)));
    assert(after.drop_last() =~= before);
}

} // verus!
