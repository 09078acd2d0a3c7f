//! What the message relay remembers between runs.

use vstd::prelude::*;

verus! {

/// The chat that replies go to.
#[derive(Clone, Copy, Debug, PartialEq, Eq, Structural)]
pub struct TelegramContext {
    /// The chat of the latest message received, if any was.
    pub chat_id: Option<u32>,
}

impl TelegramContext {
    /// A context that knows no chat yet.
    pub fn new() -> (context: TelegramContext)
        ensures
            context.chat_id is None,
    {
        TelegramContext { chat_id: None }
    }

    /// Makes `new_id` the active chat, and says whether that changed the
    /// context, so that it has to be saved.
    pub fn update_chat_id(&mut self, new_id: u32) -> (update: bool)
        ensures
            final(self).chat_id == Some(new_id),
            update == (old(self).chat_id != Some(new_id)),
    {
        let update = match self.chat_id {
            Some(chat_id) => chat_id != new_id,
            None => true,
        };
        if update {
            self.chat_id = Some(new_id);
        }
        update
    }
}

/// A message that the chat service handed over.
#[derive(Debug)]
pub struct Update {
    /// The number that the service gave the update; later updates have
    /// larger ones.
    pub update_id: u32,
    /// The chat that the message came from.
    pub chat_id: u32,
    /// The text of the message.
    pub text: String,
}

/// What the relay does after a batch of updates.
#[derive(Clone, Copy, Debug, PartialEq, Eq, Structural)]
pub struct RelayStep {
    /// The update number to ask for next.
    pub offset: u32,
    /// Whether the context changed, so that it has to be saved.
    pub save: bool,
}

/// Whether `at` is the place of the latest update of a batch: the one with
/// the largest number, and the last of those where several share it.
pub open spec fn is_latest(updates: Seq<Update>, at: int) -> bool {
    &&& 0 <= at < updates.len()
    &&& forall|k: int| 0 <= k < at ==> (#[trigger] updates[k]).update_id <= updates[at].update_id
    &&& forall|k: int|
        at < k < updates.len() ==> (#[trigger] updates[k]).update_id < updates[at].update_id
}

/// The update number to ask for after the update numbered `id`.
pub open spec fn offset_after(id: u32) -> u32 {
    if id < u32::MAX {
        (id + 1) as u32
    } else {
        u32::MAX
    }
}

/// Finds the latest update of a batch, if the batch has any.
pub fn latest_update(updates: &Vec<Update>) -> (at: Option<usize>)
    ensures
        match at {
            Some(i) => is_latest(updates@, i as int),
            None => updates.len() == 0,
        },
{
    if updates.len() == 0 {
        return None;
    }
    let mut at: usize = 0;
    let mut i: usize = 1;
    while i < updates.len()
        invariant
            1 <= i <= updates.len(),
            at < i,
            forall|k: int|
                0 <= k < at ==> (#[trigger] updates@[k]).update_id <= updates@[at as int].update_id,
            forall|k: int|
                at < k < i ==> (#[trigger] updates@[k]).update_id < updates@[at as int].update_id,
        decreases updates.len() - i,
    {
        if updates[i].update_id >= updates[at].update_id {
            at = i;
        }
        i += 1;
    }
    Some(at)
}

/// Takes a batch of updates in: the chat of the latest becomes the active
/// chat, and the next batch is asked for from the update after it. An
/// empty batch changes nothing.
pub fn relay_step(context: &mut TelegramContext, offset: u32, updates: &Vec<Update>) -> (step:
    RelayStep)
    ensures
        updates.len() == 0 ==> step.offset == offset && !step.save && *final(context) == *old(
            context,
        ),
        updates.len() > 0 ==> exists|at: int|
            {
                &&& is_latest(updates@, at)
                &&& step.offset == offset_after(#[trigger] updates@[at].update_id)
                &&& final(context).chat_id == Some(updates@[at].chat_id)
                &&& step.save == (old(context).chat_id != Some(updates@[at].chat_id))
            },
{
    match latest_update(updates) {
        Some(at) => {
            let id = updates[at].update_id;
            let next = if id < u32::MAX {
                id + 1
            } else {
                u32::MAX
            };
            let save = context.update_chat_id(updates[at].chat_id);
            RelayStep { offset: next, save }
        },
        None => RelayStep { offset, save: false },
    }
}

/// A batch has one latest update at most.
pub proof fn lemma_latest_unique(updates: Seq<Update>, a: int, b: int)
    requires
        is_latest(updates, a),
        is_latest(updates, b),
    ensures
        a == b,
{
    if a < b {
        assert(updates[b].update_id < updates[a].update_id);
        assert(updates[a].update_id <= updates[b].update_id);
    } else if b < a {
        assert(updates[a].update_id < updates[b].update_id);
        assert(updates[b].update_id <= updates[a].update_id);
    }
}

} // verus!
