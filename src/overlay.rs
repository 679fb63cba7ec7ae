//! Messages shown on the overlay window, in arrival order.

use vstd::prelude::*;

verus! {

/// One overlay message.
pub struct OverlayMessage {
    pub id: String,
    pub content: String,
    pub timestamp: u64,
}

/// The body of an overlay request.
pub struct OverlayPayload {
    pub message: String,
}

/// The overlay messages received so far.
pub struct OverlayState {
    pub messages: Vec<OverlayMessage>,
}

/// A message seen as (id, content, timestamp).
pub open spec fn message_view(m: OverlayMessage) -> (Seq<char>, Seq<char>, u64) {
    (m.id@, m.content@, m.timestamp)
}

pub open spec fn messages_view(s: Seq<OverlayMessage>) -> Seq<(Seq<char>, Seq<char>, u64)> {
    s.map_values(|m: OverlayMessage| message_view(m))
}

impl OverlayState {
    /// No messages.
    pub fn new() -> (r: Self)
        ensures
            r.messages@.len() == 0,
    {
        OverlayState { messages: Vec::new() }
    }

    /// Appends `content`, received at `timestamp`, under the id `id`.
    pub fn push_message(&mut self, id: String, content: String, timestamp: u64)
        ensures
            final(self).messages@.len() == old(self).messages@.len() + 1,
            messages_view(final(self).messages@).drop_last() == messages_view(
                old(self).messages@,
            ),
            final(self).messages@.last().content@ == content@,
            final(self).messages@.last().timestamp == timestamp,
            final(self).messages@.last().id@ == id@,
    {
        self.messages.push(OverlayMessage { id, content, timestamp });
        assert(messages_view(self.messages@).drop_last() =~= messages_view(old(self).messages@));
    }

    /// A copy of the messages, in order.
    pub fn get_overlay_messages(&self) -> (r: Vec<OverlayMessage>)
        ensures
            messages_view(r@) == messages_view(self.messages@),
    {
        let mut r: Vec<OverlayMessage> = Vec::new();
        let mut i: usize = 0;
        while i < self.messages.len()
            invariant
                i <= self.messages@.len(),
                r@.len() == i,
                forall|j: int| 0 <= j < i ==> message_view(r@[j]) == message_view(self.messages@[j]),
            decreases self.messages@.len() - i,
        {
            let m = &self.messages[i];
            r.push(
                OverlayMessage {
                    id: m.id.clone(),
                    content: m.content.clone(),
                    timestamp: m.timestamp,
                },
            );
            i = i + 1;
        }
        assert(messages_view(r@) =~= messages_view(self.messages@));
        r
    }

    /// Drops every message.
    pub fn clear_overlay_messages(&mut self)
        ensures
            final(self).messages@.len() == 0,
    {
        self.messages.clear();
    }
}

} // verus!
