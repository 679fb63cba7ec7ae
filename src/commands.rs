//! The command bus: a pending map of one action per target for clients that
//! poll and acknowledge, and a fan-out channel for clients that hold a live
//! stream. Issuing a command feeds both.

use vstd::prelude::*;
use tokio::sync::broadcast::error::SendError;
use tokio::sync::broadcast::{Receiver, Sender};

verus! {

#[verifier::external_type_specification]
#[verifier::external_body]
#[verifier::reject_recursive_types(T)]
pub struct ExSender<T>(Sender<T>);

#[verifier::external_type_specification]
#[verifier::external_body]
#[verifier::reject_recursive_types(T)]
pub struct ExReceiver<T>(Receiver<T>);

#[verifier::external_type_specification]
#[verifier::external_body]
#[verifier::reject_recursive_types(T)]
pub struct ExSendError<T>(SendError<T>);

/// Relies on tokio's `broadcast::Sender::new`, which panics on a zero
/// capacity and on one above `usize::MAX >> 1`.
pub assume_specification<T>[ Sender::<T>::new ](capacity: usize) -> Sender<T>
    requires
        0 < capacity <= usize::MAX / 2,
;

/// Relies on tokio's `broadcast::Sender::send`: `Ok` carries the number of
/// receivers the value was queued for, which is never zero (with no receiver
/// the value comes back in the error).
pub assume_specification<T>[ Sender::<T>::send ](s: &Sender<T>, value: T) -> (r: Result<
    usize,
    SendError<T>,
>)
    ensures
        r is Ok ==> r->Ok_0 > 0,
;

/// The broadcast channel that a sender feeds.
pub uninterp spec fn tx_channel(s: Sender<CommandMessage>) -> int;

/// The broadcast channel that a receiver reads.
pub uninterp spec fn rx_channel(r: Receiver<CommandMessage>) -> int;

/// Relies on tokio's `broadcast::Sender::subscribe`: the new receiver shares
/// the sender's channel (it clones the sender's `shared` handle) and reads
/// what is sent on it from now on.
#[verifier::external_body]
fn subscribe_to(s: &Sender<CommandMessage>) -> (r: Receiver<CommandMessage>)
    ensures
        rx_channel(r) == tx_channel(*s),
{
    s.subscribe()
}

/// How many events the fan-out channel holds for a subscriber that lags.
pub const COMMAND_CHANNEL_CAPACITY: usize = 100;

/// The event that the live stream delivers.
#[derive(Clone, Debug)]
pub struct CommandMessage {
    pub message_type: String,
    pub agent_id: String,
    pub action: String,
}

/// The command bus.
pub struct CommandState {
    pending_commands: Vec<(String, String)>,
    command_broadcaster: Sender<CommandMessage>,
}

/// The map that a list of (target, action) pairs stands for; a later pair
/// wins over an earlier one with the same target.
pub open spec fn pairs_map(s: Seq<(String, String)>) -> Map<Seq<char>, Seq<char>>
    decreases s.len(),
{
    if s.len() == 0 {
        Map::empty()
    } else {
        pairs_map(s.drop_last()).insert(s.last().0@, s.last().1@)
    }
}

/// No two pairs share a target.
pub open spec fn keys_unique(s: Seq<(String, String)>) -> bool {
    forall|i: int, j: int| 0 <= i < j < s.len() ==> s[i].0@ != s[j].0@
}

/// The views of a list of strings, as a set.
pub open spec fn view_set(v: Seq<String>) -> Set<Seq<char>> {
    Set::new(|k: Seq<char>| exists|i: int| 0 <= i < v.len() && v[i]@ == k)
}

proof fn lemma_pairs_map_dom(s: Seq<(String, String)>, k: Seq<char>)
    ensures
        pairs_map(s).contains_key(k) <==> exists|i: int| 0 <= i < s.len() && s[i].0@ == k,
    decreases s.len(),
{
    if s.len() > 0 {
        lemma_pairs_map_dom(s.drop_last(), k);
        if pairs_map(s).contains_key(k) && k != s.last().0@ {
            let i = choose|i: int| 0 <= i < s.drop_last().len() && s.drop_last()[i].0@ == k;
            assert(s[i].0@ == k);
        }
        if exists|i: int| 0 <= i < s.len() && s[i].0@ == k {
            let i = choose|i: int| 0 <= i < s.len() && s[i].0@ == k;
            if i < s.len() - 1 {
                assert(s.drop_last()[i].0@ == k);
            }
        }
    }
}

proof fn lemma_pairs_map_remove(s: Seq<(String, String)>, i: int)
    requires
        keys_unique(s),
        0 <= i < s.len(),
    ensures
        keys_unique(s.remove(i)),
        pairs_map(s.remove(i)) == pairs_map(s).remove(s[i].0@),
    decreases s.len(),
{
    let k = s[i].0@;
    let last = s.last();
    lemma_pairs_map_dom(s.drop_last(), last.0@);
    if i == s.len() - 1 {
        assert(s.remove(i) =~= s.drop_last());
        assert(pairs_map(s.remove(i)) =~= pairs_map(s).remove(k));
    } else {
        lemma_pairs_map_remove(s.drop_last(), i);
        assert(s.remove(i) =~= s.drop_last().remove(i).push(last));
        assert(s.remove(i).drop_last() =~= s.drop_last().remove(i));
        assert(k != last.0@);
        assert(pairs_map(s.remove(i)) =~= pairs_map(s).remove(k));
    }
}

proof fn lemma_pairs_map_push(s: Seq<(String, String)>, p: (String, String))
    requires
        keys_unique(s),
        !pairs_map(s).contains_key(p.0@),
    ensures
        keys_unique(s.push(p)),
        pairs_map(s.push(p)) == pairs_map(s).insert(p.0@, p.1@),
{
    assert(s.push(p).drop_last() =~= s);
    assert forall|j: int| 0 <= j < s.len() implies s[j].0@ != p.0@ by {
        lemma_pairs_map_dom(s, p.0@);
    }
}

impl CommandState {
    /// Well-formed: one pending entry per target.
    pub closed spec fn wf(&self) -> bool {
        keys_unique(self.pending_commands@)
    }

    /// The broadcast channel that carries this bus's live events.
    pub closed spec fn channel(&self) -> int {
        tx_channel(self.command_broadcaster)
    }

    /// The pending commands, by target.
    pub closed spec fn pending_map(&self) -> Map<Seq<char>, Seq<char>> {
        pairs_map(self.pending_commands@)
    }

    /// A bus with nothing pending and no subscriber.
    pub fn new() -> (r: Self)
        ensures
            r.wf(),
            r.pending_map() == Map::<Seq<char>, Seq<char>>::empty(),
    {
        CommandState {
            pending_commands: Vec::new(),
            command_broadcaster: Sender::new(COMMAND_CHANNEL_CAPACITY),
        }
    }

    /// The position of the pending entry for `target`, if there is one.
    fn find_pending(&self, target: &String) -> (r: Option<usize>)
        requires
            self.wf(),
        ensures
            r is None ==> !self.pending_map().contains_key(target@),
            r is Some ==> r->Some_0 < self.pending_commands@.len()
                && self.pending_commands@[r->Some_0 as int].0@ == target@,
    {
        let mut i: usize = 0;
        while i < self.pending_commands.len()
            invariant
                i <= self.pending_commands@.len(),
                forall|j: int| 0 <= j < i ==> self.pending_commands@[j].0@ != target@,
            decreases self.pending_commands@.len() - i,
        {
            if self.pending_commands[i].0 == *target {
                return Some(i);
            }
            i = i + 1;
        }
        proof {
            lemma_pairs_map_dom(self.pending_commands@, target@);
        }
        None
    }

    /// Records `action` as the pending command for `target`, replacing an
    /// older one, and publishes it to every live subscriber.
    pub fn issue(&mut self, target: String, action: String)
        requires
            old(self).wf(),
        ensures
            final(self).wf(),
            final(self).pending_map() == old(self).pending_map().insert(target@, action@),
            final(self).channel() == old(self).channel(),
    {
        match self.find_pending(&target) {
            Some(i) => {
                proof {
                    lemma_pairs_map_remove(self.pending_commands@, i as int);
                }
                self.pending_commands.remove(i);
            },
            None => {},
        }
        let ghost before = self.pending_commands@;
        proof {
            lemma_pairs_map_dom(before, target@);
            lemma_pairs_map_push(before, (target, action));
        }
        let t = target.clone();
        let a = action.clone();
        self.pending_commands.push((target, action));
        assert(self.pending_map() =~= old(self).pending_map().insert(t@, a@));
        broadcast_command(self, t, a);
    }

    /// The pending commands, one (target, action) pair per target.
    pub fn list_pending(&self) -> (r: Vec<(String, String)>)
        requires
            self.wf(),
        ensures
            keys_unique(r@),
            pairs_map(r@) == self.pending_map(),
    {
        let mut r: Vec<(String, String)> = Vec::new();
        let mut i: usize = 0;
        while i < self.pending_commands.len()
            invariant
                i <= self.pending_commands@.len(),
                keys_unique(self.pending_commands@),
                r@.len() == i,
                forall|j: int| 0 <= j < i ==> r@[j].0@ == self.pending_commands@[j].0@
                    && r@[j].1@ == self.pending_commands@[j].1@,
                pairs_map(r@) == pairs_map(self.pending_commands@.subrange(0, i as int)),
            decreases self.pending_commands@.len() - i,
        {
            let k = self.pending_commands[i].0.clone();
            let v = self.pending_commands[i].1.clone();
            let ghost prev = r@;
            r.push((k, v));
            proof {
                let s = self.pending_commands@;
                assert(r@.drop_last() =~= prev);
                assert(s.subrange(0, i + 1).drop_last() =~= s.subrange(0, i as int));
            }
            i = i + 1;
        }
        proof {
            assert(self.pending_commands@.subrange(0, i as int) =~= self.pending_commands@);
        }
        r
    }

    /// Removes the pending entries of the given targets; a target with no
    /// entry is passed over.
    pub fn acknowledge(&mut self, targets: &Vec<String>)
        requires
            old(self).wf(),
        ensures
            final(self).wf(),
            final(self).pending_map() == old(self).pending_map().remove_keys(view_set(targets@)),
            final(self).channel() == old(self).channel(),
    {
        let mut t: usize = 0;
        while t < targets.len()
            invariant
                t <= targets@.len(),
                self.wf(),
                self.channel() == old(self).channel(),
                self.pending_map() == old(self).pending_map().remove_keys(
                    view_set(targets@.subrange(0, t as int)),
                ),
            decreases targets@.len() - t,
        {
            let ghost before = self.pending_map();
            match self.find_pending(&targets[t]) {
                Some(i) => {
                    proof {
                        lemma_pairs_map_remove(self.pending_commands@, i as int);
                    }
                    self.pending_commands.remove(i);
                },
                None => {},
            }
            assert(self.pending_map() =~= before.remove(targets@[t as int]@));
            assert(view_set(targets@.subrange(0, t + 1)) =~= view_set(
                targets@.subrange(0, t as int),
            ).insert(targets@[t as int]@)) by {
                let a = targets@.subrange(0, t + 1);
                let b = targets@.subrange(0, t as int);
                assert forall|k: Seq<char>| view_set(a).contains(k) implies view_set(b).insert(
                    targets@[t as int]@,
                ).contains(k) by {
                    let j = choose|j: int| 0 <= j < a.len() && a[j]@ == k;
                    if j < t {
                        assert(b[j]@ == k);
                    }
                }
                assert forall|k: Seq<char>| view_set(b).insert(targets@[t as int]@).contains(
                    k,
                ) implies view_set(a).contains(k) by {
                    if k == targets@[t as int]@ {
                        assert(a[t as int]@ == k);
                    } else {
                        let j = choose|j: int| 0 <= j < b.len() && b[j]@ == k;
                        assert(a[j]@ == k);
                    }
                }
            }
            assert(self.pending_map() =~= old(self).pending_map().remove_keys(
                view_set(targets@.subrange(0, t + 1)),
            ));
            t = t + 1;
        }
        assert(targets@.subrange(0, t as int) =~= targets@);
    }

    /// A receiver on this bus's channel: it gets every command issued from
    /// now on.
    pub fn subscribe(&self) -> (r: Receiver<CommandMessage>)
        ensures
            rx_channel(r) == self.channel(),
    {
        subscribe_to(&self.command_broadcaster)
    }
}

/// The pull path's answer: the pending (target, action) pairs.
pub struct CommandsResponse {
    pub commands: Vec<(String, String)>,
}

/// The pull path's acknowledgment: the targets whose commands are done.
pub struct CommandsRequest {
    pub completed: Vec<String>,
}

/// The pending commands as the pull path reports them.
pub fn get_commands(command_state: &CommandState) -> (r: CommandsResponse)
    requires
        command_state.wf(),
    ensures
        keys_unique(r.commands@),
        pairs_map(r.commands@) == command_state.pending_map(),
{
    CommandsResponse { commands: command_state.list_pending() }
}

/// Acknowledges the targets that a poller reports as done.
pub fn post_commands(command_state: &mut CommandState, request: &CommandsRequest)
    requires
        old(command_state).wf(),
    ensures
        final(command_state).wf(),
        final(command_state).pending_map() == old(command_state).pending_map().remove_keys(
            view_set(request.completed@),
        ),
        final(command_state).channel() == old(command_state).channel(),
{
    command_state.acknowledge(&request.completed);
}

/// The live-stream event for `action` on `agent_id`.
pub fn command_message(agent_id: String, action: String) -> (r: CommandMessage)
    ensures
        r.message_type@ == "command"@,
        r.agent_id == agent_id,
        r.action == action,
{
    CommandMessage { message_type: String::from_str("command"), agent_id, action }
}

/// Publishes `action` on `agent_id` to the live subscribers and returns how
/// many it was queued for; with none attached it is dropped and the result
/// is zero.
pub fn broadcast_command(command_state: &CommandState, agent_id: String, action: String) -> (r:
    usize) {
    let msg = command_message(agent_id, action);
    match command_state.command_broadcaster.send(msg) {
        Ok(n) => n,
        Err(_) => 0,
    }
}

/// Issues a toggle of `agent_id`: pending for pollers and pushed to
/// subscribers.

pub fn add_toggle_command(command_state: &mut CommandState, agent_id: String)
    requires
        old(command_state).wf(),
    ensures
        final(command_state).wf(),
        final(command_state).pending_map() == old(command_state).pending_map().insert(
            agent_id@,
            "toggle"@,
        ),
        final(command_state).channel() == old(command_state).channel(),
{
    command_state.issue(agent_id, String::from_str("toggle"));
}

/// Issuing a command leaves it pending for its target; acknowledging that
/// target afterwards leaves nothing pending for it.
pub proof fn lemma_issue_then_acknowledge(
    pending: Map<Seq<char>, Seq<char>>,
    target: String,
    action: String,
)
    ensures
        pending.insert(target@, action@).contains_key(target@),
        pending.insert(target@, action@)[target@] == action@,
        !pending.insert(target@, action@).remove_keys(view_set(seq![target])).contains_key(
            target@,
        ),
{
    assert(view_set(seq![target]).contains(target@)) by {
        assert(seq![target][0]@ == target@);
    }
}

} // verus!
