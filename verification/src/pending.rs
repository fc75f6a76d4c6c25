use vstd::prelude::*;

use bevy::platform::collections::HashMap;

use crate::actions::AnswerSender;

verus! {

#[verifier::external_type_specification]
#[verifier::external_body]
#[verifier::reject_recursive_types(K)]
#[verifier::reject_recursive_types(V)]
#[verifier::reject_recursive_types(S)]
pub struct ExBevyHashMap<K, V, S>(bevy::platform::collections::HashMap<K, V, S>);

#[verifier::external_type_specification]
#[verifier::external_body]
pub struct ExFixedHasher(bevy::platform::hash::FixedHasher);

/// Senders waiting for answers, by echo.
pub type WaitingSenders = HashMap<String, AnswerSender>;

/// What a map of waiting senders holds: for each echo, the channel of the sender kept
/// under it.
pub uninterp spec fn waiting_channels(map: WaitingSenders) -> Map<Seq<char>, int>;

/// An empty map: `bevy::platform::collections::HashMap::new`.
#[verifier::external_body]
fn empty_waiting() -> (waiting: WaitingSenders)
    ensures
        waiting_channels(waiting).dom() == Set::<Seq<char>>::empty(),
{
    HashMap::new()
}

/// `HashMap::insert`: keeps `sender` under `echo`, dropping a sender that was kept under
/// the same echo.
#[verifier::external_body]
fn waiting_insert(map: &mut WaitingSenders, echo: String, sender: AnswerSender)
    ensures
        waiting_channels(*final(map)) == waiting_channels(*old(map)).insert(echo@, sender.channel()),
{
    map.insert(echo, sender);
}

/// `HashMap::remove`: takes out the sender kept under `echo`, if there is one.
#[verifier::external_body]
fn waiting_remove(map: &mut WaitingSenders, echo: &String) -> (removed: Option<
    AnswerSender,
>)
    ensures
        waiting_channels(*old(map)).contains_key(echo@) ==> (removed matches Some(sender)
            && sender.channel() == waiting_channels(*old(map))[echo@]),
        !waiting_channels(*old(map)).contains_key(echo@) ==> removed is None,
        waiting_channels(*final(map)) == waiting_channels(*old(map)).remove(echo@),
{
    map.remove(echo)
}

/// `HashMap::contains_key`: whether a sender is kept under `echo`.
#[verifier::external_body]
fn waiting_contains(map: &WaitingSenders, echo: &String) -> (found: bool)
    ensures
        found == waiting_channels(*map).contains_key(echo@),
{
    map.contains_key(echo)
}

/// Requests sent to NapCat and not answered yet: the sender through which each answer
/// returns, kept under the `echo` of its request.
pub struct PendingActions {
    waiting: WaitingSenders,
}

impl View for PendingActions {
    type V = Map<Seq<char>, int>;

    /// For each pending echo, the channel its answer goes to.
    closed spec fn view(&self) -> Map<Seq<char>, int> {
        waiting_channels(self.waiting)
    }
}

impl PendingActions {
    /// A registry with nothing pending.
    pub fn new() -> (pending: Self)
        ensures
            pending@ == Map::<Seq<char>, int>::empty(),
    {
        let pending = PendingActions { waiting: empty_waiting() };
        assert(pending@ =~= Map::<Seq<char>, int>::empty());
        pending
    }

    /// Whether a request with this echo is waiting for its answer.
    pub fn contains(&self, echo: &String) -> (pending: bool)
        ensures
            pending == self@.contains_key(echo@),
    {
        waiting_contains(&self.waiting, echo)
    }

    /// Keeps `sender` as the way back for the answer with this echo; a sender that was
    /// kept under the same echo is dropped.
    pub fn insert(&mut self, echo: String, sender: AnswerSender)
        ensures
            final(self)@ == old(self)@.insert(echo@, sender.channel()),
    {
        waiting_insert(&mut self.waiting, echo, sender);
    }

    /// Takes out the sender kept for the answer with this echo, if there is one.
    pub fn remove(&mut self, echo: &String) -> (sender: Option<AnswerSender>)
        ensures
            old(self)@.contains_key(echo@) ==> (sender matches Some(s) && s.channel()
                == old(self)@[echo@]),
            !old(self)@.contains_key(echo@) ==> sender is None,
            final(self)@ == old(self)@.remove(echo@),
    {
        waiting_remove(&mut self.waiting, echo)
    }
}

} // verus!
