use vstd::prelude::*;
use crate::state::{calculate_new_state, merge, same_state, OnOff, State, StateSet, MIN_MIREDS};

verus! {

/// The three topics of the entity: snapshots, commands and the retained state.
#[derive(Clone, Debug)]
pub struct Topics {
    pub get: String,
    pub set: String,
    pub state: String,
}

/// What an inbound topic is for.
#[derive(PartialEq, Eq, Structural, Clone, Copy, Debug)]
pub enum TopicKind {
    Get,
    Command,
    Retained,
}

pub open spec fn topic_kind(topics: Topics, topic: Seq<char>) -> Option<TopicKind> {
    if topic == topics.get@ {
        Some(TopicKind::Get)
    } else if topic == topics.set@ {
        Some(TopicKind::Command)
    } else if topic == topics.state@ {
        Some(TopicKind::Retained)
    } else {
        None
    }
}

/// Tells which of the entity's topics `topic` is; `None` for any other topic,
/// which the loop must treat as fatal.
pub fn classify_topic(topics: &Topics, topic: &String) -> (r: Option<TopicKind>)
    ensures
        r == topic_kind(*topics, topic@),
{
    if *topic == topics.get {
        Some(TopicKind::Get)
    } else if *topic == topics.set {
        Some(TopicKind::Command)
    } else if *topic == topics.state {
        Some(TopicKind::Retained)
    } else {
        None
    }
}

/// The running state of the reconciliation loop.
#[derive(Clone, Debug)]
pub struct LoopState {
    pub state: State,
    /// Whether the retained state has been taken over already.
    pub loaded_state: bool,
}

/// One inbound event, already decoded.
#[derive(Clone, Debug)]
pub enum Event {
    /// A message on the get topic: nothing changes.
    Get,
    /// A command from the set topic.
    Command(StateSet),
    /// A state from the retained state topic.
    Restore(State),
    /// Transport traffic other than a publish: nothing changes.
    Transport,
}

/// The restore latch: the first retained state is adopted, all later ones are ignored.
pub open spec fn offer(ls: LoopState, candidate: State) -> LoopState {
    if ls.loaded_state {
        ls
    } else {
        LoopState { state: candidate, loaded_state: true }
    }
}

/// The loop state after event `ev`.
pub open spec fn next_loop(ls: LoopState, ev: Event) -> LoopState {
    match ev {
        Event::Get => ls,
        Event::Command(c) => LoopState { state: merge(c, ls.state), loaded_state: ls.loaded_state },
        Event::Restore(s) => offer(ls, s),
        Event::Transport => ls,
    }
}

/// Whether event `ev` changes the canonical state, so that it is published
/// and applied.
pub open spec fn publishes(ls: LoopState, ev: Event) -> bool {
    !same_state(next_loop(ls, ev).state, ls.state)
}

/// Presents each state of `cs` to the restore latch, first to last.
pub open spec fn offer_all(ls: LoopState, cs: Seq<State>) -> LoopState
    decreases cs.len(),
{
    if cs.len() == 0 {
        ls
    } else {
        offer_all(offer(ls, cs[0]), cs.subrange(1, cs.len() as int))
    }
}

/// The loop state before any event: powered off, with a brightness that no
/// real state carries, and no retained state taken over yet.
pub fn initial_loop_state() -> (r: LoopState)
    ensures
        !r.loaded_state,
        r.state.state == OnOff::Off,
        r.state.brightness == u32::MAX,
        r.state.color_mode@ == "color_temp"@,
        r.state.color_temp == MIN_MIREDS,
        r.state.linkquality == 255,
        !r.state.update_available,
{
    LoopState {
        state: State {
            brightness: u32::MAX,
            color_mode: "color_temp".to_owned(),
            color_temp: MIN_MIREDS,
            linkquality: 255,
            state: OnOff::Off,
            update_available: false,
        },
        loaded_state: false,
    }
}

/// The snapshot announced on the get topic at startup.
pub fn startup_snapshot() -> (r: State)
    ensures
        r.state == OnOff::On,
        r.brightness == 0,
        r.color_mode@ == "color_temp"@,
        r.color_temp == MIN_MIREDS,
        r.linkquality == 255,
        !r.update_available,
{
    State {
        brightness: 0,
        color_mode: "color_temp".to_owned(),
        color_temp: MIN_MIREDS,
        linkquality: 255,
        state: OnOff::On,
        update_available: false,
    }
}

/// Offers a retained state to the one-shot gate.
pub fn offer_restore(ls: LoopState, candidate: State) -> (r: LoopState)
    ensures
        r == offer(ls, candidate),
        r.loaded_state,
        !ls.loaded_state ==> r.state == candidate,
        ls.loaded_state ==> r == ls,
{
    if ls.loaded_state {
        ls
    } else {
        LoopState { state: candidate, loaded_state: true }
    }
}

/// Folds one event into the loop state. The flag says whether the canonical
/// state changed, in which case the new state is to be published and applied.
pub fn step(ls: LoopState, ev: Event) -> (r: (LoopState, bool))
    ensures
        r.0 == next_loop(ls, ev),
        r.1 == publishes(ls, ev),
{
    match ev {
        Event::Get => (ls, false),
        Event::Command(c) => {
            let state = calculate_new_state(&c, &ls.state);
            let changed = !(state == ls.state);
            (LoopState { state, loaded_state: ls.loaded_state }, changed)
        },
        Event::Restore(s) => {
            if ls.loaded_state {
                (ls, false)
            } else {
                let changed = !(s == ls.state);
                (offer_restore(ls, s), changed)
            }
        },
        Event::Transport => (ls, false),
    }
}

/// Once the restore latch has adopted a state, no further retained state changes anything.
pub proof fn lemma_gate_stays_closed(ls: LoopState, cs: Seq<State>)
    requires
        ls.loaded_state,
    ensures
        offer_all(ls, cs) == ls,
    decreases cs.len(),
{
    if cs.len() > 0 {
        lemma_gate_stays_closed(offer(ls, cs[0]), cs.subrange(1, cs.len() as int));
    }
}

/// Of any run of retained states offered to an open latch, the first is
/// adopted and the latch closes; every later one is ignored, whatever it holds.
pub proof fn lemma_gate_one_shot(ls: LoopState, cs: Seq<State>)
    requires
        !ls.loaded_state,
        cs.len() > 0,
    ensures
        offer(ls, cs[0]) == (LoopState { state: cs[0], loaded_state: true }),
        offer_all(ls, cs) == offer(ls, cs[0]),
{
    lemma_gate_stays_closed(offer(ls, cs[0]), cs.subrange(1, cs.len() as int));
}

/// When a second event leaves the state that the first produced as it is,
/// only the first is published and applied.
pub proof fn lemma_no_republish(ls: LoopState, first: Event, second: Event)
    requires
        same_state(next_loop(next_loop(ls, first), second).state, next_loop(ls, first).state),
    ensures
        !publishes(next_loop(ls, first), second),
{
}

/// The same command received twice in a row is published and applied at
/// most once.
pub proof fn lemma_repeated_command(ls: LoopState, c: StateSet)
    ensures
        !publishes(next_loop(ls, Event::Command(c)), Event::Command(c)),
{
}

/// A retained state taken over at startup is not applied a second time by a
/// command that leaves it as it is.
pub proof fn lemma_restore_then_matching_command(ls: LoopState, s: State, c: StateSet)
    requires
        !ls.loaded_state,
        same_state(merge(c, s), s),
    ensures
        next_loop(ls, Event::Restore(s)).state == s,
        next_loop(ls, Event::Restore(s)).loaded_state,
        !publishes(next_loop(ls, Event::Restore(s)), Event::Command(c)),
{
}

} // verus!
