//! The conversations that are under way, each with what the bot expects
//! next in it. A conversation that was never heard of expects a command.

use std::collections::HashMap;
use vstd::prelude::*;
use crate::dialogue::{begins, conclude, dispatch, outcome_turn, Incoming, State, Step, Turn};
use crate::provider::Fetched;

verus! {

broadcast use vstd::std_specs::hash::group_hash_axioms;

/// The state of every conversation, by the chat's number.
pub struct Sessions {
    states: HashMap<i64, State>,
}

impl View for Sessions {
    type V = Map<i64, State>;

    /// The conversations that have a state of their own.
    closed spec fn view(&self) -> Map<i64, State> {
        self.states@
    }
}

impl Sessions {
    /// What the bot expects next in a conversation: what was last put
    /// there, and a command where nothing was.
    pub open spec fn state_of(&self, chat: i64) -> State {
        if self@.contains_key(chat) {
            self@[chat]
        } else {
            State::AwaitingCommand
        }
    }

    /// No conversation yet: each one begins expecting a command.
    pub fn new() -> (sessions: Sessions)
        ensures
            sessions@ == Map::<i64, State>::empty(),
            forall|chat: i64| sessions.state_of(chat) == State::AwaitingCommand,
    {
        Sessions { states: HashMap::new() }
    }

    /// What the bot expects next in a conversation.
    pub fn get(&self, chat: i64) -> (state: State)
        ensures
            state == self.state_of(chat),
    {
        match self.states.get(&chat) {
            Some(state) => *state,
            None => State::default(),
        }
    }

    /// Sets what the bot expects next in one conversation; the others stay
    /// as they are.
    pub fn put(&mut self, chat: i64, state: State)
        ensures
            final(self)@ == old(self)@.insert(chat, state),
            final(self).state_of(chat) == state,
            forall|other: i64| other != chat ==> final(self).state_of(other) == old(self).state_of(other),
    {
        self.states.insert(chat, state);
    }

    /// Begins a turn of one conversation with a message. Where the turn
    /// ends at once, the conversation goes to the turn's state; where a
    /// fetch is asked for, it stays in its state until `end_turn`.
    pub fn begin_turn(&mut self, chat: i64, incoming: &Incoming) -> (step: Step)
        ensures
            begins(old(self).state_of(chat), incoming@, step),
            final(self)@ == old(self)@.insert(
                chat,
                match step {
                    Step::Reply(turn) => turn.state,
                    Step::Fetch(_) => old(self).state_of(chat),
                },
            ),
    {
        let state = self.get(chat);
        let step = dispatch(state, incoming);
        match &step {
            Step::Reply(turn) => self.put(chat, turn.state),
            Step::Fetch(_) => self.put(chat, state),
        }
        step
    }

    /// Ends a turn of one conversation with what the fetch brought, and
    /// moves the conversation to the turn's state.
    pub fn end_turn(&mut self, chat: i64, outcome: Fetched) -> (turn: Turn)
        ensures
            turn@ == outcome_turn(outcome@),
            turn.messages@.len() == 1,
            final(self)@ == old(self)@.insert(chat, turn.state),
    {
        let turn = conclude(outcome);
        self.put(chat, turn.state);
        turn
    }
}

} // verus!
