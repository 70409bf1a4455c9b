//! What every agent has: an objective, a position, a memory and a place in
//! its lifecycle.

use crate::message::Message;
use vstd::prelude::*;

verus! {

/// The lifecycle of an agent. It starts in `Discovery` and ends in
/// `Finished`.
#[derive(Debug, Clone, Copy, PartialEq, Eq, Structural)]
pub enum AgentState {
    Discovery,
    Working,
    UnitTesting,
    Finished,
}

/// The attributes of an agent.
#[derive(Debug)]
pub struct BasicAgent {
    pub objective: String,
    pub position: String,
    pub state: AgentState,
    pub memory: Vec<Message>,
}

/// What can be asked of an agent's attributes.
pub trait BasicTrait: Sized {
    /// The agent's objective.
    spec fn objective_text(&self) -> Seq<char>;

    /// The agent's position.
    spec fn position_text(&self) -> Seq<char>;

    /// The agent's place in its lifecycle.
    spec fn lifecycle(&self) -> AgentState;

    /// The messages that the agent remembers, oldest first.
    spec fn remembered(&self) -> Seq<Message>;

    /// An agent at the start of its lifecycle, with nothing remembered.
    fn new(objective: String, position: String) -> (agent: Self)
        ensures
            agent.objective_text() == objective@,
            agent.position_text() == position@,
            agent.lifecycle() == AgentState::Discovery,
            agent.remembered() == Seq::<Message>::empty(),
    ;

    /// Moves the agent to `new_state` and changes nothing else.
    fn update_state(&mut self, new_state: AgentState)
        ensures
            final(self).lifecycle() == new_state,
            final(self).objective_text() == old(self).objective_text(),
            final(self).position_text() == old(self).position_text(),
            final(self).remembered() == old(self).remembered(),
    ;

    /// The agent's objective.
    fn get_objective(&self) -> (objective: &String)
        ensures
            objective@ == self.objective_text(),
    ;

    /// The agent's position.
    fn get_position(&self) -> (position: &String)
        ensures
            position@ == self.position_text(),
    ;

    /// The messages that the agent remembers, oldest first.
    fn get_memory(&self) -> (memory: &Vec<Message>)
        ensures
            memory@ == self.remembered(),
    ;
}

impl BasicTrait for BasicAgent {
    open spec fn objective_text(&self) -> Seq<char> {
        self.objective@
    }

    open spec fn position_text(&self) -> Seq<char> {
        self.position@
    }

    open spec fn lifecycle(&self) -> AgentState {
        self.state
    }

    open spec fn remembered(&self) -> Seq<Message> {
        self.memory@
    }

    fn new(objective: String, position: String) -> (agent: Self) {
        BasicAgent { objective, position, state: AgentState::Discovery, memory: Vec::new() }
    }

    fn update_state(&mut self, new_state: AgentState) {
        self.state = new_state;
    }

    fn get_objective(&self) -> (objective: &String) {
        &self.objective
    }

    fn get_position(&self) -> (position: &String) {
        &self.position
    }

    fn get_memory(&self) -> (memory: &Vec<Message>) {
        &self.memory
    }
}

} // verus!
