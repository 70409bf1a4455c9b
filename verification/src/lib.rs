//! A pipeline of cooperating agents that turns a product request into
//! generated server code and checks that code by building it, running it
//! and probing its routes.
//!
//! The agents never perform input or output themselves. Each one is a state
//! machine: its host hands it an [`AgentEvent`](protocol::AgentEvent), the
//! agent updates itself and the shared [`FactSheet`](factsheet::FactSheet),
//! and answers with the [`AgentAction`](protocol::AgentAction) that the host
//! is to carry out next. The [`ManagingAgent`](manager::ManagingAgent) runs
//! the agents one after the other on one document.
//!
//! What each step does is given by a function on mathematical models of the
//! agents ([`backend_step`](backend::backend_step),
//! [`architect_step`](architect::architect_step),
//! [`manager_step`](manager::manager_step)). What holds of every run is
//! proved of these functions in the modules whose names end in `_laws`.

pub mod architect;
pub mod architect_laws;
pub mod backend;
pub mod backend_laws;
pub mod basic_agent;
pub mod command_line;
pub mod factsheet;
pub mod gateway;
pub mod manager;
pub mod manager_laws;
pub mod message;
pub mod protocol;
pub mod text;
