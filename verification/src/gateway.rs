//! The rules of an exchange with the gateway: what is sent with a request,
//! how often a request is tried, and which answer is taken.

use crate::text::opt_text;
use vstd::prelude::*;
use vstd::string::*;

verus! {

/// How often a request is sent at most: once, and once more if the first
/// attempt failed.
pub const GATEWAY_ATTEMPTS: u8 = 2;

/// The value of the header that authorises a request with `api_key`.
pub open spec fn authorization_of(api_key: Seq<char>) -> Seq<char> {
    "Bearer "@ + api_key
}

/// The value of the header that authorises a request with `api_key`.
pub fn authorization_header(api_key: &str) -> (value: String)
    ensures
        value@ == authorization_of(api_key@),
{
    let mut value = String::from_str("Bearer ");
    value.append(api_key);
    value
}

/// The answer that is taken from the choices that the gateway offers: the
/// first one.
pub open spec fn chosen_reply(choices: Seq<Seq<char>>) -> Option<Seq<char>> {
    if choices.len() > 0 {
        Some(choices[0])
    } else {
        None
    }
}

/// Takes the gateway's answer from the choices that it offers: the first
/// one, or nothing where it offers none.
pub fn first_choice(choices: &Vec<String>) -> (reply: Option<String>)
    ensures
        opt_text(reply) == chosen_reply(choices.deep_view()),
{
    if choices.len() > 0 {
        assert(choices.deep_view()[0] == choices[0]@);
        Some(choices[0].clone())
    } else {
        None
    }
}

/// What is done with the outcome of one attempt.
#[derive(Debug, Clone, PartialEq)]
pub enum GatewayDecision {
    /// The gateway answered: this is its answer.
    Deliver(String),
    /// The attempt failed: the request is sent once more.
    Retry,
    /// The attempt failed, and so did the one before: the failure stands.
    GiveUp,
}

/// The mathematical model of a [`GatewayDecision`].
pub enum GatewayDecisionView {
    Deliver(Seq<char>),
    Retry,
    GiveUp,
}

impl View for GatewayDecision {
    type V = GatewayDecisionView;

    open spec fn view(&self) -> GatewayDecisionView {
        match self {
            GatewayDecision::Deliver(text) => GatewayDecisionView::Deliver(text@),
            GatewayDecision::Retry => GatewayDecisionView::Retry,
            GatewayDecision::GiveUp => GatewayDecisionView::GiveUp,
        }
    }
}

/// The failed attempts that are counted after one more attempt has failed.
pub open spec fn failures_after(failures: nat) -> nat {
    if failures < GATEWAY_ATTEMPTS {
        failures + 1
    } else {
        failures
    }
}

/// What is done with the outcome `reply` of an attempt that `failures`
/// failed attempts went before: an answer is delivered; a failure is
/// answered with another attempt as long as fewer than
/// [`GATEWAY_ATTEMPTS`] have been made.
pub open spec fn decision_on(failures: nat, reply: Option<Seq<char>>) -> GatewayDecisionView {
    match reply {
        Some(text) => GatewayDecisionView::Deliver(text),
        None => if failures_after(failures) < GATEWAY_ATTEMPTS {
            GatewayDecisionView::Retry
        } else {
            GatewayDecisionView::GiveUp
        },
    }
}

/// One request to the gateway, from its first attempt to its answer or its
/// failure.
#[derive(Debug)]
pub struct GatewayExchange {
    failures: u8,
}

impl GatewayExchange {
    /// The attempts that have failed so far.
    pub closed spec fn failures(&self) -> nat {
        self.failures as nat
    }

    /// An exchange before its first attempt.
    pub fn new() -> (exchange: Self)
        ensures
            exchange.failures() == 0,
    {
        GatewayExchange { failures: 0 }
    }

    /// Takes the outcome of one attempt, `None` for an attempt that failed,
    /// and says what is done with it.
    pub fn settle(&mut self, reply: Option<String>) -> (decision: GatewayDecision)
        ensures
            decision@ == decision_on(old(self).failures(), opt_text(reply)),
            final(self).failures() == (if reply is Some {
                old(self).failures()
            } else {
                failures_after(old(self).failures())
            }),
    {
        match reply {
            Some(text) => GatewayDecision::Deliver(text),
            None => {
                if self.failures < GATEWAY_ATTEMPTS {
                    self.failures = self.failures + 1;
                }
                if self.failures < GATEWAY_ATTEMPTS {
                    GatewayDecision::Retry
                } else {
                    GatewayDecision::GiveUp
                }
            },
        }
    }
}

/// A request is sent at most [`GATEWAY_ATTEMPTS`] times: only the first
/// failure is answered with another attempt.
pub proof fn law_one_retry(failures: nat)
    ensures
        decision_on(failures, None) is Retry <==> failures == 0,
        decision_on(0, None) is Retry,
        decision_on(failures_after(0), None) is GiveUp,
{
}

} // verus!
