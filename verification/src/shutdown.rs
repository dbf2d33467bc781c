//! The accept loop and its shutdown, as a machine: the program reports what
//! happened, and the coordinator says what to do next.
//!
//! A failure of a token exchange ends the loop, as does a tunnel address
//! that does not parse: the connection that waited for it is dropped and the
//! program exits with the error. Relays that are already running are not
//! part of this machine and nothing here stops them.

use crate::error::Error;
use crate::handler::after_exchange;
use crate::handler::form_of;
use crate::handler::header_value_valid;
use crate::handler::renewal_token;
use crate::handler::revocation_of;
use crate::handler::revoke_endpoint;
use crate::handler::text_of;
use crate::handler::token_endpoint;
use crate::handler::tunnel_url;
use crate::handler::AzTokenHandler;
use crate::handler::BastionAuthTokenResponse;
use crate::handler::Session;
use crate::handler::TokenRequest;
use vstd::prelude::*;

verus! {

/// What `url::Url::parse` makes of a text: the address in its normal form,
/// or nothing where the text is no address.
pub uninterp spec fn parsed_url(text: Seq<char>) -> Option<Seq<char>>;

/// Parses an address with `url::Url::parse` and hands back the text of the
/// parsed address, or nothing where the parser refuses. Trusted: the result
/// is what the parser makes of this text, and depends on the text alone.
#[verifier::external_body]
fn parse_url(text: &str) -> (url: Option<String>)
    ensures
        text_of(url) == parsed_url(text@),
{
    url::Url::parse(text).ok().map(String::from)
}

/// What the program reports to the coordinator.
#[derive(Debug, Clone)]
pub enum Event {
    /// A peer connected and the identity provider gave this bearer token.
    Accepted(String),
    /// The listener failed.
    AcceptFailed,
    /// A peer connected, but the bearer token or the exchange failed.
    Failed(Error),
    /// The bastion answered the exchange.
    Response(BastionAuthTokenResponse),
    /// The cancellation signal arrived.
    Cancelled,
}

/// What the program is to do next.
#[derive(Debug)]
pub enum Action {
    /// Post this exchange and report the answer.
    Exchange(TokenRequest),
    /// Start a relay of its own to this tunnel address, and accept again.
    Relay(String),
    /// Delete this address, then exit.
    Revoke(String),
    /// Exit with this result.
    Exit(Result<(), Error>),
}

/// The accept loop's state: the broker, and whether the loop still serves.
#[derive(Debug)]
pub struct Coordinator {
    pub handler: AzTokenHandler,
    pub serving: bool,
}

/// The coordinator as the laws see it.
pub struct Model {
    pub bastion: Seq<char>,
    pub session: Session,
    pub serving: bool,
}

/// An event as the laws see it.
pub enum Signal {
    Accepted,
    AcceptFailed,
    Failed(Error),
    Response(Seq<char>, Seq<char>),
    Cancelled,
}

/// An action as the laws see it. Of an exchange they see the token that it
/// renews and the node that it is sent to.
pub enum Step {
    Exchange { token: Seq<char>, node: Option<Seq<char>> },
    Relay(Seq<char>),
    Revoke(Seq<char>),
    Exit(Result<(), Error>),
}

impl View for Coordinator {
    type V = Model;

    open spec fn view(&self) -> Model {
        Model { bastion: self.handler.bastion@, session: self.handler.session(), serving: self.serving }
    }
}

impl View for Event {
    type V = Signal;

    open spec fn view(&self) -> Signal {
        match *self {
            Event::Accepted(_) => Signal::Accepted,
            Event::AcceptFailed => Signal::AcceptFailed,
            Event::Failed(e) => Signal::Failed(e),
            Event::Response(r) => Signal::Response(r.auth_token@, r.node_id@),
            Event::Cancelled => Signal::Cancelled,
        }
    }
}

impl View for Action {
    type V = Step;

    open spec fn view(&self) -> Step {
        match *self {
            Action::Exchange(r) => Step::Exchange { token: r.form()[4].1, node: text_of(r.node_id) },
            Action::Relay(url) => Step::Relay(url@),
            Action::Revoke(address) => Step::Revoke(address@),
            Action::Exit(result) => Step::Exit(result),
        }
    }
}

/// The model once the loop has ended.
pub open spec fn stopped(m: Model) -> Model {
    Model { serving: false, ..m }
}

/// The machine: the state after an event, and the action that answers it.
/// Once the loop has ended, every event is answered with a plain exit.
pub open spec fn next(m: Model, signal: Signal) -> (Model, Step) {
    if !m.serving {
        (m, Step::Exit(Ok(())))
    } else {
        match signal {
            Signal::Accepted => {
                if m.session.node_id matches Some(node) && !header_value_valid(node) {
                    (stopped(m), Step::Exit(Err(Error::Protocol)))
                } else {
                    (m, Step::Exchange { token: renewal_token(m.session), node: m.session.node_id })
                }
            },
            Signal::AcceptFailed => (stopped(m), Step::Exit(Ok(()))),
            Signal::Failed(e) => (stopped(m), Step::Exit(Err(e))),
            Signal::Response(token, node) => {
                let session = after_exchange(m.session, token, node);
                match parsed_url(tunnel_url(m.bastion, token, node)) {
                    Some(url) => (Model { session, ..m }, Step::Relay(url)),
                    None => (Model { session, serving: false, ..m }, Step::Exit(Err(Error::Protocol))),
                }
            },
            Signal::Cancelled => match revocation_of(m.bastion, m.session) {
                Some(address) => (stopped(m), Step::Revoke(address)),
                None => (stopped(m), Step::Exit(Ok(()))),
            },
        }
    }
}

/// The state after a run of events.
pub open spec fn run(m: Model, signals: Seq<Signal>) -> Model
    decreases signals.len(),
{
    if signals.len() == 0 {
        m
    } else {
        run(next(m, signals[0]).0, signals.drop_first())
    }
}

/// How many revocations a run of events asks for.
pub open spec fn revocations(m: Model, signals: Seq<Signal>) -> nat
    decreases signals.len(),
{
    if signals.len() == 0 {
        0
    } else {
        let here: nat = if next(m, signals[0]).1 is Revoke {
            1
        } else {
            0
        };
        here + revocations(next(m, signals[0]).0, signals.drop_first())
    }
}

/// How many exchanges a run of events asks for.
pub open spec fn exchanges(m: Model, signals: Seq<Signal>) -> nat
    decreases signals.len(),
{
    if signals.len() == 0 {
        0
    } else {
        let here: nat = if next(m, signals[0]).1 is Exchange {
            1
        } else {
            0
        };
        here + exchanges(next(m, signals[0]).0, signals.drop_first())
    }
}

/// How many connections a run of events reports.
pub open spec fn connections(signals: Seq<Signal>) -> nat
    decreases signals.len(),
{
    if signals.len() == 0 {
        0
    } else {
        let here: nat = if signals[0] is Accepted {
            1
        } else {
            0
        };
        here + connections(signals.drop_first())
    }
}

impl Coordinator {
    /// A coordinator that serves, around this broker.
    pub fn new(handler: AzTokenHandler) -> (coordinator: Coordinator)
        ensures
            coordinator.serving,
            coordinator.handler == handler,
    {
        Coordinator { handler, serving: true }
    }

    /// Decides on a tunnel address that the parser has read: a relay to it,
    /// or the end of the loop with a protocol error where it was no address.
    pub fn endpoint_action(&mut self, parsed: Option<String>) -> (action: Action)
        ensures
            final(self).handler == old(self).handler,
            match parsed {
                Some(url) => final(self).serving == old(self).serving && action@ == Step::Relay(
                    url@,
                ),
                None => !final(self).serving && action@ == Step::Exit(Err(Error::Protocol)),
            },
    {
        match parsed {
            Some(url) => Action::Relay(url),
            None => {
                self.serving = false;
                Action::Exit(Err(Error::Protocol))
            },
        }
    }

    /// Answers one event as the machine says. An exchange carries the whole
    /// request for the reported bearer token.
    pub fn step(&mut self, event: Event) -> (action: Action)
        ensures
            (final(self)@, action@) == next(old(self)@, event@),
            final(self).handler.same_target(&old(self).handler),
            action matches Action::Exchange(request) ==> event matches Event::Accepted(bearer)
                && request.web_address@ == token_endpoint(old(self).handler.bastion@)
                && request.form() == form_of(
                old(self).handler.resource_id@,
                old(self).handler.tunnel@,
                old(self).handler.port,
                bearer@,
                renewal_token(old(self).handler.session()),
            ),
    {
        if !self.serving {
            return Action::Exit(Ok(()));
        }
        match event {
            Event::Accepted(bearer) => {
                match self.handler.token_request(bearer.as_str()) {
                    Ok(request) => Action::Exchange(request),
                    Err(e) => {
                        self.serving = false;
                        Action::Exit(Err(e))
                    },
                }
            },
            Event::AcceptFailed => {
                self.serving = false;
                Action::Exit(Ok(()))
            },
            Event::Failed(e) => {
                self.serving = false;
                Action::Exit(Err(e))
            },
            Event::Response(response) => {
                let address: String = self.handler.get_next_url(response);
                let parsed: Option<String> = parse_url(address.as_str());
                self.endpoint_action(parsed)
            },
            Event::Cancelled => {
                self.serving = false;
                match self.handler.revocation() {
                    Some(address) => Action::Revoke(address),
                    None => Action::Exit(Ok(())),
                }
            },
        }
    }
}

/// Once the loop has ended it stays ended and asks for nothing more.
pub proof fn lemma_stopped_is_final(m: Model, signals: Seq<Signal>)
    requires
        !m.serving,
    ensures
        !run(m, signals).serving,
        revocations(m, signals) == 0,
        exchanges(m, signals) == 0,
    decreases signals.len(),
{
    if signals.len() > 0 {
        lemma_stopped_is_final(next(m, signals[0]).0, signals.drop_first());
    }
}

/// Whatever happens, and in whatever order, the session is revoked at most
/// once.
pub proof fn law_at_most_one_revocation(m: Model, signals: Seq<Signal>)
    ensures
        revocations(m, signals) <= 1,
    decreases signals.len(),
{
    if signals.len() > 0 {
        let after = next(m, signals[0]).0;
        if next(m, signals[0]).1 is Revoke {
            lemma_stopped_is_final(after, signals.drop_first());
        } else {
            law_at_most_one_revocation(after, signals.drop_first());
        }
    }
}

/// Where no token was ever issued, nothing is revoked.
pub proof fn law_nothing_to_revoke(m: Model, signals: Seq<Signal>)
    requires
        m.session.last_token is None,
        forall|i: int| 0 <= i < signals.len() ==> !(#[trigger] signals[i] is Response),
    ensures
        revocations(m, signals) == 0,
    decreases signals.len(),
{
    if signals.len() > 0 {
        let rest = signals.drop_first();
        assert(!(signals[0] is Response));
        assert forall|i: int| 0 <= i < rest.len() implies !(#[trigger] rest[i] is Response) by {
            assert(rest[i] == signals[i + 1]);
        }
        law_nothing_to_revoke(next(m, signals[0]).0, rest);
    }
}

/// A cancellation while the loop serves ends it, and revokes the last
/// session token where there is one: one revocation, keyed by that token,
/// whatever the relays are doing.
pub proof fn law_cancellation_revokes(m: Model, token: Seq<char>, later: Seq<Signal>)
    requires
        m.serving,
        m.session.last_token == Some(token),
    ensures
        next(m, Signal::Cancelled).1 == Step::Revoke(revoke_endpoint(m.bastion, token)),
        !next(m, Signal::Cancelled).0.serving,
        revocations(m, seq![Signal::Cancelled] + later) == 1,
{
    let signals = seq![Signal::Cancelled] + later;
    assert(signals[0] == Signal::Cancelled);
    assert(signals.drop_first() =~= later);
    lemma_stopped_is_final(next(m, Signal::Cancelled).0, later);
}

/// A run that leaves the loop serving has revoked nothing, and what follows
/// it is answered from the state that it left.
pub proof fn lemma_serving_run(m: Model, before: Seq<Signal>, later: Seq<Signal>)
    requires
        run(m, before).serving,
    ensures
        revocations(m, before) == 0,
        revocations(m, before + later) == revocations(run(m, before), later),
    decreases before.len(),
{
    if before.len() == 0 {
        assert(before + later =~= later);
    } else {
        let after = next(m, before[0]).0;
        let all = before + later;
        assert(all[0] == before[0]);
        assert(all.drop_first() =~= before.drop_first() + later);
        if !after.serving {
            lemma_stopped_is_final(after, before.drop_first());
        }
        lemma_serving_run(after, before.drop_first(), later);
    }
}

/// Whatever came before and whatever comes after, a cancellation that finds
/// the loop serving with a session token makes the whole run revoke exactly
/// once.
pub proof fn law_cancellation_revokes_once(m: Model, before: Seq<Signal>, later: Seq<Signal>)
    requires
        run(m, before).serving,
        run(m, before).session.last_token is Some,
    ensures
        revocations(m, before + (seq![Signal::Cancelled] + later)) == 1,
{
    let here = run(m, before);
    lemma_serving_run(m, before, seq![Signal::Cancelled] + later);
    law_cancellation_revokes(here, here.session.last_token->Some_0, later);
}

/// While the loop serves, each accepted connection is answered with one
/// exchange: a run that leaves the loop serving asked for as many exchanges
/// as it reported connections.
pub proof fn law_one_exchange_per_connection(m: Model, signals: Seq<Signal>)
    requires
        run(m, signals).serving,
    ensures
        exchanges(m, signals) == connections(signals),
    decreases signals.len(),
{
    if signals.len() > 0 {
        let after = next(m, signals[0]).0;
        if !m.serving {
            lemma_stopped_is_final(m, signals);
        } else if !after.serving {
            lemma_stopped_is_final(after, signals.drop_first());
        } else {
            law_one_exchange_per_connection(after, signals.drop_first());
        }
    }
}

/// The exchange that answers a connection renews the token of the answer
/// before it and goes to that answer's node.
pub proof fn law_exchange_follows_answer(m: Model, token: Seq<char>, node: Seq<char>)
    requires
        m.serving,
        header_value_valid(node),
        next(m, Signal::Response(token, node)).0.serving,
    ensures
        next(next(m, Signal::Response(token, node)).0, Signal::Accepted).1 == (Step::Exchange {
            token,
            node: Some(node),
        }),
{
}

} // verus!
