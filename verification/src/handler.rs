//! The credential broker: what each token exchange asks of the bastion, how
//! the session state moves on with each answer, and what revokes it.

use crate::cli::decimal_text;
use crate::cli::port_text;
use crate::error::Error;
use vstd::prelude::*;
use vstd::string::StringExecFns;

verus! {

/// The fields of the bastion's answer to a token exchange.
#[derive(Debug, Clone)]
pub struct BastionAuthTokenResponse {
    pub auth_token: String,
    pub username: String,
    pub data_source: String,
    pub node_id: String,
    pub available_data_sources: Vec<String>,
}

/// One token exchange, ready to be posted as a form.
#[derive(Debug, Clone)]
pub struct TokenRequest {
    /// The address of the bastion's token endpoint.
    pub web_address: String,
    /// The form fields, in the order in which they are sent.
    pub content: Vec<(String, String)>,
    /// The value of the `X-Node-Id` header, where one is sent.
    pub node_id: Option<String>,
}

/// What a revocation that did not fail came to.
#[derive(Debug, Clone, Copy, PartialEq, Eq, Structural)]
pub enum Revocation {
    /// The bastion took the deletion.
    Deleted,
    /// The bastion knew no such session: there was nothing to delete.
    NothingToDelete,
}

/// The broker's state between connections.
#[derive(Debug, Clone)]
pub struct AzTokenHandler {
    pub last_token: Option<String>,
    pub node_id: Option<String>,
    pub resource_id: String,
    pub bastion: String,
    pub tunnel: String,
    pub port: u16,
}

/// The part of the broker's state that the exchanges change.
pub struct Session {
    pub last_token: Option<Seq<char>>,
    pub node_id: Option<Seq<char>>,
}

/// An optional string as an optional text.
pub open spec fn text_of(value: Option<String>) -> Option<Seq<char>> {
    match value {
        Some(text) => Some(text@),
        None => None,
    }
}

/// The session before any exchange.
pub open spec fn fresh_session() -> Session {
    Session { last_token: None, node_id: None }
}

/// The session after the bastion answered with a token and a node: the
/// answer replaces both, whatever the session held before.
pub open spec fn after_exchange(before: Session, token: Seq<char>, node: Seq<char>) -> Session {
    Session { last_token: Some(token), node_id: Some(node) }
}

/// The session after a run of answers, each a token and a node, oldest first.
pub open spec fn after_exchanges(start: Session, answers: Seq<(Seq<char>, Seq<char>)>) -> Session
    decreases answers.len(),
{
    if answers.len() == 0 {
        start
    } else {
        after_exchange(
            after_exchanges(start, answers.drop_last()),
            answers.last().0,
            answers.last().1,
        )
    }
}

/// The `token` field of the next exchange: the last session token, or
/// nothing where there is none yet.
pub open spec fn renewal_token(session: Session) -> Seq<char> {
    match session.last_token {
        Some(token) => token,
        None => Seq::empty(),
    }
}

/// The address to which exchanges are posted.
pub open spec fn token_endpoint(bastion: Seq<char>) -> Seq<char> {
    "https://"@ + bastion + "/api/tokens"@
}

/// The address whose deletion revokes a session token.
pub open spec fn revoke_endpoint(bastion: Seq<char>, token: Seq<char>) -> Seq<char> {
    "https://"@ + bastion + "/api/tokens/"@ + token
}

/// The address of the tunnel for a session token on its node.
pub open spec fn tunnel_url(bastion: Seq<char>, token: Seq<char>, node: Seq<char>) -> Seq<char> {
    "wss://"@ + bastion + "/webtunnel/"@ + token + "?X-Node-Id="@ + node
}

/// The address that revokes a session, where there is one to revoke.
pub open spec fn revocation_of(bastion: Seq<char>, session: Session) -> Option<Seq<char>> {
    match session.last_token {
        Some(token) => Some(revoke_endpoint(bastion, token)),
        None => None,
    }
}

/// The resource id of a virtual machine in a resource group.
pub open spec fn vm_resource_id(subscription: Seq<char>, group: Seq<char>, vm: Seq<char>) -> Seq<
    char,
> {
    "/subscriptions/"@ + subscription + "/resourceGroups/"@ + group
        + "/providers/Microsoft.Compute/virtualMachines/"@ + vm
}

/// The form of a token exchange.
pub open spec fn form_of(
    resource_id: Seq<char>,
    protocol: Seq<char>,
    port: u16,
    bearer: Seq<char>,
    previous: Seq<char>,
) -> Seq<(Seq<char>, Seq<char>)> {
    seq![
        ("resourceId"@, resource_id),
        ("protocol"@, protocol),
        ("workloadHostPort"@, decimal_text(port as nat)),
        ("aztoken"@, bearer),
        ("token"@, previous),
    ]
}

/// A byte that a header value may hold: a tab, or anything from the space
/// upwards but the delete character.
pub open spec fn header_char(c: char) -> bool {
    c == '\t' || (c as u32 >= 32 && c as u32 != 127)
}

/// Whether a text can be sent as a header value.
pub open spec fn header_value_valid(value: Seq<char>) -> bool {
    forall|i: int| 0 <= i < value.len() ==> header_char(#[trigger] value[i])
}

/// Asks `reqwest::header::HeaderValue::from_str` whether a text can be sent
/// as a header value. Trusted: it accepts exactly the texts whose bytes are
/// all tabs or at least 32 and not 127; every byte of a character beyond
/// ASCII is above 127.
#[verifier::external_body]
fn header_value_accepts(value: &str) -> (accepted: bool)
    ensures
        accepted == header_value_valid(value@),
{
    reqwest::header::HeaderValue::from_str(value).is_ok()
}

/// The resource id of a virtual machine.
pub fn resource_id(subscription: &str, group: &str, vm: &str) -> (id: String)
    ensures
        id@ == vm_resource_id(subscription@, group@, vm@),
{
    let mut id: String = String::from_str("/subscriptions/");
    id.append(subscription);
    id.append("/resourceGroups/");
    id.append(group);
    id.append("/providers/Microsoft.Compute/virtualMachines/");
    id.append(vm);
    id
}

/// Names and values as texts.
pub open spec fn texts_of(pairs: Seq<(String, String)>) -> Seq<(Seq<char>, Seq<char>)> {
    Seq::new(pairs.len(), |i: int| (pairs[i].0@, pairs[i].1@))
}

/// The headers of a token exchange: the node that issued the last session
/// token, where one is known.
pub open spec fn headers_of(node: Option<Seq<char>>) -> Seq<(Seq<char>, Seq<char>)> {
    match node {
        Some(id) => seq![("X-Node-Id"@, id)],
        None => Seq::empty(),
    }
}

/// The audience for which the identity provider is asked for a bearer token.
pub fn token_audience() -> (audience: &'static str)
    ensures
        audience@ == "https://management.azure.com"@,
{
    "https://management.azure.com"
}

impl TokenRequest {
    /// The form fields as texts.
    pub open spec fn form(&self) -> Seq<(Seq<char>, Seq<char>)> {
        texts_of(self.content@)
    }

    /// The headers to send with the form.
    pub fn headers(&self) -> (headers: Vec<(String, String)>)
        ensures
            texts_of(headers@) == headers_of(text_of(self.node_id)),
    {
        let mut headers: Vec<(String, String)> = Vec::new();
        match &self.node_id {
            Some(id) => {
                headers.push((String::from_str("X-Node-Id"), id.clone()));
            },
            None => {},
        }
        assert(texts_of(headers@) =~= headers_of(text_of(self.node_id)));
        headers
    }
}

impl AzTokenHandler {
    /// The session that the broker holds.
    pub open spec fn session(&self) -> Session {
        Session { last_token: text_of(self.last_token), node_id: text_of(self.node_id) }
    }

    /// Whether two brokers serve the same target through the same bastion.
    pub open spec fn same_target(&self, other: &AzTokenHandler) -> bool {
        &&& self.resource_id@ == other.resource_id@
        &&& self.bastion@ == other.bastion@
        &&& self.tunnel@ == other.tunnel@
        &&& self.port == other.port
    }

    /// A broker that has exchanged no token yet.
    pub fn new(resource_id: String, bastion: String, tunnel: String, port: u16) -> (handler:
        AzTokenHandler)
        ensures
            handler.session() == fresh_session(),
            handler.resource_id@ == resource_id@,
            handler.bastion@ == bastion@,
            handler.tunnel@ == tunnel@,
            handler.port == port,
    {
        AzTokenHandler { last_token: None, node_id: None, resource_id, bastion, tunnel, port }
    }

    /// The next token exchange, for a bearer token of the identity provider.
    /// It renews the last session token and is sent to the node that issued
    /// it. A node id that no header can carry is a protocol error.
    pub fn token_request(&self, az_token: &str) -> (request: Result<TokenRequest, Error>)
        ensures
            match request {
                Ok(r) => {
                    &&& r.web_address@ == token_endpoint(self.bastion@)
                    &&& r.form() == form_of(
                        self.resource_id@,
                        self.tunnel@,
                        self.port,
                        az_token@,
                        renewal_token(self.session()),
                    )
                    &&& text_of(r.node_id) == self.session().node_id
                    &&& self.session().node_id matches Some(node) ==> header_value_valid(node)
                },
                Err(e) => {
                    &&& e == Error::Protocol
                    &&& self.session().node_id matches Some(node) && !header_value_valid(node)
                },
            },
    {
        let last_token: String = match &self.last_token {
            Some(token) => token.clone(),
            None => String::new(),
        };
        let mut content: Vec<(String, String)> = Vec::new();
        content.push((String::from_str("resourceId"), self.resource_id.clone()));
        content.push((String::from_str("protocol"), self.tunnel.clone()));
        content.push((String::from_str("workloadHostPort"), port_text(self.port)));
        content.push((String::from_str("aztoken"), String::from_str(az_token)));
        content.push((String::from_str("token"), last_token));
        let mut web_address: String = String::from_str("https://");
        web_address.append(self.bastion.as_str());
        web_address.append("/api/tokens");
        let node_id: Option<String> = match &self.node_id {
            Some(node) => {
                if !header_value_accepts(node.as_str()) {
                    return Err(Error::Protocol);
                }
                Some(node.clone())
            },
            None => None,
        };
        let request = TokenRequest { web_address, content, node_id };
        assert(request.form() =~= form_of(
            self.resource_id@,
            self.tunnel@,
            self.port,
            az_token@,
            renewal_token(self.session()),
        ));
        Ok(request)
    }

    /// Takes the bastion's answer: the session moves on to the new token and
    /// node, and the result is the address of the tunnel for this connection.
    pub fn get_next_url(&mut self, response: BastionAuthTokenResponse) -> (url: String)
        ensures
            url@ == tunnel_url(old(self).bastion@, response.auth_token@, response.node_id@),
            final(self).session() == after_exchange(
                old(self).session(),
                response.auth_token@,
                response.node_id@,
            ),
            final(self).same_target(old(self)),
    {
        let mut url: String = String::from_str("wss://");
        url.append(self.bastion.as_str());
        url.append("/webtunnel/");
        url.append(response.auth_token.as_str());
        url.append("?X-Node-Id=");
        url.append(response.node_id.as_str());
        self.node_id = Some(response.node_id);
        self.last_token = Some(response.auth_token);
        url
    }

    /// The address whose deletion revokes the session; none where no token
    /// was ever issued.
    pub fn revocation(&self) -> (address: Option<String>)
        ensures
            text_of(address) == revocation_of(self.bastion@, self.session()),
    {
        match &self.last_token {
            Some(token) => {
                let mut address: String = String::from_str("https://");
                address.append(self.bastion.as_str());
                address.append("/api/tokens/");
                address.append(token.as_str());
                Some(address)
            },
            None => None,
        }
    }

    /// Ends the broker: the address to delete, as `revocation` gives it.
    pub fn delete(self) -> (address: Option<String>)
        ensures
            text_of(address) == revocation_of(self.bastion@, self.session()),
    {
        self.revocation()
    }
}

/// Whether a status says that a request was carried out.
pub open spec fn is_success(status: u16) -> bool {
    200 <= status && status < 300
}

/// Reads the status of a deletion. A success says that the bastion took it,
/// and 404 that the session was gone already, which is no failure. Any other
/// status is reported as a protocol error.
pub fn delete_outcome(status: u16) -> (outcome: Result<Revocation, Error>)
    ensures
        outcome == if status == 404 {
            Ok::<Revocation, Error>(Revocation::NothingToDelete)
        } else if is_success(status) {
            Ok::<Revocation, Error>(Revocation::Deleted)
        } else {
            Err::<Revocation, Error>(Error::Protocol)
        },
{
    if status == 404 {
        Ok(Revocation::NothingToDelete)
    } else if 200 <= status && status < 300 {
        Ok(Revocation::Deleted)
    } else {
        Err(Error::Protocol)
    }
}

/// Each exchange renews the token of the answer before it: the exchange
/// after `i` answers carries the token of the last of them and goes to its
/// node, and the first carries an empty token and names no node.
pub proof fn law_exchange_chain(answers: Seq<(Seq<char>, Seq<char>)>, i: int)
    requires
        0 <= i <= answers.len(),
    ensures
        renewal_token(after_exchanges(fresh_session(), answers.take(i))) == if i == 0 {
            Seq::<char>::empty()
        } else {
            answers[i - 1].0
        },
        after_exchanges(fresh_session(), answers.take(i)).node_id == if i == 0 {
            None
        } else {
            Some(answers[i - 1].1)
        },
{
}

/// There is something to revoke exactly when an exchange succeeded, and it
/// is the session of the last answer, however many came before.
pub proof fn law_revocation_target(bastion: Seq<char>, answers: Seq<(Seq<char>, Seq<char>)>)
    ensures
        revocation_of(bastion, after_exchanges(fresh_session(), answers)) == if answers.len() == 0 {
            None
        } else {
            Some(revoke_endpoint(bastion, answers.last().0))
        },
{
}

} // verus!
