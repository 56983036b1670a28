//! The relay submission adapter: wraps an inner blockchain transport and
//! reroutes transaction submission through the relay service. It builds the
//! relay's JSON request body (optional fields omitted when unset), carries
//! the credential identity and the bearer token in the request headers, and
//! maps the relay's answer into a pending-transaction handle or a typed
//! error.

use vstd::prelude::*;
use vstd::string::StringExecFns;

use crate::errors::OzRelayerMiddlewareError;
use crate::hex::{hex_bytes, hex_min, push_hex_bytes, push_hex_u128};
use crate::json::transaction_id_of;
use crate::txid::{hash_of_id, transform_transaction_id};

verus! {

/// The credential pair a caller supplies: the identity, which also keys the
/// token cache and names the API key header, and the secret.
pub struct RelayerConfig {
    pub api_key: String,
    pub api_secret: String,
}

/// A caller-supplied transaction description. Every field is optional; an
/// unset field is left out of the serialized body altogether. The destination
/// is an address as its raw bytes; value and gas limit are amounts; the
/// payload is raw bytes.
pub struct OutboundTransaction {
    pub to: Option<Vec<u8>>,
    pub value: Option<u128>,
    pub gas_limit: Option<u128>,
    pub data: Option<Vec<u8>>,
}

/// What the identity-provider handshake is made with: the fixed client and
/// pool constants, and the caller's credential as username and password.
pub struct HandshakeRequest {
    pub client_id: String,
    pub pool_id: String,
    pub username: String,
    pub password: String,
}

/// One prepared relay call: the fixed endpoint, the API-key header value, the
/// authorization header value and the JSON body.
pub struct RelayRequest {
    pub url: String,
    pub api_key: String,
    pub authorization: String,
    pub body: String,
}

/// A reference to a transaction whose final on-chain outcome is not yet
/// known: the synthetic hash (64 hexadecimal digits) and the wrapped
/// transport that status polling is delegated to. The hash embeds the relay's
/// identifier and corresponds to no real chain transaction hash until the
/// relay broadcasts it.
pub struct PendingHandle<'a, M> {
    pub tx_hash: Vec<u8>,
    pub provider: &'a M,
}

/// The serialized `to` member: the destination address in hexadecimal.
pub open spec fn to_field(a: Seq<u8>) -> Seq<char> {
    "\"to\":\"0x"@ + hex_bytes(a) + "\""@
}

/// The serialized `value` member: the amount in shortest hexadecimal.
pub open spec fn value_field(v: u128) -> Seq<char> {
    "\"value\":\"0x"@ + hex_min(v as nat) + "\""@
}

/// The serialized `gasLimit` member: the limit in shortest hexadecimal.
pub open spec fn gas_limit_field(g: u128) -> Seq<char> {
    "\"gasLimit\":\"0x"@ + hex_min(g as nat) + "\""@
}

/// The serialized `data` member: the payload bytes in hexadecimal.
pub open spec fn data_field(d: Seq<u8>) -> Seq<char> {
    "\"data\":\"0x"@ + hex_bytes(d) + "\""@
}

/// The members a transaction serializes to, in the relay's order; an unset
/// field contributes no member.
pub open spec fn tx_fields(tx: OutboundTransaction) -> Seq<Seq<char>> {
    (match tx.to {
        Option::Some(a) => seq![to_field(a@)],
        Option::None => seq![],
    }) + (match tx.value {
        Option::Some(v) => seq![value_field(v)],
        Option::None => seq![],
    }) + (match tx.gas_limit {
        Option::Some(g) => seq![gas_limit_field(g)],
        Option::None => seq![],
    }) + (match tx.data {
        Option::Some(d) => seq![data_field(d@)],
        Option::None => seq![],
    })
}

/// The members joined with commas.
pub open spec fn joined(fields: Seq<Seq<char>>) -> Seq<char>
    decreases fields.len(),
{
    if fields.len() == 0 {
        Seq::empty()
    } else if fields.len() == 1 {
        fields[0]
    } else {
        joined(fields.drop_last()) + ","@ + fields.last()
    }
}

/// The JSON document a transaction serializes to: its present members,
/// comma-joined, in braces.
pub open spec fn body_of(tx: OutboundTransaction) -> Seq<char> {
    "{"@ + joined(tx_fields(tx)) + "}"@
}

/// Serializes a transaction into the relay's JSON body: the members `to`,
/// `value`, `gasLimit` and `data` in that order, each present exactly where
/// the caller set the field.
#[verifier::rlimit(100)]
pub fn build_body(tx: &OutboundTransaction) -> (r: String)
    ensures
        r@ == body_of(*tx),
{
    let mut body = String::from_str("{");
    let mut first = true;
    let ghost mut done: Seq<Seq<char>> = Seq::empty();
    proof {
        assert(body@ =~= "{"@ + joined(done));
    }
    if let Some(a) = &tx.to {
        if !first {
            body.append(",");
        }
        body.append("\"to\":\"0x");
        push_hex_bytes(&mut body, a);
        body.append("\"");
        proof {
            assert(done.push(to_field(a@)).drop_last() =~= done);
            done = done.push(to_field(a@));
            assert(body@ =~= "{"@ + joined(done));
        }
        first = false;
    }
    if let Some(v) = &tx.value {
        if !first {
            body.append(",");
        }
        body.append("\"value\":\"0x");
        push_hex_u128(&mut body, *v);
        body.append("\"");
        proof {
            assert(done.push(value_field(*v)).drop_last() =~= done);
            done = done.push(value_field(*v));
            assert(body@ =~= "{"@ + joined(done));
        }
        first = false;
    }
    if let Some(g) = &tx.gas_limit {
        if !first {
            body.append(",");
        }
        body.append("\"gasLimit\":\"0x");
        push_hex_u128(&mut body, *g);
        body.append("\"");
        proof {
            assert(done.push(gas_limit_field(*g)).drop_last() =~= done);
            done = done.push(gas_limit_field(*g));
            assert(body@ =~= "{"@ + joined(done));
        }
        first = false;
    }
    if let Some(d) = &tx.data {
        if !first {
            body.append(",");
        }
        body.append("\"data\":\"0x");
        push_hex_bytes(&mut body, d);
        body.append("\"");
        proof {
            assert(done.push(data_field(d@)).drop_last() =~= done);
            done = done.push(data_field(d@));
            assert(body@ =~= "{"@ + joined(done));
        }
        first = false;
    }
    body.append("}");
    proof {
        assert(done =~~= tx_fields(*tx));
        assert(body@ =~= body_of(*tx));
    }
    body
}

/// Optional field omission: a transaction with only the destination set
/// serializes to a body holding solely the `to` member; no `value`,
/// `gasLimit` or `data` member appears.
pub proof fn lemma_only_to_field(tx: OutboundTransaction, a: Vec<u8>)
    requires
        tx.to == Option::Some(a),
        tx.value is None,
        tx.gas_limit is None,
        tx.data is None,
    ensures
        body_of(tx) == "{"@ + to_field(a@) + "}"@,
{
    assert(tx_fields(tx) =~~= seq![to_field(a@)]);
}

/// The relay middleware: holds the wrapped inner transport and the caller's
/// credential. Every chain operation but transaction submission is delegated
/// to the inner transport unchanged; submission is rerouted through the
/// relay.
pub struct OzRelayerMiddleware<M> {
    pub inner: M,
    pub config: RelayerConfig,
}

impl<M> OzRelayerMiddleware<M> {
    /// Wraps `inner`, keeping the credential for the submissions to come.
    pub fn new(inner: M, api_key: String, api_secret: String) -> (r: Result<
        Self,
        OzRelayerMiddlewareError<M>,
    >)
        ensures
            r matches Ok(m) && m.inner == inner && m.config.api_key == api_key
                && m.config.api_secret == api_secret,
    {
        let config = RelayerConfig { api_key, api_secret };
        Ok(Self { inner, config })
    }

    /// The wrapped inner transport.
    pub fn inner(&self) -> (r: &M)
        ensures
            *r == self.inner,
    {
        &self.inner
    }

    /// The identity-provider handshake for this credential: the fixed client
    /// and pool constants, the identity as username, the secret as password.
    pub fn handshake_request(&self) -> (r: HandshakeRequest)
        ensures
            r.client_id@ == "1bpd19lcr33qvg5cr3oi79rdap"@,
            r.pool_id@ == "us-west-2_iLmIggsiy"@,
            r.username@ == self.config.api_key@,
            r.password@ == self.config.api_secret@,
    {
        HandshakeRequest {
            client_id: String::from_str("1bpd19lcr33qvg5cr3oi79rdap"),
            pool_id: String::from_str("us-west-2_iLmIggsiy"),
            username: self.config.api_key.clone(),
            password: self.config.api_secret.clone(),
        }
    }

    /// Prepares the relay call for a transaction under a valid token: the
    /// fixed endpoint, the identity as the API-key header, the token as a
    /// bearer authorization, and the serialized body.
    pub fn prepare_request(&self, tx: &OutboundTransaction, token: &String) -> (r: RelayRequest)
        ensures
            r.url@ == "https://api.defender.openzeppelin.com/txs"@,
            r.api_key@ == self.config.api_key@,
            r.authorization@ == "Bearer "@ + token@,
            r.body@ == body_of(*tx),
    {
        let mut authorization = String::from_str("Bearer ");
        authorization.append(token.as_str());
        RelayRequest {
            url: String::from_str("https://api.defender.openzeppelin.com/txs"),
            api_key: self.config.api_key.clone(),
            authorization,
            body: build_body(tx),
        }
    }

    /// Interprets the relay's answer. Any status other than 200 is an
    /// authentication failure and yields no handle. A 200 whose body carries
    /// a hash-shaped `transactionId` string yields a pending handle wrapping
    /// the synthetic hash and the inner transport; a 200 without one is an
    /// unrecognized response.
    pub fn interpret_response<'a, E>(&'a self, status: u16, body: &String) -> (r: Result<
        PendingHandle<'a, M>,
        OzRelayerMiddlewareError<E>,
    >)
        ensures
            status != 200 ==> (r matches Err(e) && e is AuthenticationError),
            status == 200 ==> match transaction_id_of(body@) {
                Option::None => r matches Err(e) && e is UnknownResponse,
                Option::Some(id) => match hash_of_id(id) {
                    Option::None => r matches Err(e) && e is UnknownResponse,
                    Option::Some(h) => r matches Ok(p) && p.tx_hash@ == h && *p.provider
                        == self.inner,
                },
            },
    {
        if status != 200 {
            return Err(OzRelayerMiddlewareError::AuthenticationError());
        }
        match crate::json::extract_transaction_id(body.as_str()) {
            None => Err(OzRelayerMiddlewareError::UnknownResponse()),
            Some(id) => match transform_transaction_id(&id) {
                None => Err(OzRelayerMiddlewareError::UnknownResponse()),
                Some(h) => Ok(PendingHandle { tx_hash: h, provider: &self.inner }),
            },
        }
    }
}

} // verus!
