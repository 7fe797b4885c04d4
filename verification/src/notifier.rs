use vstd::prelude::*;

use crate::location::{Junction, Location};
use crate::scale::{decode_account_id, encode_account_id};

verus! {

/// Where a call comes from.
#[derive(Debug, PartialEq, Eq)]
pub enum Origin {
    /// The root of the chain.
    Root,
    /// A signed account.
    Signed([u8; 32]),
    /// No one.
    Unsigned,
    /// A child parachain.
    Parachain(u32),
    /// An XCM location, by message.
    Xcm(Location),
    /// A location answering a query, by response.
    Response(Location),
}

/// The errors of the test notifier pallet.
#[derive(Clone, Copy, Debug, PartialEq, Eq)]
pub enum Error {
    UnexpectedId,
    BadAccountFormat,
}

/// Why a call was refused.
#[derive(Clone, Copy, Debug, PartialEq, Eq)]
pub enum DispatchError {
    /// The origin may not make this call.
    BadOrigin,
    /// The test notifier pallet refused the call.
    Module(Error),
}

/// The identifier of a query.
pub type QueryId = u64;

/// The number of blocks after which a prepared query times out.
pub open spec fn spec_query_timeout() -> u64 {
    100
}

/// The number of blocks after which a prepared query times out.
pub fn query_timeout() -> (r: u64)
    ensures
        r == spec_query_timeout(),
{
    100
}

/// The events of the test notifier pallet.
#[derive(Debug, PartialEq, Eq)]
pub enum Event<R> {
    QueryPrepared(QueryId),
    NotifyQueryPrepared(QueryId),
    ResponseReceived(Location, QueryId, R),
}

/// The call that a notifying query makes when its response arrives:
/// `notification_received` with the query id below and the default response.
#[derive(Clone, Copy, Debug, PartialEq, Eq)]
pub struct NotificationCall {
    pub query_id: QueryId,
}

/// A query that the notifier asks the XCM pallet to register.
#[derive(Debug, PartialEq, Eq)]
pub struct QueryRequest {
    /// Who is expected to answer.
    pub responder: Junction,
    /// The call to make on the response, for a notifying query.
    pub notify: Option<NotificationCall>,
    /// Blocks until the query times out.
    pub timeout: u64,
    /// Who asks.
    pub querier: Location,
}

impl QueryRequest {
    /// The event to deposit once the XCM pallet has registered this query
    /// under `query_id`.
    pub fn prepared<R>(&self, query_id: QueryId) -> (r: Event<R>)
        ensures
            self.notify is None ==> r == Event::<R>::QueryPrepared(query_id),
            self.notify is Some ==> r == Event::<R>::NotifyQueryPrepared(query_id),
    {
        match self.notify {
            None => Event::QueryPrepared(query_id),
            Some(_) => Event::NotifyQueryPrepared(query_id),
        }
    }
}

/// The signer of a signed origin; `BadOrigin` for any other.
pub fn ensure_signed(origin: &Origin) -> (r: Result<[u8; 32], DispatchError>)
    ensures
        match *origin {
            Origin::Signed(who) => r == Ok::<[u8; 32], DispatchError>(who),
            _ => r == Err::<[u8; 32], DispatchError>(DispatchError::BadOrigin),
        },
{
    match origin {
        Origin::Signed(who) => Ok(*who),
        _ => Err(DispatchError::BadOrigin),
    }
}

/// The responder of a response origin; `BadOrigin` for any other.
pub fn ensure_response(origin: Origin) -> (r: Result<Location, DispatchError>)
    ensures
        match origin {
            Origin::Response(loc) => r == Ok::<Location, DispatchError>(loc),
            _ => r == Err::<Location, DispatchError>(DispatchError::BadOrigin),
        },
{
    match origin {
        Origin::Response(loc) => Ok(loc),
        _ => Err(DispatchError::BadOrigin),
    }
}

/// The responder junction of the account `who`: `who`'s SCALE encoding read
/// back as 32 bytes, as an account of no particular network.
fn account_responder(who: &[u8; 32]) -> (r: Result<Junction, DispatchError>)
    ensures
        r == Ok::<Junction, DispatchError>(Junction::AccountId32 { network: None, id: *who }),
{
    broadcast use vstd::array::group_array_axioms;

    let encoded = encode_account_id(who);
    proof {
        assert(encoded@.len() == 32);
    }
    match decode_account_id(encoded.as_slice()) {
        Ok(id) => {
            proof {
                assert(id@ =~= who@);
                assert(id =~= *who);
            }
            Ok(Junction::AccountId32 { network: None, id })
        },
        Err(_) => Err(DispatchError::Module(Error::BadAccountFormat)),
    }
}

/// The test notifier pallet.
pub struct Pallet;

impl Pallet {
    /// Prepares a query to be answered by the signing account: the account,
    /// as a junction of no particular network, is the responder, the query
    /// times out after 100 blocks, and `querier` asks. Only a signed origin may
    /// call; every signer's account converts, so `BadAccountFormat` never comes.
    pub fn prepare_new_query(origin: Origin, querier: Location) -> (r: Result<
        QueryRequest,
        DispatchError,
    >)
        ensures
            match origin {
                Origin::Signed(who) => r == Ok::<QueryRequest, DispatchError>(
                    QueryRequest {
                        responder: Junction::AccountId32 { network: None, id: who },
                        notify: None,
                        timeout: spec_query_timeout(),
                        querier,
                    },
                ),
                _ => r == Err::<QueryRequest, DispatchError>(DispatchError::BadOrigin),
            },
    {
        let who = ensure_signed(&origin)?;
        let responder = account_responder(&who)?;
        Ok(QueryRequest { responder, notify: None, timeout: query_timeout(), querier })
    }

    /// As `prepare_new_query`, for a query whose response is passed on by a
    /// call of `notification_received` with query id 0 and the default
    /// response.
    pub fn prepare_new_notify_query(origin: Origin, querier: Location) -> (r: Result<
        QueryRequest,
        DispatchError,
    >)
        ensures
            match origin {
                Origin::Signed(who) => r == Ok::<QueryRequest, DispatchError>(
                    QueryRequest {
                        responder: Junction::AccountId32 { network: None, id: who },
                        notify: Some(NotificationCall { query_id: 0 }),
                        timeout: spec_query_timeout(),
                        querier,
                    },
                ),
                _ => r == Err::<QueryRequest, DispatchError>(DispatchError::BadOrigin),
            },
    {
        let who = ensure_signed(&origin)?;
        let responder = account_responder(&who)?;
        let call = NotificationCall { query_id: 0 };
        Ok(QueryRequest { responder, notify: Some(call), timeout: query_timeout(), querier })
    }

    /// Takes note of a response: only a response origin may call, and the event
    /// names its responder, the query and the response.
    pub fn notification_received<R>(origin: Origin, query_id: QueryId, response: R) -> (r: Result<
        Event<R>,
        DispatchError,
    >)
        ensures
            match origin {
                Origin::Response(responder) => r == Ok::<Event<R>, DispatchError>(
                    Event::ResponseReceived(responder, query_id, response),
                ),
                _ => r == Err::<Event<R>, DispatchError>(DispatchError::BadOrigin),
            },
    {
        let responder = ensure_response(origin)?;
        Ok(Event::ResponseReceived(responder, query_id, response))
    }
}

} // verus!
