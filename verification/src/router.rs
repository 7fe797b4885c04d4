use vstd::prelude::*;

use crate::asset::{assets_view, Asset, AssetView};
use crate::hashing::{blake2_256_digest, XcmHash};
use crate::location::{Location, LocationView};
use crate::senders::{
    destination_full, is_full_destination, spec_para3000, spec_para3000_payment, SendError, TestPaidForPara3000SendXcm,
    TestSendXcm, TestSendXcmErrX8, Ticket,
};
use crate::sent::{pair_view, EncodedXcm, SentXcm};

verus! {

/// One of the test senders, as an entry of a router.
#[derive(Clone, Copy, Debug, PartialEq, Eq)]
pub enum Sender {
    TestSendXcm,
    TestSendXcmErrX8,
    TestPaidForPara3000SendXcm,
}

/// What `sender` answers when asked to validate a message to `dest`: the price,
/// or the error.
pub open spec fn sender_outcome(sender: Sender, dest: LocationView) -> Result<
    Seq<AssetView>,
    SendError,
> {
    match sender {
        Sender::TestSendXcm => Ok(Seq::empty()),
        Sender::TestSendXcmErrX8 => if is_full_destination(dest) {
            Err(destination_full())
        } else {
            Ok(Seq::empty())
        },
        Sender::TestPaidForPara3000SendXcm => if dest == LocationView::parachain(spec_para3000()) {
            Ok(spec_para3000_payment())
        } else {
            Err(SendError::NotApplicable)
        },
    }
}

/// What a router, trying its senders in order from position `from`, answers
/// for `dest`: the position of the first sender that accepts it, with its
/// price; or the first error other than `NotApplicable`; or `NotApplicable`
/// when no sender from `from` on applies.
pub open spec fn route_outcome(router: Seq<Sender>, dest: LocationView, from: nat) -> Result<
    (nat, Seq<AssetView>),
    SendError,
>
    decreases router.len() - from,
{
    if from >= router.len() {
        Err(SendError::NotApplicable)
    } else {
        match sender_outcome(router[from as int], dest) {
            Ok(price) => Ok((from, price)),
            Err(SendError::NotApplicable) => route_outcome(router, dest, from + 1),
            Err(e) => Err(e),
        }
    }
}

/// The ticket of a router: which of its senders accepted, and what it took.
pub struct RouterTicket {
    pub index: usize,
    pub pair: Ticket,
}

/// Asks `sender` to validate.
pub fn validate_with(sender: Sender, dest: &mut Option<Location>, msg: &mut Option<EncodedXcm>) -> (r:
    Result<(Ticket, Vec<Asset>), SendError>)
    requires
        *old(dest) matches Some(d) && d.wf(),
        *old(msg) is Some,
    ensures
        match sender_outcome(sender, (*old(dest))->Some_0@) {
            Ok(price) => {
                &&& r matches Ok((t, p)) && t == ((*old(dest))->Some_0, (*old(msg))->Some_0)
                    && assets_view(p@) == price
                &&& *final(dest) is None
                &&& *final(msg) is None
            },
            Err(e) => {
                &&& r == Err::<(Ticket, Vec<Asset>), SendError>(e)
                &&& e == SendError::NotApplicable ==> *final(dest) == *old(dest) && *final(msg)
                    == *old(msg)
                &&& e != SendError::NotApplicable ==> *final(dest) is None && *final(msg) is None
            },
        },
{
    let r = match sender {
        Sender::TestSendXcm => TestSendXcm::validate(dest, msg),
        Sender::TestSendXcmErrX8 => TestSendXcmErrX8::validate(dest, msg),
        Sender::TestPaidForPara3000SendXcm => TestPaidForPara3000SendXcm::validate(dest, msg),
    };
    proof {
        if r is Ok {
            let p = r->Ok_0.1;
            if p@.len() == 0 {
                assert(assets_view(p@) =~= Seq::<AssetView>::empty());
            }
        }
    }
    r
}

/// Validates with each sender of `router` in turn: the first that accepts
/// gives the ticket and the price; an error other than `NotApplicable` stops
/// the search; when none applies the answer is `NotApplicable`, and the
/// destination and message are left where they were.
pub fn route_validate(
    router: &[Sender],
    dest: &mut Option<Location>,
    msg: &mut Option<EncodedXcm>,
) -> (r: Result<(RouterTicket, Vec<Asset>), SendError>)
    requires
        *old(dest) matches Some(d) && d.wf(),
        *old(msg) is Some,
    ensures
        match route_outcome(router@, (*old(dest))->Some_0@, 0) {
            Ok((i, price)) => {
                &&& r matches Ok((t, p)) && t.index == i && t.pair == ((*old(dest))->Some_0, (
                    *old(msg))->Some_0) && assets_view(p@) == price
                &&& *final(dest) is None
                &&& *final(msg) is None
            },
            Err(e) => {
                &&& r == Err::<(RouterTicket, Vec<Asset>), SendError>(e)
                &&& e == SendError::NotApplicable ==> *final(dest) == *old(dest) && *final(msg)
                    == *old(msg)
                &&& e != SendError::NotApplicable ==> *final(dest) is None && *final(msg) is None
            },
        },
{
    let ghost d = (*old(dest))->Some_0@;
    let mut i: usize = 0;
    while i < router.len()
        invariant
            *dest == *old(dest),
            *msg == *old(msg),
            *dest matches Some(x) && x.wf(),
            *msg is Some,
            d == (*dest)->Some_0@,
            i <= router@.len(),
            route_outcome(router@, d, 0) == route_outcome(router@, d, i as nat),
        decreases router@.len() - i,
    {
        match validate_with(router[i], dest, msg) {
            Ok((t, price)) => {
                return Ok((RouterTicket { index: i, pair: t }, price));
            },
            Err(SendError::NotApplicable) => {
                i = i + 1;
            },
            Err(e) => {
                return Err(e);
            },
        }
    }
    Err(SendError::NotApplicable)
}

/// Delivers through the sender of `router` that issued `ticket`;
/// `Unroutable` when no such sender exists.
pub fn route_deliver(router: &[Sender], sent: &mut SentXcm, ticket: RouterTicket) -> (r: Result<
    XcmHash,
    SendError,
>)
    ensures
        ticket.index < router@.len() ==> {
            &&& r matches Ok(hash) && hash@ == blake2_256_digest(ticket.pair.1@)
            &&& final(sent)@ == old(sent)@.push(pair_view(ticket.pair))
        },
        ticket.index >= router@.len() ==> {
            &&& r == Err::<XcmHash, SendError>(SendError::Unroutable)
            &&& final(sent)@ == old(sent)@
        },
{
    if ticket.index >= router.len() {
        return Err(SendError::Unroutable);
    }
    match router[ticket.index] {
        Sender::TestSendXcm => TestSendXcm::deliver(sent, ticket.pair),
        Sender::TestSendXcmErrX8 => TestSendXcmErrX8::deliver(sent, ticket.pair),
        Sender::TestPaidForPara3000SendXcm => TestPaidForPara3000SendXcm::deliver(
            sent,
            ticket.pair,
        ),
    }
}

/// Sends `msg` to `dest` through `router`: validates, then delivers. On
/// success the message is in the log and its hash and price come back; on
/// failure the log is unchanged.
pub fn send_xcm(router: &[Sender], sent: &mut SentXcm, dest: Location, msg: EncodedXcm) -> (r:
    Result<(XcmHash, Vec<Asset>), SendError>)
    requires
        dest.wf(),
    ensures
        match route_outcome(router@, dest@, 0) {
            Ok((_, price)) => {
                &&& r matches Ok((hash, p)) && hash@ == blake2_256_digest(msg@) && assets_view(p@)
                    == price
                &&& final(sent)@ == old(sent)@.push((dest@, msg@))
            },
            Err(e) => {
                &&& r == Err::<(XcmHash, Vec<Asset>), SendError>(e)
                &&& final(sent)@ == old(sent)@
            },
        },
{
    let ghost dv = dest@;
    let ghost mv = msg@;
    let mut d = Some(dest);
    let mut m = Some(msg);
    match route_validate(router, &mut d, &mut m) {
        Ok((ticket, price)) => {
            proof {
                route_outcome_index_in_range(router@, dv, 0);
            }
            match route_deliver(router, sent, ticket) {
                Ok(hash) => Ok((hash, price)),
                Err(e) => Err(e),
            }
        },
        Err(e) => Err(e),
    }
}

/// The position that a router answers with is one of its senders.
pub proof fn route_outcome_index_in_range(router: Seq<Sender>, dest: LocationView, from: nat)
    ensures
        route_outcome(router, dest, from) matches Ok((i, _)) ==> from <= i < router.len(),
    decreases router.len() - from,
{
    if from < router.len() {
        route_outcome_index_in_range(router, dest, from + 1);
    }
}

} // verus!
