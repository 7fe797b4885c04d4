use vstd::prelude::*;

use crate::asset::{assets_view, Asset, AssetView};
use crate::hashing::{blake2_256_digest, fake_message_hash, XcmHash};
use crate::location::{Junction, Location, LocationView};
use crate::sent::{pair_view, EncodedXcm, Pair, SentXcm};

verus! {

/// Why a message could not be sent.
#[derive(Clone, Copy, Debug, PartialEq, Eq)]
pub enum SendError {
    /// The destination is not one that this sender handles; another may.
    NotApplicable,
    /// The destination is handled, but the transport failed; routing stops.
    Transport(&'static str),
    Unroutable,
    DestinationUnsupported,
    ExceedsMaxMessageSize,
    MissingArgument,
    Fees,
}

/// Whether `dest` is full for the eight-junction sender: its interior holds
/// eight junctions (an `X8`), or it has eight junctions counting its parents.
pub open spec fn is_full_destination(dest: LocationView) -> bool {
    dest.interior.len() == 8 || dest.len() == 8
}

/// A destination is full exactly when its interior holds eight junctions or
/// its parents and interior junctions together number eight; every shorter
/// destination (the local one, a child parachain, a sibling) is not full.
pub proof fn lemma_full_destination(dest: LocationView)
    ensures
        is_full_destination(dest) <==> (dest.interior.len() == 8 || dest.parents as int
            + dest.interior.len() == 8),
        dest.interior.len() < 8 && dest.parents as int + dest.interior.len() < 8
            ==> !is_full_destination(dest),
{
}

/// The error of a sender whose destination has no room left.
pub open spec fn destination_full() -> SendError {
    SendError::Transport("Destination location full")
}

/// What validation hands to delivery: the destination and the message.
pub type Ticket = Pair;

/// The parachain that `TestPaidForPara3000SendXcm` serves.
pub open spec fn spec_para3000() -> u32 {
    3000
}

/// The amount of the local asset charged for a message to parachain 3000.
pub open spec fn spec_para3000_payment_amount() -> u128 {
    1
}

/// The price of a message to parachain 3000: one unit of the local asset.
pub open spec fn spec_para3000_payment() -> Seq<AssetView> {
    seq![AssetView::fungible(LocationView::here(), spec_para3000_payment_amount())]
}

/// The parachain that `TestPaidForPara3000SendXcm` serves.
pub fn para3000() -> (r: u32)
    ensures
        r == spec_para3000(),
{
    3000
}

/// The location of parachain 3000.
pub fn para3000_location() -> (r: Location)
    ensures
        r@ == LocationView::parachain(spec_para3000()),
        r.wf(),
{
    Location::parachain(para3000())
}

/// The amount of the local asset charged for a message to parachain 3000.
pub fn para3000_payment_amount() -> (r: u128)
    ensures
        r == spec_para3000_payment_amount(),
{
    1
}

/// The price of a message to parachain 3000: one unit of the local asset.
pub fn para3000_payment_assets() -> (r: Vec<Asset>)
    ensures
        assets_view(r@) == spec_para3000_payment(),
{
    let mut r: Vec<Asset> = Vec::new();
    r.push(Asset::fungible(Location::here(), para3000_payment_amount()));
    proof {
        assert(assets_view(r@) =~= spec_para3000_payment());
    }
    r
}

/// Whether `dest` is exactly the location of parachain 3000.
pub fn is_para3000_location(dest: &Location) -> (r: bool)
    ensures
        r == (dest@ == LocationView::parachain(spec_para3000())),
{
    if dest.parents == 0 && dest.interior.len() == 1 {
        let r = match dest.interior[0] {
            Junction::Parachain(id) => id == para3000(),
            _ => false,
        };
        proof {
            if r {
                assert(dest.interior@ =~= seq![Junction::Parachain(spec_para3000())]);
            }
        }
        r
    } else {
        proof {
            assert(LocationView::parachain(spec_para3000()).interior.len() == 1);
        }
        false
    }
}

/// Records a delivered message in the log and returns its hash.
fn record_delivery(sent: &mut SentXcm, pair: Pair) -> (r: XcmHash)
    ensures
        r@ == blake2_256_digest(pair.1@),
        final(sent)@ == old(sent)@.push(pair_view(pair)),
{
    let hash = fake_message_hash(pair.1.as_slice());
    sent.record(pair);
    hash
}

/// Sender that never returns an error.
pub struct TestSendXcm;

impl TestSendXcm {
    /// Accepts every destination, free of charge, taking the destination and
    /// the message into the ticket.
    pub fn validate(dest: &mut Option<Location>, msg: &mut Option<EncodedXcm>) -> (r: Result<
        (Ticket, Vec<Asset>),
        SendError,
    >)
        requires
            *old(dest) is Some,
            *old(msg) is Some,
        ensures
            *final(dest) is None,
            *final(msg) is None,
            r matches Ok((t, price)) && t == ((*old(dest))->Some_0, (*old(msg))->Some_0) && price@.len()
                == 0,
    {
        let pair = (dest.take().unwrap(), msg.take().unwrap());
        Ok((pair, Vec::new()))
    }

    /// Records the message in the log of sent messages and returns its hash.
    pub fn deliver(sent: &mut SentXcm, pair: Ticket) -> (r: Result<XcmHash, SendError>)
        ensures
            r matches Ok(hash) && hash@ == blake2_256_digest(pair.1@),
            final(sent)@ == old(sent)@.push(pair_view(pair)),
    {
        Ok(record_delivery(sent, pair))
    }
}

/// Sender that returns an error if the destination's interior is an `X8`
/// junction (or it has eight junctions counting its parents), and so stops
/// routing.
pub struct TestSendXcmErrX8;

impl TestSendXcmErrX8 {
    /// Takes the destination and the message; refuses with a transport error a
    /// destination whose interior holds eight junctions, or whose length with
    /// its parents is eight, and accepts any other free of charge.
    pub fn validate(dest: &mut Option<Location>, msg: &mut Option<EncodedXcm>) -> (r: Result<
        (Ticket, Vec<Asset>),
        SendError,
    >)
        requires
            *old(dest) matches Some(d) && d.wf(),
            *old(msg) is Some,
        ensures
            *final(dest) is None,
            *final(msg) is None,
            is_full_destination((*old(dest))->Some_0@) ==> r == Err::<(Ticket, Vec<Asset>), SendError>(
                destination_full(),
            ),
            !is_full_destination((*old(dest))->Some_0@) ==> (r matches Ok((t, price)) && t == (
                (*old(dest))->Some_0,
                (*old(msg))->Some_0,
            ) && price@.len() == 0),
            (*old(dest))->Some_0.interior@.len() == 8 ==> r is Err,
            (*old(dest))->Some_0.parents as int + (*old(dest))->Some_0.interior@.len() == 8 ==> r is Err,
            (*old(dest))->Some_0.interior@.len() < 8 && (*old(dest))->Some_0.parents as int
                + (*old(dest))->Some_0.interior@.len() < 8 ==> r is Ok,
    {
        let d = dest.take().unwrap();
        let m = msg.take().unwrap();
        if d.interior.len() == 8 || d.len() == 8 {
            Err(SendError::Transport("Destination location full"))
        } else {
            Ok(((d, m), Vec::new()))
        }
    }

    /// Records the message in the log of sent messages and returns its hash.
    pub fn deliver(sent: &mut SentXcm, pair: Ticket) -> (r: Result<XcmHash, SendError>)
        ensures
            r matches Ok(hash) && hash@ == blake2_256_digest(pair.1@),
            final(sent)@ == old(sent)@.push(pair_view(pair)),
    {
        Ok(record_delivery(sent, pair))
    }
}

/// Sender that only sends to the `Parachain(3000)` destination, and charges
/// for it.
pub struct TestPaidForPara3000SendXcm;

impl TestPaidForPara3000SendXcm {
    /// Accepts only the location of parachain 3000, at the price of one unit of
    /// the local asset, taking the destination and the message; anything else,
    /// a missing destination included, is not applicable and is left untouched.
    pub fn validate(dest: &mut Option<Location>, msg: &mut Option<EncodedXcm>) -> (r: Result<
        (Ticket, Vec<Asset>),
        SendError,
    >)
        requires
            *old(dest) matches Some(d) && d@ == LocationView::parachain(spec_para3000()) ==> *old(msg) is Some,
        ensures
            *old(dest) matches Some(d) && d@ == LocationView::parachain(spec_para3000()) ==> {
                &&& *final(dest) is None
                &&& *final(msg) is None
                &&& r matches Ok((t, price)) && t == ((*old(dest))->Some_0, (*old(msg))->Some_0)
                    && assets_view(price@) == spec_para3000_payment()
            },
            !(*old(dest) matches Some(d) && d@ == LocationView::parachain(spec_para3000())) ==> {
                &&& *final(dest) == *old(dest)
                &&& *final(msg) == *old(msg)
                &&& r == Err::<(Ticket, Vec<Asset>), SendError>(SendError::NotApplicable)
            },
    {
        let applicable = match dest.as_ref() {
            Some(d) => is_para3000_location(d),
            None => false,
        };
        if !applicable {
            return Err(SendError::NotApplicable);
        }
        let pair = (dest.take().unwrap(), msg.take().unwrap());
        Ok((pair, para3000_payment_assets()))
    }

    /// Records the message in the log of sent messages and returns its hash.
    pub fn deliver(sent: &mut SentXcm, pair: Ticket) -> (r: Result<XcmHash, SendError>)
        ensures
            r matches Ok(hash) && hash@ == blake2_256_digest(pair.1@),
            final(sent)@ == old(sent)@.push(pair_view(pair)),
    {
        Ok(record_delivery(sent, pair))
    }
}

} // verus!
