use vstd::prelude::*;

use crate::asset::{Asset, AssetView};
use crate::location::{Junction, Location, LocationView};
use crate::router::{route_outcome, Sender};
use crate::senders::{destination_full, is_full_destination, spec_para3000, spec_para3000_payment, SendError};

verus! {

/// The senders of the XCM pallet's router, in the order tried: the one that
/// fails full destinations (an `X8` interior, or eight junctions with the
/// parents) and accepts all others, the one paid for parachain 3000, and the
/// one that takes everything.
pub open spec fn spec_xcm_router() -> Seq<Sender> {
    seq![Sender::TestSendXcmErrX8, Sender::TestPaidForPara3000SendXcm, Sender::TestSendXcm]
}

/// The senders of the XCM executor, in the order tried: the one paid for
/// parachain 3000, then the one that takes everything.
pub open spec fn spec_xcm_sender() -> Seq<Sender> {
    seq![Sender::TestPaidForPara3000SendXcm, Sender::TestSendXcm]
}

/// The router of the XCM pallet.
pub fn xcm_router() -> (r: Vec<Sender>)
    ensures
        r@ == spec_xcm_router(),
{
    let mut r: Vec<Sender> = Vec::new();
    r.push(Sender::TestSendXcmErrX8);
    r.push(Sender::TestPaidForPara3000SendXcm);
    r.push(Sender::TestSendXcm);
    proof {
        assert(r@ =~= spec_xcm_router());
    }
    r
}

/// Whether every byte of `id` is 37, the account whose fees are not waived.
pub open spec fn is_fees_not_waived_account(id: [u8; 32]) -> bool {
    forall|i: int| 0 <= i < 32 ==> #[trigger] id@[i] == 37u8
}

/// The account whose fees are not waived is exactly the one of 32 bytes of
/// 37: no other account is taken for it, and no two differ.
pub proof fn lemma_fees_not_waived_account(id: [u8; 32], other: [u8; 32])
    ensures
        is_fees_not_waived_account(id) <==> id@ =~= Seq::new(32, |i: int| 37u8),
        is_fees_not_waived_account(id) && is_fees_not_waived_account(other) ==> id == other,
{
    broadcast use vstd::array::group_array_axioms;

    if is_fees_not_waived_account(id) && is_fees_not_waived_account(other) {
        assert(id =~= other);
    }
    if id@ =~= Seq::new(32, |i: int| 37u8) {
        assert forall|i: int| 0 <= i < 32 implies #[trigger] id@[i] == 37u8 by {
            assert(id@[i] == Seq::new(32, |j: int| 37u8)[i]);
        }
    }
}

/// Whether `loc` is the one location whose XCM fees are not waived: the local
/// account (no network) whose 32 bytes are all 37.
pub open spec fn spec_fees_not_waived(loc: LocationView) -> bool {
    &&& loc.parents == 0
    &&& loc.interior.len() == 1
    &&& loc.interior[0] matches Junction::AccountId32 { network: None, id }
    &&& is_fees_not_waived_account(id)
}

/// The account whose XCM fees are not waived: 32 bytes of 37.
pub fn xcm_fees_not_waived_user_account() -> (r: [u8; 32])
    ensures
        is_fees_not_waived_account(r),
        r@ == Seq::new(32, |i: int| 37u8),
{
    let r = [37u8; 32];
    r
}

/// Whether every byte of `id` is 37.
fn is_all_37(id: &[u8; 32]) -> (r: bool)
    ensures
        r == is_fees_not_waived_account(*id),
{
    let mut i: usize = 0;
    while i < 32
        invariant
            i <= 32,
            forall|j: int| 0 <= j < i ==> #[trigger] id@[j] == 37u8,
        decreases 32 - i,
    {
        if id[i] != 37 {
            return false;
        }
        i = i + 1;
    }
    true
}

/// The configuration of the XCM executor.
pub struct XcmConfig;

impl XcmConfig {
    /// The executor's senders.
    pub fn xcm_sender() -> (r: Vec<Sender>)
        ensures
            r@ == spec_xcm_sender(),
    {
        let mut r: Vec<Sender> = Vec::new();
        r.push(Sender::TestPaidForPara3000SendXcm);
        r.push(Sender::TestSendXcm);
        proof {
            assert(r@ =~= spec_xcm_sender());
        }
        r
    }

    /// Whether `loc` is the location whose fees are not waived.
    pub fn fees_not_waived(loc: &Location) -> (r: bool)
        ensures
            r == spec_fees_not_waived(loc@),
    {
        if loc.parents != 0 || loc.interior.len() != 1 {
            return false;
        }
        match loc.interior[0] {
            Junction::AccountId32 { network: None, id } => {
                proof {
                    assert(loc@.interior[0] == loc.interior[0]);
                }
                is_all_37(&id)
            },
            _ => false,
        }
    }

    /// Whether the executor waives the fees of `loc`: for every location but
    /// the one whose fees are not waived.
    pub fn fees_waived(loc: &Location) -> (r: bool)
        ensures
            r == !spec_fees_not_waived(loc@),
    {
        !Self::fees_not_waived(loc)
    }
}

/// The pallet's router refuses with a transport error a destination whose
/// interior is an `X8` junction, or whose length with its parents is eight, and sends every other destination, parachain 3000
/// included, free of charge through its first sender, which takes them all.
pub proof fn lemma_xcm_router_outcome(dest: LocationView)
    ensures
        route_outcome(spec_xcm_router(), dest, 0) == if is_full_destination(dest) {
            Err::<(nat, Seq<AssetView>), SendError>(destination_full())
        } else {
            Ok::<(nat, Seq<AssetView>), SendError>((0nat, Seq::empty()))
        },
{
    reveal_with_fuel(route_outcome, 2);
}

/// The executor's senders never fail: parachain 3000 is charged one unit of the
/// local asset, and anything else is sent free of charge.
pub proof fn lemma_xcm_sender_outcome(dest: LocationView)
    ensures
        route_outcome(spec_xcm_sender(), dest, 0) == if dest == LocationView::parachain(
            spec_para3000(),
        ) {
            Ok::<(nat, Seq<AssetView>), SendError>((0nat, spec_para3000_payment()))
        } else {
            Ok::<(nat, Seq<AssetView>), SendError>((1nat, Seq::empty()))
        },
{
    reveal_with_fuel(route_outcome, 3);
}

/// The limit on the weight that buying execution may use.
#[derive(Clone, Copy, Debug, PartialEq, Eq)]
pub enum WeightLimit {
    Unlimited,
    Limited(Weight),
}

/// Execution weight: computation time and proof size.
#[derive(Clone, Copy, Debug, PartialEq, Eq)]
pub struct Weight {
    pub ref_time: u64,
    pub proof_size: u64,
}

/// The instruction that pays `fees` for execution up to `weight_limit`.
#[derive(Debug, PartialEq, Eq)]
pub struct BuyExecution {
    pub fees: Asset,
    pub weight_limit: WeightLimit,
}

/// Buys unlimited execution with `fees`.
pub fn buy_execution(fees: Asset) -> (r: BuyExecution)
    ensures
        r.fees == fees,
        r.weight_limit == WeightLimit::Unlimited,
{
    BuyExecution { fees, weight_limit: WeightLimit::Unlimited }
}

/// Buys execution up to `weight` with `fees`.
pub fn buy_limited_execution(fees: Asset, weight: Weight) -> (r: BuyExecution)
    ensures
        r.fees == fees,
        r.weight_limit == WeightLimit::Limited(weight),
{
    BuyExecution { fees, weight_limit: WeightLimit::Limited(weight) }
}

} // verus!
