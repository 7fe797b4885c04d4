use vstd::prelude::*;

verus! {

/// The most interior junctions that a location can hold (`X8`).
pub const MAX_INTERIOR: usize = 8;

/// A global identifier of a consensus system.
#[derive(Clone, Copy, Debug, PartialEq, Eq)]
pub enum NetworkId {
    ByGenesis([u8; 32]),
    ByFork { block_number: u64, block_hash: [u8; 32] },
    Polkadot,
    Kusama,
    Westend,
    Rococo,
    Wococo,
    Ethereum { chain_id: u64 },
    BitcoinCore,
    BitcoinCash,
}

/// An identifier of a pluralistic body.
#[derive(Clone, Copy, Debug, PartialEq, Eq)]
pub enum BodyId {
    Unit,
    Moniker([u8; 4]),
    Index(u32),
    Executive,
    Technical,
    Legislative,
    Judicial,
    Defense,
    Administration,
    Treasury,
}

/// A part of a pluralistic body.
#[derive(Clone, Copy, Debug, PartialEq, Eq)]
pub enum BodyPart {
    Voice,
    Members { count: u32 },
    Fraction { nom: u32, denom: u32 },
    AtLeastProportion { nom: u32, denom: u32 },
    MoreThanProportion { nom: u32, denom: u32 },
}

/// One step of a relative path between consensus systems.
#[allow(inconsistent_fields)]
#[derive(Clone, Copy, Debug, PartialEq, Eq)]
pub enum Junction {
    Parachain(u32),
    AccountId32 { network: Option<NetworkId>, id: [u8; 32] },
    AccountIndex64 { network: Option<NetworkId>, index: u64 },
    AccountKey20 { network: Option<NetworkId>, key: [u8; 20] },
    PalletInstance(u8),
    GeneralIndex(u128),
    GeneralKey { length: u8, data: [u8; 32] },
    OnlyChild,
    Plurality { id: BodyId, part: BodyPart },
    GlobalConsensus(NetworkId),
}

/// A relative location: `parents` steps up, then the `interior` junctions down.
/// A well-formed location has at most `MAX_INTERIOR` interior junctions.
#[derive(Debug, PartialEq, Eq)]
pub struct Location {
    pub parents: u8,
    pub interior: Vec<Junction>,
}

/// The mathematical value of a `Location`.
pub struct LocationView {
    pub parents: u8,
    pub interior: Seq<Junction>,
}

impl LocationView {
    /// The number of junctions, parents included.
    pub open spec fn len(self) -> nat {
        self.parents as nat + self.interior.len()
    }

    pub open spec fn wf(self) -> bool {
        self.interior.len() <= MAX_INTERIOR
    }

    /// The location of the local consensus system.
    pub open spec fn here() -> LocationView {
        LocationView { parents: 0, interior: Seq::empty() }
    }

    /// The location of child parachain `id`.
    pub open spec fn parachain(id: u32) -> LocationView {
        LocationView { parents: 0, interior: seq![Junction::Parachain(id)] }
    }
}

impl View for Location {
    type V = LocationView;

    open spec fn view(&self) -> LocationView {
        LocationView { parents: self.parents, interior: self.interior@ }
    }
}

impl Location {
    pub open spec fn wf(&self) -> bool {
        self@.wf()
    }

    /// The location of the local consensus system.
    pub fn here() -> (r: Location)
        ensures
            r@ == LocationView::here(),
            r.wf(),
    {
        Location { parents: 0, interior: Vec::new() }
    }

    /// The location of child parachain `id`.
    pub fn parachain(id: u32) -> (r: Location)
        ensures
            r@ == LocationView::parachain(id),
            r.wf(),
    {
        let mut interior: Vec<Junction> = Vec::new();
        interior.push(Junction::Parachain(id));
        proof {
            assert(interior@ =~= seq![Junction::Parachain(id)]);
        }
        Location { parents: 0, interior }
    }

    /// The number of junctions, parents included.
    pub fn len(&self) -> (r: usize)
        requires
            self.wf(),
        ensures
            r == self@.len(),
    {
        self.parents as usize + self.interior.len()
    }

    /// A copy of this location.
    pub fn duplicate(&self) -> (r: Location)
        ensures
            r@ == self@,
    {
        let mut interior: Vec<Junction> = Vec::new();
        let n = self.interior.len();
        for i in 0..n
            invariant
                n == self.interior@.len(),
                interior@ =~= self.interior@.take(i as int),
        {
            interior.push(self.interior[i]);
        }
        proof {
            assert(self.interior@.take(n as int) =~= self.interior@);
        }
        Location { parents: self.parents, interior }
    }
}

} // verus!
