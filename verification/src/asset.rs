use vstd::prelude::*;

use crate::location::{Location, LocationView};

verus! {

/// The identity of a single non-fungible asset within its class.
#[derive(Clone, Copy, Debug, PartialEq, Eq)]
pub enum AssetInstance {
    Undefined,
    Index(u128),
    Array4([u8; 4]),
    Array8([u8; 8]),
    Array16([u8; 16]),
    Array32([u8; 32]),
}

/// How much of an asset: an amount of a fungible one, or one instance.
#[derive(Clone, Copy, Debug, PartialEq, Eq)]
pub enum Fungibility {
    Fungible(u128),
    NonFungible(AssetInstance),
}

/// The class of an asset: by the location that defines it, or by an abstract name.
#[derive(Debug, PartialEq, Eq)]
pub enum AssetId {
    Concrete(Location),
    Abstract([u8; 32]),
}

/// The mathematical value of an `AssetId`.
pub enum AssetIdView {
    Concrete(LocationView),
    Abstract([u8; 32]),
}

/// An amount of some asset.
#[derive(Debug, PartialEq, Eq)]
pub struct Asset {
    pub id: AssetId,
    pub fun: Fungibility,
}

/// The mathematical value of an `Asset`.
pub struct AssetView {
    pub id: AssetIdView,
    pub fun: Fungibility,
}

impl View for AssetId {
    type V = AssetIdView;

    open spec fn view(&self) -> AssetIdView {
        match self {
            AssetId::Concrete(l) => AssetIdView::Concrete(l@),
            AssetId::Abstract(a) => AssetIdView::Abstract(*a),
        }
    }
}

impl View for Asset {
    type V = AssetView;

    open spec fn view(&self) -> AssetView {
        AssetView { id: self.id@, fun: self.fun }
    }
}

/// The values of a sequence of assets.
pub open spec fn assets_view(assets: Seq<Asset>) -> Seq<AssetView> {
    assets.map_values(|a: Asset| a@)
}

impl AssetView {
    /// `amount` of the fungible asset defined by `location`.
    pub open spec fn fungible(location: LocationView, amount: u128) -> AssetView {
        AssetView { id: AssetIdView::Concrete(location), fun: Fungibility::Fungible(amount) }
    }
}

impl Asset {
    /// `amount` of the fungible asset defined by `location`.
    pub fn fungible(location: Location, amount: u128) -> (r: Asset)
        ensures
            r@ == AssetView::fungible(location@, amount),
    {
        Asset { id: AssetId::Concrete(location), fun: Fungibility::Fungible(amount) }
    }
}

} // verus!
