use vstd::prelude::*;
use crate::location::{Location, LocationView};

verus! {

/// How an asset is identified.
#[derive(Clone, Debug, PartialEq, Eq)]
pub enum AssetId {
    /// By its canonical location.
    Concrete(Location),
    /// By an opaque identifier.
    Abstract(Vec<u8>),
}

/// How much of an asset is moved.
#[derive(Clone, Copy, Debug, PartialEq, Eq)]
pub enum Fungibility {
    /// An amount of a fungible asset.
    Fungible(u128),
    /// One instance of a non-fungible asset.
    NonFungible(u128),
}

/// An asset together with the quantity that is moved.
#[derive(Clone, Debug, PartialEq, Eq)]
pub struct Asset {
    pub id: AssetId,
    pub fun: Fungibility,
}

/// The mathematical value of an [`AssetId`].
pub enum AssetIdView {
    Concrete(LocationView),
    Abstract(Seq<u8>),
}

/// The mathematical value of an [`Asset`].
pub struct AssetView {
    pub id: AssetIdView,
    pub fun: Fungibility,
}

impl View for AssetId {
    type V = AssetIdView;

    open spec fn view(&self) -> AssetIdView {
        match self {
            AssetId::Concrete(l) => AssetIdView::Concrete(l@),
            AssetId::Abstract(b) => AssetIdView::Abstract(b@),
        }
    }
}

impl View for Asset {
    type V = AssetView;

    open spec fn view(&self) -> AssetView {
        AssetView { id: self.id@, fun: self.fun }
    }
}

/// The backend operation that moves an asset.
#[derive(Clone, Copy, Debug, PartialEq, Eq)]
pub enum AssetClass {
    Fungible,
    NonFungible,
}

/// The class of an asset, if it can be routed: only concretely identified
/// assets can.
pub open spec fn class_of(a: AssetView) -> Option<AssetClass> {
    match (a.fun, a.id) {
        (Fungibility::Fungible(_), AssetIdView::Concrete(_)) => Some(AssetClass::Fungible),
        (Fungibility::NonFungible(_), AssetIdView::Concrete(_)) => Some(AssetClass::NonFungible),
        _ => None,
    }
}

impl Asset {
    /// The asset `id` in quantity `fun`.
    pub fn new(id: AssetId, fun: Fungibility) -> (r: Asset)
        ensures
            r@ == (AssetView { id: id@, fun }),
    {
        Asset { id, fun }
    }

    /// Classifies the asset by how it is identified and how much of it moves.
    pub fn class(&self) -> (r: Option<AssetClass>)
        ensures
            r == class_of(self@),
    {
        match (&self.fun, &self.id) {
            (Fungibility::Fungible(_), AssetId::Concrete(_)) => Some(AssetClass::Fungible),
            (Fungibility::NonFungible(_), AssetId::Concrete(_)) => Some(AssetClass::NonFungible),
            _ => None,
        }
    }
}

} // verus!
