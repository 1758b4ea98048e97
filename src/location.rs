use vstd::prelude::*;

verus! {

/// One step of a location path.
#[derive(Clone, Debug, PartialEq, Eq)]
pub enum Junction {
    /// A chain identified by its parachain number.
    Parachain(u32),
    /// A 32-byte account.
    AccountId32 { id: [u8; 32] },
    /// A named key.
    GeneralKey(Vec<u8>),
    /// An indexed key.
    GeneralIndex(u128),
}

/// The mathematical value of a [`Junction`].
pub enum JunctionView {
    Parachain(u32),
    AccountId32 { id: Seq<u8> },
    GeneralKey(Seq<u8>),
    GeneralIndex(u128),
}

impl View for Junction {
    type V = JunctionView;

    open spec fn view(&self) -> JunctionView {
        match self {
            Junction::Parachain(n) => JunctionView::Parachain(*n),
            Junction::AccountId32 { id } => JunctionView::AccountId32 { id: id@ },
            Junction::GeneralKey(k) => JunctionView::GeneralKey(k@),
            Junction::GeneralIndex(i) => JunctionView::GeneralIndex(*i),
        }
    }
}

/// A path relative to the local root: go up `parents` levels, then down
/// through `interior`.
#[derive(Clone, Debug, PartialEq, Eq)]
pub struct Location {
    pub parents: u8,
    pub interior: Vec<Junction>,
}

/// The mathematical value of a [`Location`].
pub struct LocationView {
    pub parents: u8,
    pub interior: Seq<JunctionView>,
}

impl View for Location {
    type V = LocationView;

    open spec fn view(&self) -> LocationView {
        LocationView { parents: self.parents, interior: self.interior@.map_values(|j: Junction| j@) }
    }
}

/// The named key under which assets in transit are held: the bytes of
/// `bridge_transfer`.
pub open spec fn custody_key() -> Seq<u8> {
    seq![
        98u8, 114u8, 105u8, 100u8, 103u8, 101u8, 95u8, 116u8, 114u8, 97u8, 110u8, 115u8, 102u8,
        101u8, 114u8,
    ]
}

/// The custody location: no hop up, then the custody key.
pub open spec fn custody_location_spec() -> LocationView {
    LocationView { parents: 0, interior: seq![JunctionView::GeneralKey(custody_key())] }
}

/// The local location of a 32-byte account.
pub open spec fn account_location_spec(id: Seq<u8>) -> LocationView {
    LocationView { parents: 0, interior: seq![JunctionView::AccountId32 { id }] }
}

impl Location {
    /// The location `parents` levels up, then down through `interior`.
    pub fn new(parents: u8, interior: Vec<Junction>) -> (r: Location)
        ensures
            r.parents == parents,
            r.interior@ == interior@,
    {
        Location { parents, interior }
    }

    /// The local root itself.
    pub fn here() -> (r: Location)
        ensures
            r@ == (LocationView { parents: 0, interior: Seq::empty() }),
    {
        let r = Location { parents: 0, interior: Vec::new() };
        assert(r@.interior =~= Seq::empty());
        r
    }

    /// The fixed location that holds assets while they are relayed onward.
    ///
    /// It depends on nothing: every call yields the same location.
    pub fn custody() -> (r: Location)
        ensures
            r@ == custody_location_spec(),
    {
        let key: Vec<u8> = vec![98u8, 114, 105, 100, 103, 101, 95, 116, 114, 97, 110, 115, 102, 101, 114];
        let mut interior: Vec<Junction> = Vec::new();
        interior.push(Junction::GeneralKey(key));
        let r = Location { parents: 0, interior };
        assert(key@ =~= custody_key());
        assert(r@.interior =~= custody_location_spec().interior);
        r
    }

    /// The local location of the account `id`.
    pub fn account(id: [u8; 32]) -> (r: Location)
        ensures
            r@ == account_location_spec(id@),
    {
        let mut interior: Vec<Junction> = Vec::new();
        interior.push(Junction::AccountId32 { id });
        let r = Location { parents: 0, interior };
        assert(r@.interior =~= account_location_spec(id@).interior);
        r
    }
}

} // verus!
