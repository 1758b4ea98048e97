use vstd::prelude::*;
use crate::asset::{class_of, Asset, AssetClass, AssetView};
use crate::location::{account_location_spec, custody_location_spec, Location, LocationView};

verus! {

/// The weight reserved on the destination for a relayed hop: it does not
/// inherit the weight that the first caller asked for.
pub const FORWARD_DEST_WEIGHT: u64 = 6_000_000_000;

/// A record of an asset crossing the boundary of this chain.
#[derive(Clone, Debug, PartialEq, Eq)]
pub enum Event {
    /// Assets being withdrawn from somewhere.
    Withdrawn { what: Asset, who: Location, memo: Vec<u8> },
    /// Assets being deposited to somewhere.
    Deposited { what: Asset, who: Location, memo: Vec<u8> },
    /// Assets being forwarded to somewhere.
    Forwarded { what: Asset, who: Location, memo: Vec<u8> },
}

/// The failures this module raises itself.
#[derive(Clone, Copy, Debug, PartialEq, Eq)]
pub enum Error {
    /// A backend could not carry out the movement.
    TransactFailed,
    /// The asset is neither a concrete fungible nor a concrete non-fungible.
    UnknownAsset,
    /// No backend can reach the destination.
    UnsupportedDest,
    /// No backend took the request.
    UnhandledTransfer,
}

/// Why a request failed.
#[derive(Clone, Copy, Debug, PartialEq, Eq)]
pub enum DispatchError {
    /// The request was not signed by an account.
    BadOrigin,
    /// A failure raised by this module.
    XTransfer(Error),
    /// A failure raised by a backend, by its own code; passed on unchanged.
    Bridge(u32),
}

/// Who submitted a request.
#[derive(Clone, Copy, Debug, PartialEq, Eq)]
pub enum Origin {
    Root,
    Signed([u8; 32]),
    Unsigned,
}

/// A mechanism that moves assets or payloads towards a destination.
///
/// A backend is a value: a transfer that succeeds yields the backend's state
/// after the movement, and one that fails leaves the old state as it was.
/// While it works, a backend announces withdrawals, deposits and relays
/// through the hooks of the [`Pallet`] it is given; the events it appends,
/// whether it succeeds or fails, are a function of its state and the request.
pub trait BridgeTransact: Sized {
    /// What moving the fungible asset `what` from `sender` to `dest` yields.
    spec fn fungible_outcome(
        &self,
        sender: LocationView,
        what: AssetView,
        dest: LocationView,
        dest_weight: Option<u64>,
    ) -> Result<Self, DispatchError>;

    /// What moving the non-fungible asset `what` from `sender` to `dest` yields.
    spec fn nonfungible_outcome(
        &self,
        sender: LocationView,
        what: AssetView,
        dest: LocationView,
        dest_weight: Option<u64>,
    ) -> Result<Self, DispatchError>;

    /// What sending the payload `data` from `sender` to `dest` yields.
    spec fn generic_outcome(
        &self,
        sender: LocationView,
        data: Vec<u8>,
        dest: LocationView,
        dest_weight: Option<u64>,
    ) -> Result<Self, DispatchError>;

    /// The events that moving the fungible asset `what` appends.
    spec fn fungible_events(
        &self,
        sender: LocationView,
        what: AssetView,
        dest: LocationView,
        dest_weight: Option<u64>,
    ) -> Vec<Event>;

    /// The events that moving the non-fungible asset `what` appends.
    spec fn nonfungible_events(
        &self,
        sender: LocationView,
        what: AssetView,
        dest: LocationView,
        dest_weight: Option<u64>,
    ) -> Vec<Event>;

    /// The events that sending the payload `data` appends.
    spec fn generic_events(
        &self,
        sender: LocationView,
        data: Vec<u8>,
        dest: LocationView,
        dest_weight: Option<u64>,
    ) -> Vec<Event>;

    /// Moves the fungible asset `what` from `sender` to `dest`.
    fn transfer_fungible(
        &self,
        hooks: &mut Pallet,
        sender: &Location,
        what: &Asset,
        dest: &Location,
        dest_weight: Option<u64>,
    ) -> (r: Result<Self, DispatchError>)
        ensures
            r == self.fungible_outcome(sender@, what@, dest@, dest_weight),
            final(hooks).events@ == old(hooks).events@ + self.fungible_events(
                sender@,
                what@,
                dest@,
                dest_weight,
            )@,
    ;

    /// Moves the non-fungible asset `what` from `sender` to `dest`.
    fn transfer_nonfungible(
        &self,
        hooks: &mut Pallet,
        sender: &Location,
        what: &Asset,
        dest: &Location,
        dest_weight: Option<u64>,
    ) -> (r: Result<Self, DispatchError>)
        ensures
            r == self.nonfungible_outcome(sender@, what@, dest@, dest_weight),
            final(hooks).events@ == old(hooks).events@ + self.nonfungible_events(
                sender@,
                what@,
                dest@,
                dest_weight,
            )@,
    ;

    /// Sends the opaque payload `data` from `sender` to `dest`.
    fn transfer_generic(
        &self,
        hooks: &mut Pallet,
        sender: &Location,
        data: &Vec<u8>,
        dest: &Location,
        dest_weight: Option<u64>,
    ) -> (r: Result<Self, DispatchError>)
        ensures
            r == self.generic_outcome(sender@, *data, dest@, dest_weight),
            final(hooks).events@ == old(hooks).events@ + self.generic_events(
                sender@,
                *data,
                dest@,
                dest_weight,
            )@,
    ;
}

/// What dispatching `what` from `sender` to `dest` yields: the matching
/// backend operation for a routable asset, `UnknownAsset` for any other.
pub open spec fn dispatch_outcome<B: BridgeTransact>(
    bridge: B,
    sender: LocationView,
    what: AssetView,
    dest: LocationView,
    dest_weight: Option<u64>,
) -> Result<B, DispatchError> {
    match class_of(what) {
        Some(AssetClass::Fungible) => bridge.fungible_outcome(sender, what, dest, dest_weight),
        Some(AssetClass::NonFungible) => bridge.nonfungible_outcome(sender, what, dest, dest_weight),
        None => Err(DispatchError::XTransfer(Error::UnknownAsset)),
    }
}

/// The events that dispatching `what` from `sender` to `dest` appends: those
/// of the backend operation that fits its class, none for any other asset.
pub open spec fn dispatch_events<B: BridgeTransact>(
    bridge: B,
    sender: LocationView,
    what: AssetView,
    dest: LocationView,
    dest_weight: Option<u64>,
) -> Seq<Event> {
    match class_of(what) {
        Some(AssetClass::Fungible) => bridge.fungible_events(sender, what, dest, dest_weight)@,
        Some(AssetClass::NonFungible) => bridge.nonfungible_events(sender, what, dest, dest_weight)@,
        None => Seq::empty(),
    }
}

/// The events that a request to move `what` from `origin` to `dest`
/// appends when it succeeds.
pub open spec fn transfer_events<B: BridgeTransact>(
    bridge: B,
    origin: Origin,
    what: AssetView,
    dest: LocationView,
    dest_weight: Option<u64>,
) -> Seq<Event> {
    match origin {
        Origin::Signed(id) => dispatch_events(bridge, account_location_spec(id@), what, dest, dest_weight),
        _ => Seq::empty(),
    }
}

/// The events that a request to send `data` from `origin` to `dest`
/// appends when it succeeds.
pub open spec fn transfer_generic_events<B: BridgeTransact>(
    bridge: B,
    origin: Origin,
    data: Vec<u8>,
    dest: LocationView,
    dest_weight: Option<u64>,
) -> Seq<Event> {
    match origin {
        Origin::Signed(id) => bridge.generic_events(account_location_spec(id@), data, dest, dest_weight)@,
        _ => Seq::empty(),
    }
}

/// What a request to move `what` from `origin` to `dest` yields.
pub open spec fn transfer_outcome<B: BridgeTransact>(
    bridge: B,
    origin: Origin,
    what: AssetView,
    dest: LocationView,
    dest_weight: Option<u64>,
) -> Result<B, DispatchError> {
    match origin {
        Origin::Signed(id) => dispatch_outcome(bridge, account_location_spec(id@), what, dest, dest_weight),
        _ => Err(DispatchError::BadOrigin),
    }
}

/// What a request to send the payload `data` from `origin` to `dest` yields.
pub open spec fn transfer_generic_outcome<B: BridgeTransact>(
    bridge: B,
    origin: Origin,
    data: Vec<u8>,
    dest: LocationView,
    dest_weight: Option<u64>,
) -> Result<B, DispatchError> {
    match origin {
        Origin::Signed(id) => bridge.generic_outcome(account_location_spec(id@), data, dest, dest_weight),
        _ => Err(DispatchError::BadOrigin),
    }
}

/// The transfer dispatcher and its event log.
pub struct Pallet {
    /// Every event emitted so far, oldest first.
    pub events: Vec<Event>,
}

/// The account that signed `origin`.
fn ensure_signed(origin: Origin) -> (r: Result<[u8; 32], DispatchError>)
    ensures
        r == match origin {
            Origin::Signed(id) => Ok::<[u8; 32], DispatchError>(id),
            _ => Err(DispatchError::BadOrigin),
        },
{
    match origin {
        Origin::Signed(id) => Ok(id),
        _ => Err(DispatchError::BadOrigin),
    }
}

impl Pallet {
    /// A dispatcher that has emitted nothing yet.
    pub fn new() -> (r: Pallet)
        ensures
            r.events@ == Seq::<Event>::empty(),
    {
        Pallet { events: Vec::new() }
    }

    /// Moves `what` from `sender` to `dest` through the backend that fits
    /// its class; an asset that is not concretely identified is refused as
    /// `UnknownAsset` before any backend is consulted.
    pub fn do_transfer<B: BridgeTransact>(
        &mut self,
        bridge: &B,
        sender: &Location,
        what: &Asset,
        dest: &Location,
        dest_weight: Option<u64>,
    ) -> (r: Result<B, DispatchError>)
        ensures
            r == dispatch_outcome(*bridge, sender@, what@, dest@, dest_weight),
            final(self).events@ == old(self).events@ + dispatch_events(
                *bridge,
                sender@,
                what@,
                dest@,
                dest_weight,
            ),
            class_of(what@) is None ==> r == Err::<B, DispatchError>(
                DispatchError::XTransfer(Error::UnknownAsset),
            ) && final(self).events@ == old(self).events@,
    {
        match what.class() {
            Some(AssetClass::Fungible) => bridge.transfer_fungible(self, sender, what, dest, dest_weight),
            Some(AssetClass::NonFungible) => bridge.transfer_nonfungible(self, sender, what, dest, dest_weight),
            None => {
                proof {
                    assert(self.events@ =~= self.events@ + Seq::<Event>::empty());
                }
                Err(DispatchError::XTransfer(Error::UnknownAsset))
            },
        }
    }

    /// Sends the opaque payload `data` from `sender` to `dest`.
    pub fn do_transfer_generic<B: BridgeTransact>(
        &mut self,
        bridge: &B,
        sender: &Location,
        data: &Vec<u8>,
        dest: &Location,
        dest_weight: Option<u64>,
    ) -> (r: Result<B, DispatchError>)
        ensures
            r == bridge.generic_outcome(sender@, *data, dest@, dest_weight),
            final(self).events@ == old(self).events@ + bridge.generic_events(
                sender@,
                *data,
                dest@,
                dest_weight,
            )@,
    {
        bridge.transfer_generic(self, sender, data, dest, dest_weight)
    }

    /// Moves `what` from the account that signed `origin` to `dest`, all or
    /// nothing: on failure neither the backend's state nor the event log
    /// changes.
    pub fn transfer<B: BridgeTransact>(
        &mut self,
        bridge: &mut B,
        origin: Origin,
        asset: Asset,
        dest: Location,
        dest_weight: Option<u64>,
    ) -> (r: Result<(), DispatchError>)
        ensures
            match transfer_outcome(*old(bridge), origin, asset@, dest@, dest_weight) {
                Ok(next) => r is Ok && *final(bridge) == next && final(self).events@ == old(
                    self,
                ).events@ + transfer_events(*old(bridge), origin, asset@, dest@, dest_weight),
                Err(e) => r == Err::<(), DispatchError>(e) && *final(bridge) == *old(bridge)
                    && final(self).events@ == old(self).events@,
            },
    {
        let id = match ensure_signed(origin) {
            Ok(id) => id,
            Err(e) => return Err(e),
        };
        let sender = Location::account(id);
        let mark = self.events.len();
        match self.do_transfer(&*bridge, &sender, &asset, &dest, dest_weight) {
            Ok(next) => {
                *bridge = next;
                Ok(())
            },
            Err(e) => {
                self.events.truncate(mark);
                Err(e)
            },
        }
    }

    /// Sends the payload `data` from the account that signed `origin` to
    /// `dest`, all or nothing: on failure neither the backend's state nor the
    /// event log changes.
    pub fn transfer_generic<B: BridgeTransact>(
        &mut self,
        bridge: &mut B,
        origin: Origin,
        data: Vec<u8>,
        dest: Location,
        dest_weight: Option<u64>,
    ) -> (r: Result<(), DispatchError>)
        ensures
            match transfer_generic_outcome(*old(bridge), origin, data, dest@, dest_weight) {
                Ok(next) => r is Ok && *final(bridge) == next && final(self).events@ == old(
                    self,
                ).events@ + transfer_generic_events(*old(bridge), origin, data, dest@, dest_weight),
                Err(e) => r == Err::<(), DispatchError>(e) && *final(bridge) == *old(bridge)
                    && final(self).events@ == old(self).events@,
            },
    {
        let id = match ensure_signed(origin) {
            Ok(id) => id,
            Err(e) => return Err(e),
        };
        let sender = Location::account(id);
        let mark = self.events.len();
        match self.do_transfer_generic(&*bridge, &sender, &data, &dest, dest_weight) {
            Ok(next) => {
                *bridge = next;
                Ok(())
            },
            Err(e) => {
                self.events.truncate(mark);
                Err(e)
            },
        }
    }

    /// Records that `what` was withdrawn from `who`.
    pub fn on_withdrawn(&mut self, what: Asset, who: Location, memo: Vec<u8>) -> (r: Result<(), DispatchError>)
        ensures
            r is Ok,
            final(self).events@ == old(self).events@.push(Event::Withdrawn { what, who, memo }),
    {
        self.events.push(Event::Withdrawn { what, who, memo });
        Ok(())
    }

    /// Records that `what` was deposited to `who`.
    pub fn on_deposited(&mut self, what: Asset, who: Location, memo: Vec<u8>) -> (r: Result<(), DispatchError>)
        ensures
            r is Ok,
            final(self).events@ == old(self).events@.push(Event::Deposited { what, who, memo }),
    {
        self.events.push(Event::Deposited { what, who, memo });
        Ok(())
    }

    /// Sends `what`, which the custody location already holds, on to its
    /// final destination `who`, with the fixed relay weight. On success the
    /// relay is recorded first, then the events of the onward transfer; on
    /// failure nothing is recorded.
    pub fn on_forwarded<B: BridgeTransact>(
        &mut self,
        bridge: &B,
        what: Asset,
        who: Location,
        memo: Vec<u8>,
    ) -> (r: Result<B, DispatchError>)
        ensures
            r == dispatch_outcome(
                *bridge,
                custody_location_spec(),
                what@,
                who@,
                Some(FORWARD_DEST_WEIGHT),
            ),
            r is Ok ==> final(self).events@ == old(self).events@.push(
                Event::Forwarded { what, who, memo },
            ) + dispatch_events(
                *bridge,
                custody_location_spec(),
                what@,
                who@,
                Some(FORWARD_DEST_WEIGHT),
            ),
            r is Err ==> final(self).events@ == old(self).events@,
    {
        let custody = Location::custody();
        // The onward transfer records into a log of its own, which is kept
        // only if it succeeds, after the relay record.
        let mut onward = Pallet::new();
        let next = match onward.do_transfer(bridge, &custody, &what, &who, Some(FORWARD_DEST_WEIGHT)) {
            Ok(next) => next,
            Err(e) => return Err(e),
        };
        proof {
            assert(onward.events@ =~= dispatch_events(
                *bridge,
                custody_location_spec(),
                what@,
                who@,
                Some(FORWARD_DEST_WEIGHT),
            ));
        }
        self.events.push(Event::Forwarded { what, who, memo });
        self.events.append(&mut onward.events);
        Ok(next)
    }
}

/// A transfer refused as `UnknownAsset` is refused the same way on every
/// repetition: for an asset that cannot be routed, the refusal depends on the
/// asset alone, whatever state the backend is in, no backend operation runs
/// and no event is appended.
pub proof fn lemma_unknown_asset_repeats<B: BridgeTransact>(
    first: B,
    second: B,
    origin: Origin,
    what: AssetView,
    dest: LocationView,
    dest_weight: Option<u64>,
)
    requires
        origin is Signed,
        class_of(what) is None,
    ensures
        transfer_outcome(first, origin, what, dest, dest_weight) == transfer_outcome(
            second,
            origin,
            what,
            dest,
            dest_weight,
        ),
        transfer_outcome(first, origin, what, dest, dest_weight) == Err::<B, DispatchError>(
            DispatchError::XTransfer(Error::UnknownAsset),
        ),
        transfer_events(first, origin, what, dest, dest_weight) == Seq::<Event>::empty(),
{
}

/// In a relay, the deposit into custody comes first, the relay record next,
/// and the events of the onward transfer (the withdrawal from custody, the
/// delivery at the final destination) after both.
///
/// `start` is the log before the deposit is recorded, `deposited` the log
/// after it, and `forwarded` the log after the relay hook succeeded.
pub proof fn lemma_relay_order(
    start: Seq<Event>,
    deposit: Event,
    deposited: Seq<Event>,
    forward: Event,
    onward: Seq<Event>,
    forwarded: Seq<Event>,
)
    requires
        deposited == start.push(deposit),
        forwarded == deposited.push(forward) + onward,
    ensures
        forwarded.subrange(0, start.len() as int) == start,
        forwarded[start.len() as int] == deposit,
        forwarded[start.len() + 1int] == forward,
        forwarded.len() == start.len() + 2 + onward.len(),
        forall|i: int|
            0 <= i < onward.len() ==> #[trigger] forwarded[start.len() + 2int + i] == onward[i],
{
    assert(forwarded.subrange(0, start.len() as int) =~= start);
}

} // verus!
