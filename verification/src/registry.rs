//! The asset registry and its four entry points.
//!
//! The registry holds the next-identifier counter, the asset-by-identifier
//! table and the owner-by-identifier table. `create` and `breed` issue new
//! identifiers, `set_price` lists an asset for sale, and a purchase is
//! staged by `buy_kitty` and committed by `complete_purchase` only once the
//! external funds transfer has succeeded.

use vstd::prelude::*;
use std::collections::HashMap;
use crate::genome::{blake2_128_of, combine, seed_payload, gen_dna, combine_dna};

verus! {

broadcast use vstd::std_specs::hash::group_hash_axioms;

/// A caller / owner identity.
pub type AccountId = u64;

/// A monetary amount on the external ledger.
pub type Balance = u64;

/// The sequential identifier of an asset; 0 is never issued.
pub type KittyIndex = u32;

/// An asset: an immutable genome and an optional, strictly positive price.
#[derive(Clone, Copy)]
pub struct Kitty {
    pub dna: [u8; 16],
    pub price: Option<Balance>,
}

/// Why an entry point rejected a call.
#[derive(Clone, Copy, Debug, PartialEq, Eq, Structural)]
pub enum Error {
    /// The identifier counter is at the maximum value; nothing more can be
    /// issued.
    CounterOverflow,
    /// Breeding needs two distinct parents.
    IdenticalParents,
    /// The identifier resolves to no asset.
    UnknownAsset,
    /// Only the recorded owner may list an asset.
    NotOwner,
    /// A sale price must be strictly positive.
    PriceMustBePositive,
    /// The asset is not for sale.
    NoPriceSet,
    /// The buyer's balance is below the asking price.
    InsufficientFunds,
}

/// A notification emitted on success, for downstream observers.
#[derive(Clone, Copy, Debug, PartialEq, Eq, Structural)]
pub enum Event {
    AssetCreated(AccountId, KittyIndex),
    BredSuccessfully(AccountId, KittyIndex, KittyIndex),
    PriceSet(AccountId, KittyIndex, Balance),
    PurchaseCompleted(AccountId, AccountId, KittyIndex),
}

/// A staged purchase: every check has passed, only the funds transfer and
/// the registry mutation remain.
#[derive(Clone, Copy, Debug, PartialEq, Eq, Structural)]
pub struct Purchase {
    pub buyer: AccountId,
    pub seller: AccountId,
    pub kitty_id: KittyIndex,
    pub price: Balance,
}

/// The identifier a counter value issues next: 1 while no asset exists.
pub open spec fn spec_next(counter: Option<KittyIndex>) -> KittyIndex {
    match counter {
        None => 1,
        Some(c) => c,
    }
}

/// Persisted tables that a registry can be restored from: a counter of at
/// least 1 once anything was issued, rows keyed by distinct identifiers
/// between 1 and the counter, and strictly positive stored prices.
pub open spec fn valid_tables(
    counter: Option<KittyIndex>,
    rows: Seq<(KittyIndex, Kitty, AccountId)>,
) -> bool {
    &&& match counter {
        Some(c) => c >= 1,
        None => rows.len() == 0,
    }
    &&& forall|j: int|
        0 <= j < rows.len() ==> {
            &&& 1 <= (#[trigger] rows[j]).0 < spec_next(counter)
            &&& match rows[j].1.price {
                Some(p) => p > 0,
                None => true,
            }
        }
    &&& forall|j1: int, j2: int|
        0 <= j1 < j2 < rows.len() ==> (#[trigger] rows[j1]).0 != (#[trigger] rows[j2]).0
}

/// The asset registry.
pub struct Pallet {
    counter: Option<KittyIndex>,
    kitties: HashMap<KittyIndex, Kitty>,
    owners: HashMap<KittyIndex, AccountId>,
    events: Vec<Event>,
}

impl Pallet {
    /// The counter: `Some(c)` once an asset has been issued, `None` before.
    pub closed spec fn counter_view(self) -> Option<KittyIndex> {
        self.counter
    }

    /// The asset table, as a map from identifier to asset.
    pub closed spec fn kitties_view(self) -> Map<KittyIndex, Kitty> {
        self.kitties@
    }

    /// The owner table, as a map from identifier to account.
    pub closed spec fn owners_view(self) -> Map<KittyIndex, AccountId> {
        self.owners@
    }

    /// The notifications emitted so far, oldest first.
    pub closed spec fn events_view(self) -> Seq<Event> {
        self.events@
    }

    /// The identifier the next successful issuance returns.
    pub open spec fn next_id(self) -> KittyIndex {
        spec_next(self.counter_view())
    }

    /// Well-formedness: asset and owner records exist for exactly the same
    /// identifiers, every issued identifier is at least 1 and below the
    /// counter, and every stored price is strictly positive.
    pub open spec fn wf(self) -> bool {
        &&& forall|i: KittyIndex|
            self.kitties_view().contains_key(i) <==> self.owners_view().contains_key(i)
        &&& forall|i: KittyIndex| #[trigger]
            self.kitties_view().contains_key(i) ==> 1 <= i < self.next_id()
        &&& forall|i: KittyIndex| #[trigger] self.kitties_view().contains_key(i)
            ==> match self.kitties_view()[i].price {
                Some(p) => p > 0,
                None => true,
            }
        &&& match self.counter_view() {
            Some(c) => c >= 1,
            None => true,
        }
    }

    /// Density: every identifier from 1 up to the counter has been issued.
    /// This holds of every state reached from an empty registry; a state
    /// restored from persisted tables may lack it.
    pub open spec fn dense(self) -> bool {
        forall|i: KittyIndex| 1 <= i < self.next_id() ==> self.kitties_view().contains_key(i)
    }

    /// The parts of the state an aborted call must leave alone: all of it.
    pub open spec fn same_state(self, other: Pallet) -> bool {
        &&& self.counter_view() == other.counter_view()
        &&& self.kitties_view() == other.kitties_view()
        &&& self.owners_view() == other.owners_view()
        &&& self.events_view() == other.events_view()
    }

    /// An empty registry: nothing issued yet.
    pub fn new() -> (r: Pallet)
        ensures
            r.wf(),
            r.dense(),
            r.counter_view() is None,
            r.kitties_view() == Map::<KittyIndex, Kitty>::empty(),
            r.owners_view() == Map::<KittyIndex, AccountId>::empty(),
            r.events_view() == Seq::<Event>::empty(),
    {
        Pallet {
            counter: None,
            kitties: HashMap::new(),
            owners: HashMap::new(),
            events: Vec::new(),
        }
    }

    /// The counter, as persisted.
    pub fn kitties_count(&self) -> (r: Option<KittyIndex>)
        ensures
            r == self.counter_view(),
    {
        self.counter
    }

    /// Look an asset up by identifier.
    pub fn kitties(&self, kitty_id: KittyIndex) -> (r: Option<Kitty>)
        ensures
            match r {
                Some(k) => self.kitties_view().contains_key(kitty_id)
                    && k == self.kitties_view()[kitty_id],
                None => !self.kitties_view().contains_key(kitty_id),
            },
    {
        match self.kitties.get(&kitty_id) {
            Some(k) => Some(*k),
            None => None,
        }
    }

    /// Look an asset's owner up by identifier.
    pub fn owner(&self, kitty_id: KittyIndex) -> (r: Option<AccountId>)
        ensures
            match r {
                Some(a) => self.owners_view().contains_key(kitty_id)
                    && a == self.owners_view()[kitty_id],
                None => !self.owners_view().contains_key(kitty_id),
            },
    {
        match self.owners.get(&kitty_id) {
            Some(a) => Some(*a),
            None => None,
        }
    }

    /// The notifications emitted so far, oldest first.
    pub fn events(&self) -> (r: &Vec<Event>)
        ensures
            r@ == self.events_view(),
    {
        &self.events
    }

    /// Mint a new asset owned by `who`, with a genome derived from the
    /// random seed and the block height. Fails only when the counter is at
    /// the maximum identifier.
    pub fn create(&mut self, who: AccountId, seed: &[u8; 32], height: u32) -> (r: Result<
        KittyIndex,
        Error,
    >)
        requires
            old(self).wf(),
        ensures
            final(self).wf(),
            r is Ok <==> old(self).counter_view() != Some(KittyIndex::MAX),
            match r {
                Ok(id) => {
                    &&& id == old(self).next_id()
                    &&& !old(self).kitties_view().contains_key(id)
                    &&& final(self).counter_view() == Some((id + 1) as KittyIndex)
                    &&& final(self).kitties_view().contains_key(id)
                    &&& final(self).kitties_view()[id].dna@ == blake2_128_of(
                        seed_payload(seed@, height),
                    )
                    &&& final(self).kitties_view()[id].price is None
                    &&& forall|i: KittyIndex| i != id ==> (
                        final(self).kitties_view().contains_key(i) <==> old(
                            self,
                        ).kitties_view().contains_key(i))
                    &&& forall|i: KittyIndex| i != id && #[trigger] old(
                        self,
                    ).kitties_view().contains_key(i) ==> final(self).kitties_view()[i] == old(
                        self,
                    ).kitties_view()[i]
                    &&& final(self).owners_view() == old(self).owners_view().insert(id, who)
                    &&& final(self).events_view() == old(self).events_view().push(
                        Event::AssetCreated(who, id),
                    )
                    &&& old(self).dense() ==> final(self).dense()
                },
                Err(e) => e == Error::CounterOverflow && final(self).same_state(*old(self)),
            },
    {
        let kitty_id: KittyIndex = match self.counter {
            None => 1,
            Some(index) => {
                if index == KittyIndex::MAX {
                    return Err(Error::CounterOverflow);
                }
                index
            },
        };

        let dna = gen_dna(seed, height);

        self.kitties.insert(kitty_id, Kitty { dna, price: None });
        self.owners.insert(kitty_id, who);
        self.counter = Some(kitty_id + 1);
        self.events.push(Event::AssetCreated(who, kitty_id));

        proof {
            assert(final(self).owners_view() =~= old(self).owners_view().insert(kitty_id, who));
        }

        Ok(kitty_id)
    }

    /// Breed two distinct existing assets into a new one owned by `who`.
    /// The child genome combines the parents' genomes under a mask derived
    /// from the random seed and the block height; the caller need not own
    /// either parent.
    pub fn breed(
        &mut self,
        who: AccountId,
        kitty_id_1: KittyIndex,
        kitty_id_2: KittyIndex,
        seed: &[u8; 32],
        height: u32,
    ) -> (r: Result<KittyIndex, Error>)
        requires
            old(self).wf(),
        ensures
            final(self).wf(),
            r is Ok <==> {
                &&& kitty_id_1 != kitty_id_2
                &&& old(self).kitties_view().contains_key(kitty_id_1)
                &&& old(self).kitties_view().contains_key(kitty_id_2)
                &&& old(self).counter_view() != Some(KittyIndex::MAX)
            },
            match r {
                Ok(id) => {
                    &&& id == old(self).next_id()
                    &&& !old(self).kitties_view().contains_key(id)
                    &&& final(self).counter_view() == Some((id + 1) as KittyIndex)
                    &&& final(self).kitties_view().contains_key(id)
                    &&& final(self).kitties_view()[id].dna@ == combine(
                        old(self).kitties_view()[kitty_id_1].dna@,
                        old(self).kitties_view()[kitty_id_2].dna@,
                        blake2_128_of(seed_payload(seed@, height)),
                    )
                    &&& final(self).kitties_view()[id].price is None
                    &&& forall|i: KittyIndex| i != id ==> (
                        final(self).kitties_view().contains_key(i) <==> old(
                            self,
                        ).kitties_view().contains_key(i))
                    &&& forall|i: KittyIndex| i != id && #[trigger] old(
                        self,
                    ).kitties_view().contains_key(i) ==> final(self).kitties_view()[i] == old(
                        self,
                    ).kitties_view()[i]
                    &&& final(self).owners_view() == old(self).owners_view().insert(id, who)
                    &&& final(self).events_view() == old(self).events_view().push(
                        Event::BredSuccessfully(who, kitty_id_1, kitty_id_2),
                    )
                    &&& old(self).dense() ==> final(self).dense()
                },
                Err(e) => {
                    &&& final(self).same_state(*old(self))
                    &&& e == if kitty_id_1 == kitty_id_2 {
                        Error::IdenticalParents
                    } else if !old(self).kitties_view().contains_key(kitty_id_1) || !old(
                        self,
                    ).kitties_view().contains_key(kitty_id_2) {
                        Error::UnknownAsset
                    } else {
                        Error::CounterOverflow
                    }
                },
            },
    {
        if kitty_id_1 == kitty_id_2 {
            return Err(Error::IdenticalParents);
        }
        let kitty_1 = match self.kitties.get(&kitty_id_1) {
            Some(k) => *k,
            None => {
                return Err(Error::UnknownAsset);
            },
        };
        let kitty_2 = match self.kitties.get(&kitty_id_2) {
            Some(k) => *k,
            None => {
                return Err(Error::UnknownAsset);
            },
        };

        let kitty_id: KittyIndex = match self.counter {
            None => 1,
            Some(index) => {
                if index == KittyIndex::MAX {
                    return Err(Error::CounterOverflow);
                }
                index
            },
        };

        let selector = gen_dna(seed, height);
        let new_dna = combine_dna(&kitty_1.dna, &kitty_2.dna, &selector);

        self.kitties.insert(kitty_id, Kitty { dna: new_dna, price: None });
        self.owners.insert(kitty_id, who);
        self.counter = Some(kitty_id + 1);
        self.events.push(Event::BredSuccessfully(who, kitty_id_1, kitty_id_2));

        proof {
            assert(final(self).owners_view() =~= old(self).owners_view().insert(kitty_id, who));
        }

        Ok(kitty_id)
    }

    /// List asset `kitty_id` for sale at `price`. Only the recorded owner
    /// may do so, and only at a strictly positive price; the genome and the
    /// owner are untouched.
    pub fn set_price(&mut self, sender: AccountId, kitty_id: KittyIndex, price: Balance) -> (r:
        Result<(), Error>)
        requires
            old(self).wf(),
        ensures
            final(self).wf(),
            r is Ok <==> {
                &&& old(self).kitties_view().contains_key(kitty_id)
                &&& old(self).owners_view()[kitty_id] == sender
                &&& price > 0
            },
            match r {
                Ok(_) => {
                    &&& final(self).counter_view() == old(self).counter_view()
                    &&& final(self).owners_view() == old(self).owners_view()
                    &&& final(self).kitties_view().contains_key(kitty_id)
                    &&& final(self).kitties_view()[kitty_id].dna == old(
                        self,
                    ).kitties_view()[kitty_id].dna
                    &&& final(self).kitties_view()[kitty_id].price == Some(price)
                    &&& forall|i: KittyIndex| i != kitty_id ==> (
                        final(self).kitties_view().contains_key(i) <==> old(
                            self,
                        ).kitties_view().contains_key(i))
                    &&& forall|i: KittyIndex| i != kitty_id && #[trigger] old(
                        self,
                    ).kitties_view().contains_key(i) ==> final(self).kitties_view()[i] == old(
                        self,
                    ).kitties_view()[i]
                    &&& final(self).events_view() == old(self).events_view().push(
                        Event::PriceSet(sender, kitty_id, price),
                    )
                    &&& old(self).dense() ==> final(self).dense()
                },
                Err(e) => {
                    &&& final(self).same_state(*old(self))
                    &&& e == if !old(self).kitties_view().contains_key(kitty_id) {
                        Error::UnknownAsset
                    } else if old(self).owners_view()[kitty_id] != sender {
                        Error::NotOwner
                    } else {
                        Error::PriceMustBePositive
                    }
                },
            },
    {
        let kitty = match self.kitties.get(&kitty_id) {
            Some(k) => *k,
            None => {
                return Err(Error::UnknownAsset);
            },
        };
        let recorded = match self.owners.get(&kitty_id) {
            Some(a) => *a,
            None => {
                return Err(Error::NotOwner);
            },
        };
        if recorded != sender {
            return Err(Error::NotOwner);
        }
        if price == 0 {
            return Err(Error::PriceMustBePositive);
        }

        self.kitties.insert(kitty_id, Kitty { dna: kitty.dna, price: Some(price) });
        self.events.push(Event::PriceSet(sender, kitty_id, price));

        Ok(())
    }

    /// Stage a purchase of asset `kitty_id` by `buyer`, whose balance on
    /// the external ledger is `buyer_balance`. Every check runs here and
    /// nothing is mutated: the caller performs the funds transfer and, only
    /// if it succeeds, commits the staged purchase with
    /// [`Self::complete_purchase`]. A rejected transfer therefore leaves
    /// the registry exactly as it was.
    pub fn buy_kitty(&self, buyer: AccountId, kitty_id: KittyIndex, buyer_balance: Balance) -> (r:
        Result<Purchase, Error>)
        requires
            self.wf(),
        ensures
            r is Ok <==> {
                &&& self.kitties_view().contains_key(kitty_id)
                &&& self.kitties_view()[kitty_id].price is Some
                &&& buyer_balance >= self.kitties_view()[kitty_id].price->0
            },
            match r {
                Ok(p) => {
                    &&& p.buyer == buyer
                    &&& p.seller == self.owners_view()[kitty_id]
                    &&& p.kitty_id == kitty_id
                    &&& Some(p.price) == self.kitties_view()[kitty_id].price
                },
                Err(e) => e == if !self.kitties_view().contains_key(kitty_id) {
                    Error::UnknownAsset
                } else if self.kitties_view()[kitty_id].price is None {
                    Error::NoPriceSet
                } else {
                    Error::InsufficientFunds
                },
            },
    {
        let kitty = match self.kitties.get(&kitty_id) {
            Some(k) => *k,
            None => {
                return Err(Error::UnknownAsset);
            },
        };
        let price = match kitty.price {
            Some(p) => p,
            None => {
                return Err(Error::NoPriceSet);
            },
        };
        if buyer_balance < price {
            return Err(Error::InsufficientFunds);
        }
        let seller = match self.owners.get(&kitty_id) {
            Some(a) => *a,
            None => {
                return Err(Error::UnknownAsset);
            },
        };
        Ok(Purchase { buyer, seller, kitty_id, price })
    }

    /// Commit a staged purchase after the funds transfer has succeeded:
    /// reassign the asset to the buyer and clear its price. The genome and
    /// every other record are untouched.
    pub fn complete_purchase(&mut self, p: &Purchase)
        requires
            old(self).wf(),
            old(self).kitties_view().contains_key(p.kitty_id),
            old(self).kitties_view()[p.kitty_id].price == Some(p.price),
            old(self).owners_view()[p.kitty_id] == p.seller,
        ensures
            final(self).wf(),
            final(self).counter_view() == old(self).counter_view(),
            final(self).kitties_view().contains_key(p.kitty_id),
            final(self).kitties_view()[p.kitty_id].dna == old(self).kitties_view()[p.kitty_id].dna,
            final(self).kitties_view()[p.kitty_id].price is None,
            forall|i: KittyIndex| i != p.kitty_id ==> (
                final(self).kitties_view().contains_key(i) <==> old(
                    self,
                ).kitties_view().contains_key(i)),
            forall|i: KittyIndex| i != p.kitty_id && #[trigger] old(
                self,
            ).kitties_view().contains_key(i) ==> final(self).kitties_view()[i] == old(
                self,
            ).kitties_view()[i],
            final(self).owners_view() == old(self).owners_view().insert(p.kitty_id, p.buyer),
            final(self).events_view() == old(self).events_view().push(
                Event::PurchaseCompleted(p.buyer, p.seller, p.kitty_id),
            ),
            old(self).dense() ==> final(self).dense(),
    {
        let kitty = *self.kitties.get(&p.kitty_id).unwrap();
        self.owners.insert(p.kitty_id, p.buyer);
        self.kitties.insert(p.kitty_id, Kitty { dna: kitty.dna, price: None });
        self.events.push(Event::PurchaseCompleted(p.buyer, p.seller, p.kitty_id));

        proof {
            assert(final(self).owners_view() =~= old(self).owners_view().insert(
                p.kitty_id,
                p.buyer,
            ));
        }
    }

    /// Rebuild a registry from its persisted tables: the counter and one
    /// row per asset, carrying its identifier, record and owner. Emitted
    /// notifications are not persisted, so the restored log is empty.
    pub fn restore(counter: Option<KittyIndex>, rows: Vec<(KittyIndex, Kitty, AccountId)>) -> (r:
        Pallet)
        requires
            valid_tables(counter, rows@),
        ensures
            r.wf(),
            r.counter_view() == counter,
            r.events_view() == Seq::<Event>::empty(),
            forall|j: int|
                0 <= j < rows@.len() ==> {
                    &&& r.kitties_view().contains_key((#[trigger] rows@[j]).0)
                    &&& r.kitties_view()[rows@[j].0] == rows@[j].1
                    &&& r.owners_view().contains_key(rows@[j].0)
                    &&& r.owners_view()[rows@[j].0] == rows@[j].2
                },
            forall|i: KittyIndex| #[trigger]
                r.kitties_view().contains_key(i) ==> exists|j: int|
                    0 <= j < rows@.len() && (#[trigger] rows@[j]).0 == i,
    {
        let mut kitties: HashMap<KittyIndex, Kitty> = HashMap::new();
        let mut owners: HashMap<KittyIndex, AccountId> = HashMap::new();
        let mut idx: usize = 0;
        while idx < rows.len()
            invariant
                idx <= rows@.len(),
                valid_tables(counter, rows@),
                forall|j: int|
                    0 <= j < idx ==> {
                        &&& kitties@.contains_key((#[trigger] rows@[j]).0)
                        &&& kitties@[rows@[j].0] == rows@[j].1
                        &&& owners@.contains_key(rows@[j].0)
                        &&& owners@[rows@[j].0] == rows@[j].2
                    },
                forall|i: KittyIndex| #[trigger]
                    kitties@.contains_key(i) ==> exists|j: int|
                        0 <= j < idx && (#[trigger] rows@[j]).0 == i,
                forall|i: KittyIndex|
                    kitties@.contains_key(i) <==> owners@.contains_key(i),
            decreases rows@.len() - idx,
        {
            let (id, kitty, owner) = rows[idx];
            kitties.insert(id, kitty);
            owners.insert(id, owner);
            idx = idx + 1;
        }
        Pallet { counter, kitties, owners, events: Vec::new() }
    }
}

/// Law: the counter strictly exceeds every issued identifier, so the
/// identifier the next successful issuance returns is fresh: no asset
/// record has it, nor any larger identifier.
pub proof fn lemma_next_identifier_fresh(s: Pallet)
    requires
        s.wf(),
    ensures
        !s.kitties_view().contains_key(s.next_id()),
        forall|i: KittyIndex| i >= s.next_id() ==> !s.kitties_view().contains_key(i),
{
}

/// Law: in a dense registry — every state reached from the empty one —
/// the counter is the smallest unissued identifier: every identifier from
/// 1 below it has an asset record and the counter value itself has none.
pub proof fn lemma_counter_smallest_unissued(s: Pallet)
    requires
        s.wf(),
        s.dense(),
    ensures
        !s.kitties_view().contains_key(s.next_id()),
        forall|i: KittyIndex| 1 <= i < s.next_id() ==> s.kitties_view().contains_key(i),
{
}

/// Law: every identifier with an asset record has an owner record and
/// vice versa; a map holds at most one record per key, so each side is
/// unique.
pub proof fn lemma_registry_consistent(s: Pallet)
    requires
        s.wf(),
    ensures
        forall|i: KittyIndex|
            s.kitties_view().contains_key(i) <==> s.owners_view().contains_key(i),
{
}

} // verus!
