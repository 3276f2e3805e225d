use kitties::genome::combine_dna;
use kitties::registry::{Error, Event, Kitty, Pallet};

fn seed(byte: u8) -> [u8; 32] {
    [byte; 32]
}

fn expected_dna(s: &[u8; 32], height: u32) -> [u8; 16] {
    let mut payload = Vec::new();
    payload.extend_from_slice(s);
    payload.extend_from_slice(&height.to_le_bytes());
    sp_io::hashing::blake2_128(&payload)
}

#[test]
fn create_issues_sequential_identifiers() {
    let mut p = Pallet::new();
    assert_eq!(p.kitties_count(), None);
    assert_eq!(p.create(10, &seed(1), 1), Ok(1));
    assert_eq!(p.kitties_count(), Some(2));
    assert_eq!(p.create(11, &seed(2), 2), Ok(2));
    assert_eq!(p.create(10, &seed(3), 3), Ok(3));
    assert_eq!(p.kitties_count(), Some(4));
    assert_eq!(p.owner(1), Some(10));
    assert_eq!(p.owner(2), Some(11));
    assert_eq!(p.owner(3), Some(10));
    assert!(p.kitties(4).is_none());
}

#[test]
fn create_derives_genome_from_seed_and_height() {
    let mut p = Pallet::new();
    let s = seed(7);
    let height: u32 = 0x1234_5678;
    let id = p.create(1, &s, height).unwrap();
    let kitty = p.kitties(id).unwrap();
    assert_eq!(kitty.dna, expected_dna(&s, height));
    assert_eq!(kitty.price, None);
}

#[test]
fn combine_follows_the_bitwise_formula() {
    let a = [0x00u8; 16];
    let b = [0xFFu8; 16];
    let m = [0x0Fu8; 16];
    assert_eq!(combine_dna(&a, &b, &m), [0x0Fu8; 16]);

    let a = [0b1010_1100u8; 16];
    let b = [0b0110_0101u8; 16];
    let m = [0b1100_0011u8; 16];
    let child = combine_dna(&a, &b, &m);
    assert_eq!(child, [(m[0] & a[0]) | (m[0] & b[0]); 16]);
    assert_eq!(child, [0b1100_0001u8; 16]);
}

#[test]
fn breed_combines_parent_genomes_under_the_mask() {
    let mut p = Pallet::new();
    let id_a = p.create(1, &seed(0xAA), 5).unwrap();
    let id_b = p.create(2, &seed(0xBB), 6).unwrap();
    let dna_a = p.kitties(id_a).unwrap().dna;
    let dna_b = p.kitties(id_b).unwrap().dna;

    let breed_seed = seed(0xCC);
    let child_id = p.breed(3, id_a, id_b, &breed_seed, 7).unwrap();
    assert_eq!(child_id, 3);
    let mask = expected_dna(&breed_seed, 7);
    let mut expected = [0u8; 16];
    for i in 0..16 {
        expected[i] = (mask[i] & dna_a[i]) | (mask[i] & dna_b[i]);
    }
    let child = p.kitties(child_id).unwrap();
    assert_eq!(child.dna, expected);
    assert_eq!(child.price, None);
    assert_eq!(p.owner(child_id), Some(3));
}

#[test]
fn breed_rejects_identical_parents() {
    let mut p = Pallet::new();
    p.create(1, &seed(1), 1).unwrap();
    assert_eq!(p.breed(1, 1, 1, &seed(2), 2), Err(Error::IdenticalParents));
    assert_eq!(p.kitties_count(), Some(2));
}

#[test]
fn breed_rejects_unknown_parents() {
    let mut p = Pallet::new();
    p.create(1, &seed(1), 1).unwrap();
    assert_eq!(p.breed(1, 1, 2, &seed(2), 2), Err(Error::UnknownAsset));
    assert_eq!(p.breed(1, 9, 1, &seed(2), 2), Err(Error::UnknownAsset));
}

#[test]
fn breed_needs_no_ownership_of_the_parents() {
    let mut p = Pallet::new();
    let a = p.create(1, &seed(1), 1).unwrap();
    let b = p.create(2, &seed(2), 2).unwrap();
    let child = p.breed(99, a, b, &seed(3), 3).unwrap();
    assert_eq!(p.owner(child), Some(99));
}

#[test]
fn set_price_requires_the_owner_and_a_positive_price() {
    let mut p = Pallet::new();
    let id = p.create(1, &seed(1), 1).unwrap();

    assert_eq!(p.set_price(2, id, 100), Err(Error::NotOwner));
    assert_eq!(p.kitties(id).unwrap().price, None);

    assert_eq!(p.set_price(1, id, 0), Err(Error::PriceMustBePositive));
    assert_eq!(p.kitties(id).unwrap().price, None);

    assert_eq!(p.set_price(1, 9, 100), Err(Error::UnknownAsset));

    assert_eq!(p.set_price(1, id, 100), Ok(()));
    assert_eq!(p.kitties(id).unwrap().price, Some(100));
    assert_eq!(p.owner(id), Some(1));
}

#[test]
fn genome_survives_price_changes_and_sales() {
    let mut p = Pallet::new();
    let id = p.create(1, &seed(4), 4).unwrap();
    let dna = p.kitties(id).unwrap().dna;
    p.set_price(1, id, 50).unwrap();
    assert_eq!(p.kitties(id).unwrap().dna, dna);
    let purchase = p.buy_kitty(2, id, 60).unwrap();
    p.complete_purchase(&purchase);
    assert_eq!(p.kitties(id).unwrap().dna, dna);
    assert_eq!(p.owner(id), Some(2));
}

#[test]
fn buy_checks_existence_price_and_balance() {
    let mut p = Pallet::new();
    let id = p.create(1, &seed(1), 1).unwrap();

    assert_eq!(p.buy_kitty(2, 9, 1000).unwrap_err(), Error::UnknownAsset);
    assert_eq!(p.buy_kitty(2, id, 1000).unwrap_err(), Error::NoPriceSet);

    p.set_price(1, id, 100).unwrap();
    assert_eq!(p.buy_kitty(2, id, 99).unwrap_err(), Error::InsufficientFunds);

    let purchase = p.buy_kitty(2, id, 100).unwrap();
    assert_eq!(purchase.buyer, 2);
    assert_eq!(purchase.seller, 1);
    assert_eq!(purchase.kitty_id, id);
    assert_eq!(purchase.price, 100);
}

#[test]
fn buy_clears_the_price_whatever_it_was() {
    for price in [1u64, 100, u64::MAX] {
        let mut p = Pallet::new();
        let id = p.create(1, &seed(1), 1).unwrap();
        p.set_price(1, id, price).unwrap();
        let purchase = p.buy_kitty(2, id, u64::MAX).unwrap();
        p.complete_purchase(&purchase);
        assert_eq!(p.kitties(id).unwrap().price, None);
        assert_eq!(p.owner(id), Some(2));
    }
}

#[test]
fn failed_transfer_leaves_the_registry_unchanged() {
    let mut p = Pallet::new();
    let id = p.create(1, &seed(1), 1).unwrap();
    p.set_price(1, id, 100).unwrap();
    let events_before = p.events().clone();

    // The buyer's ledger balance is below the price: the purchase never
    // stages and nothing is mutated.
    assert_eq!(p.buy_kitty(2, id, 40).unwrap_err(), Error::InsufficientFunds);
    assert_eq!(p.owner(id), Some(1));
    assert_eq!(p.kitties(id).unwrap().price, Some(100));
    assert_eq!(p.events(), &events_before);

    // The balance passes the pre-check but the transfer itself is rejected
    // (say, it would drain the payer below the minimum): the staged
    // purchase is dropped uncommitted and nothing is mutated.
    let staged = p.buy_kitty(2, id, 100).unwrap();
    let _ = staged;
    assert_eq!(p.owner(id), Some(1));
    assert_eq!(p.kitties(id).unwrap().price, Some(100));
    assert_eq!(p.events(), &events_before);
}

#[test]
fn end_to_end_scenario() {
    let alice: u64 = 1;
    let bob: u64 = 2;
    let carol: u64 = 3;
    let dave: u64 = 4;

    let mut p = Pallet::new();
    let id1 = p.create(alice, &seed(11), 100).unwrap();
    assert_eq!(id1, 1);
    assert_eq!(p.owner(1), Some(alice));
    assert_eq!(p.kitties(1).unwrap().price, None);

    let id2 = p.create(bob, &seed(22), 101).unwrap();
    assert_eq!(id2, 2);

    let id3 = p.breed(carol, 1, 2, &seed(33), 102).unwrap();
    assert_eq!(id3, 3);
    assert_eq!(p.owner(3), Some(carol));
    let mask = expected_dna(&seed(33), 102);
    let d1 = p.kitties(1).unwrap().dna;
    let d2 = p.kitties(2).unwrap().dna;
    let mut expected = [0u8; 16];
    for i in 0..16 {
        expected[i] = (mask[i] & d1[i]) | (mask[i] & d2[i]);
    }
    assert_eq!(p.kitties(3).unwrap().dna, expected);

    p.set_price(carol, 3, 100).unwrap();
    assert_eq!(p.kitties(3).unwrap().price, Some(100));

    // Dave buys asset 3; the ledger is simulated here.
    let mut dave_balance: u64 = 250;
    let mut carol_balance: u64 = 0;
    let purchase = p.buy_kitty(dave, 3, dave_balance).unwrap();
    dave_balance -= purchase.price;
    carol_balance += purchase.price;
    p.complete_purchase(&purchase);

    assert_eq!(dave_balance, 150);
    assert_eq!(carol_balance, 100);
    assert_eq!(p.owner(3), Some(dave));
    assert_eq!(p.kitties(3).unwrap().price, None);

    assert_eq!(
        p.events(),
        &vec![
            Event::AssetCreated(alice, 1),
            Event::AssetCreated(bob, 2),
            Event::BredSuccessfully(carol, 1, 2),
            Event::PriceSet(carol, 3, 100),
            Event::PurchaseCompleted(dave, carol, 3),
        ]
    );
}

#[test]
fn create_fails_when_the_counter_is_at_the_maximum() {
    let mut p = Pallet::restore(Some(u32::MAX), Vec::new());
    assert_eq!(p.create(1, &seed(1), 1), Err(Error::CounterOverflow));
    assert_eq!(p.kitties_count(), Some(u32::MAX));
    assert!(p.events().is_empty());
}

#[test]
fn breed_fails_when_the_counter_is_at_the_maximum() {
    let rows = vec![
        (1u32, Kitty { dna: [1u8; 16], price: None }, 1u64),
        (2u32, Kitty { dna: [2u8; 16], price: None }, 2u64),
    ];
    let mut p = Pallet::restore(Some(u32::MAX), rows);
    assert_eq!(p.breed(3, 1, 2, &seed(1), 1), Err(Error::CounterOverflow));
    assert_eq!(p.kitties_count(), Some(u32::MAX));
    assert_eq!(p.owner(1), Some(1));
    assert_eq!(p.owner(2), Some(2));
}

#[test]
fn restore_rebuilds_the_tables() {
    let rows = vec![
        (1u32, Kitty { dna: [9u8; 16], price: Some(5) }, 7u64),
        (4u32, Kitty { dna: [8u8; 16], price: None }, 9u64),
    ];
    let p = Pallet::restore(Some(6), rows);
    assert_eq!(p.kitties_count(), Some(6));
    assert_eq!(p.kitties(1).unwrap().dna, [9u8; 16]);
    assert_eq!(p.kitties(1).unwrap().price, Some(5));
    assert_eq!(p.owner(1), Some(7));
    assert_eq!(p.kitties(4).unwrap().dna, [8u8; 16]);
    assert_eq!(p.owner(4), Some(9));
    assert!(p.kitties(2).is_none());
    assert!(p.owner(3).is_none());
}

#[test]
fn identical_genomes_under_distinct_identifiers_are_fine() {
    let mut p = Pallet::new();
    let a = p.create(1, &seed(5), 50).unwrap();
    let b = p.create(2, &seed(5), 50).unwrap();
    assert_ne!(a, b);
    assert_eq!(p.kitties(a).unwrap().dna, p.kitties(b).unwrap().dna);
}
