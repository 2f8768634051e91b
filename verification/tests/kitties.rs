use kitties::{Error, Event, Kitty, KittyId, Pallet};

/// What the randomness source hands out in these tests.
const SEED: [u8; 40] = [
    1, 2, 3, 4, 5, 6, 7, 8, 9, 10, 11, 12, 13, 14, 15, 16, 17, 18, 19, 20, 21, 22, 23, 24, 25, 26,
    27, 28, 29, 30, 31, 32, 33, 34, 35, 36, 37, 38, 39, 40,
];

/// Records the event of a call that went through, as the runtime would.
fn deposit(events: &mut Vec<Event>, outcome: Result<Event, Error>) -> Result<(), Error> {
    outcome.map(|event| events.push(event))
}

#[test]
fn it_works_for_create() {
    let mut kitties_module = Pallet::new();
    let mut events = Vec::new();
    let kitty_id = 0;
    let account_id = 1;

    assert_eq!(kitties_module.next_kitty_id(), kitty_id);
    assert_eq!(deposit(&mut events, kitties_module.create(account_id, &SEED, None)), Ok(()));
    assert_eq!(kitties_module.kitties(kitty_id).is_some(), true);
    assert_eq!(
        events.last(),
        Some(&Event::KittyCreated {
            who: account_id,
            kitty_id,
            kitty: kitties_module.kitties(kitty_id).unwrap(),
        })
    );
    assert_eq!(kitties_module.next_kitty_id(), kitty_id + 1);
    assert_eq!(kitties_module.kitties(kitty_id).is_some(), true);
    assert_eq!(kitties_module.kitty_owner(kitty_id), Some(account_id));
    assert_eq!(kitties_module.kitty_parents(kitty_id), None);

    assert!(kitties_module.set_next_kitty_id(KittyId::MAX));
    let before = kitties_module.clone();
    assert_eq!(
        deposit(&mut events, kitties_module.create(account_id, &SEED, None)),
        Err(Error::InvalidKittyId)
    );
    assert_eq!(kitties_module, before);
}

#[test]
fn it_works_for_breed() {
    let mut kitties_module = Pallet::new();
    let mut events = Vec::new();
    let kitty_id = 0;
    let account_id = 1;

    let before = kitties_module.clone();
    assert_eq!(
        deposit(&mut events, kitties_module.breed(account_id, kitty_id, kitty_id, &SEED, None)),
        Err(Error::SameKittyId)
    );
    assert_eq!(kitties_module, before);

    assert_eq!(
        deposit(&mut events, kitties_module.breed(account_id, kitty_id, kitty_id + 1, &SEED, None)),
        Err(Error::InvalidKittyId)
    );
    assert_eq!(kitties_module, before);

    assert_eq!(deposit(&mut events, kitties_module.create(account_id, &SEED, None)), Ok(()));
    assert_eq!(kitties_module.kitties(kitty_id).is_some(), true);
    assert_eq!(
        events.last(),
        Some(&Event::KittyCreated {
            who: account_id,
            kitty_id,
            kitty: kitties_module.kitties(kitty_id).unwrap(),
        })
    );
    assert_eq!(deposit(&mut events, kitties_module.create(account_id, &SEED, None)), Ok(()));
    assert_eq!(kitties_module.kitties(kitty_id + 1).is_some(), true);
    assert_eq!(
        events.last(),
        Some(&Event::KittyCreated {
            who: account_id,
            kitty_id: kitty_id + 1,
            kitty: kitties_module.kitties(kitty_id + 1).unwrap(),
        })
    );
    assert_eq!(kitties_module.next_kitty_id(), kitty_id + 2);

    assert_eq!(
        deposit(&mut events, kitties_module.breed(account_id, kitty_id, kitty_id + 1, &SEED, None)),
        Ok(())
    );
    assert_eq!(kitties_module.kitties(kitty_id + 2).is_some(), true);
    assert_eq!(
        events.last(),
        Some(&Event::KittyBreed {
            who: account_id,
            kitty_id: kitty_id + 2,
            kitty: kitties_module.kitties(kitty_id + 2).unwrap(),
        })
    );
    let breed_kitty_id = 2;
    assert_eq!(kitties_module.next_kitty_id(), breed_kitty_id + 1);
    assert_eq!(kitties_module.kitties(breed_kitty_id).is_some(), true);
    assert_eq!(kitties_module.kitty_owner(breed_kitty_id), Some(account_id));
    assert_eq!(kitties_module.kitty_parents(breed_kitty_id), Some((kitty_id, kitty_id + 1)));
    assert_eq!(events.len(), 3);
}

#[test]
fn it_works_for_transfer() {
    let mut kitties_module = Pallet::new();
    let mut events = Vec::new();
    let kitty_id = 0;
    let account_id = 1;
    let recipient = 2;

    assert_eq!(deposit(&mut events, kitties_module.create(account_id, &SEED, None)), Ok(()));
    assert_eq!(kitties_module.kitties(kitty_id).is_some(), true);
    assert_eq!(
        events.last(),
        Some(&Event::KittyCreated {
            who: account_id,
            kitty_id,
            kitty: kitties_module.kitties(kitty_id).unwrap(),
        })
    );
    assert_eq!(kitties_module.kitty_owner(kitty_id), Some(account_id));

    let before = kitties_module.clone();
    assert_eq!(
        deposit(&mut events, kitties_module.transfer(recipient, account_id, kitty_id)),
        Err(Error::NotOwner)
    );
    assert_eq!(kitties_module, before);

    assert_eq!(
        deposit(&mut events, kitties_module.transfer(account_id, recipient, kitty_id)),
        Ok(())
    );
    assert_eq!(kitties_module.kitty_owner(kitty_id), Some(recipient));
    assert_eq!(
        events.last(),
        Some(&Event::KittyTransfer { from: account_id, kitty_id, to: recipient })
    );
    assert_eq!(
        deposit(&mut events, kitties_module.transfer(recipient, account_id, kitty_id)),
        Ok(())
    );
    assert_eq!(kitties_module.kitty_owner(kitty_id), Some(account_id));
    assert_eq!(
        events.last(),
        Some(&Event::KittyTransfer { from: recipient, kitty_id, to: account_id })
    );
    assert_eq!(events.len(), 3);
}

#[test]
fn create_breed_transfer_scenario() {
    let a = 1;
    let b = 2;
    let mut ledger = Pallet::new();

    let first = ledger.create(a, &SEED, Some(0));
    let kitty0 = Kitty([21, 139, 60, 243, 22, 113, 203, 88, 84, 64, 24, 179, 70, 207, 245, 199]);
    assert_eq!(first, Ok(Event::KittyCreated { who: a, kitty_id: 0, kitty: kitty0 }));
    assert_eq!(ledger.kitty_owner(0), Some(a));

    let second = ledger.create(a, &SEED, Some(1));
    let kitty1 = Kitty([182, 208, 208, 41, 39, 56, 116, 76, 176, 122, 98, 111, 217, 83, 106, 12]);
    assert_eq!(second, Ok(Event::KittyCreated { who: a, kitty_id: 1, kitty: kitty1 }));
    assert_eq!(ledger.kitty_owner(1), Some(a));

    let bred = ledger.breed(a, 0, 1, &SEED, Some(2));
    let selector = [161, 147, 177, 71, 102, 132, 81, 32, 221, 233, 223, 102, 64, 107, 72, 52];
    let child = Kitty([161, 147, 176, 67, 38, 0, 81, 0, 212, 104, 90, 102, 64, 75, 72, 4]);
    assert_eq!(bred, Ok(Event::KittyBreed { who: a, kitty_id: 2, kitty: child }));
    assert_eq!(ledger.kitties(2), Some(child));
    assert_eq!(ledger.kitty_owner(2), Some(a));
    assert_eq!(ledger.kitty_parents(2), Some((0, 1)));
    for i in 0..16 {
        assert_eq!(child.0[i], (kitty0.0[i] & selector[i]) | (kitty1.0[i] & selector[i]));
    }
    assert_eq!(ledger.kitties(0), Some(kitty0));
    assert_eq!(ledger.kitties(1), Some(kitty1));

    assert_eq!(
        ledger.transfer(a, b, 2),
        Ok(Event::KittyTransfer { from: a, kitty_id: 2, to: b })
    );
    assert_eq!(ledger.kitty_owner(2), Some(b));
    assert_eq!(ledger.transfer(a, b, 2), Err(Error::NotOwner));
    assert_eq!(ledger.kitty_owner(2), Some(b));
}

#[test]
fn create_derives_the_genome_from_seed_caller_and_index() {
    let mut ledger = Pallet::new();
    let expected = Event::KittyCreated {
        who: 1,
        kitty_id: 0,
        kitty: Kitty([74, 199, 187, 86, 127, 86, 161, 84, 156, 96, 27, 109, 237, 151, 13, 236]),
    };
    assert_eq!(ledger.create(1, &SEED, None), Ok(expected));
    assert_eq!(Pallet::new().create(1, &SEED, None), Ok(expected));
    assert_ne!(Pallet::new().create(2, &SEED, None), Ok(expected));
    assert_ne!(Pallet::new().create(1, &SEED, Some(0)), Ok(expected));
    assert_ne!(Pallet::new().create(1, &SEED[1..], None), Ok(expected));
}

#[test]
fn breed_derives_the_selector_from_seed_caller_and_index() {
    let mut ledger = Pallet::new();
    assert!(ledger.create_with_genome(1, [0xff; 16]).is_ok());
    assert!(ledger.create_with_genome(1, [0x00; 16]).is_ok());
    let selector = [161, 147, 177, 71, 102, 132, 81, 32, 221, 233, 223, 102, 64, 107, 72, 52];
    assert_eq!(
        ledger.breed(1, 0, 1, &SEED, Some(2)),
        Ok(Event::KittyBreed { who: 1, kitty_id: 2, kitty: Kitty(selector) })
    );
}

#[test]
fn create_returns_consecutive_identifiers() {
    let mut ledger = Pallet::new();
    for expected in 0..50u32 {
        let who = u64::from(expected % 3);
        let genome = [expected as u8; 16];
        assert_eq!(
            ledger.create_with_genome(who, genome),
            Ok(Event::KittyCreated { who, kitty_id: expected, kitty: Kitty(genome) })
        );
        assert_eq!(ledger.next_kitty_id(), expected + 1);
        assert_eq!(ledger.kitty_owner(expected), Some(who));
        assert_eq!(ledger.kitty_parents(expected), None);
    }
    for kitty_id in 0..50u32 {
        assert_eq!(ledger.kitties(kitty_id), Some(Kitty([kitty_id as u8; 16])));
    }
    assert_eq!(ledger.kitties(50), None);
}

#[test]
fn a_new_ledger_is_empty() {
    let ledger = Pallet::new();
    assert_eq!(ledger.next_kitty_id(), 0);
    assert_eq!(ledger.kitties(0), None);
    assert_eq!(ledger.kitty_owner(0), None);
    assert_eq!(ledger.kitty_parents(0), None);
}

#[test]
fn breed_with_itself_is_rejected_before_anything_else() {
    let mut ledger = Pallet::new();
    let before = ledger.clone();
    assert_eq!(ledger.breed_with_selector(1, 7, 7, &[0xff; 16]), Err(Error::SameKittyId));
    assert_eq!(ledger, before);

    assert!(ledger.create_with_genome(1, [1; 16]).is_ok());
    let before = ledger.clone();
    assert_eq!(ledger.breed_with_selector(1, 0, 0, &[0xff; 16]), Err(Error::SameKittyId));
    assert_eq!(ledger, before);
    assert_eq!(ledger.next_kitty_id(), 1);
}

#[test]
fn breed_with_a_missing_parent_is_rejected() {
    let mut ledger = Pallet::new();
    assert!(ledger.create_with_genome(1, [1; 16]).is_ok());
    let before = ledger.clone();
    assert_eq!(ledger.breed_with_selector(1, 0, 1, &[0xff; 16]), Err(Error::InvalidKittyId));
    assert_eq!(ledger.breed_with_selector(1, 1, 0, &[0xff; 16]), Err(Error::InvalidKittyId));
    assert_eq!(ledger.breed_with_selector(1, 5, 6, &[0xff; 16]), Err(Error::InvalidKittyId));
    assert_eq!(ledger, before);
    assert_eq!(ledger.next_kitty_id(), 1);
}

#[test]
fn breed_mixes_the_parents_under_the_selector() {
    let mut ledger = Pallet::new();
    let parent1 = [0xf0, 0x0f, 0xaa, 0x55, 0x00, 0xff, 0x12, 0x34, 1, 2, 4, 8, 16, 32, 64, 128];
    let parent2 = [0x0f, 0x0f, 0x55, 0x55, 0x00, 0x00, 0x21, 0x43, 1, 1, 1, 1, 1, 1, 1, 1];
    let selector = [0x3c, 0xf0, 0xff, 0x0f, 0xff, 0x81, 0xff, 0x00, 3, 3, 3, 3, 3, 3, 3, 3];
    assert!(ledger.create_with_genome(1, parent1).is_ok());
    assert!(ledger.create_with_genome(2, parent2).is_ok());
    let child = Kitty([0x3c, 0x00, 0xff, 0x05, 0x00, 0x81, 0x33, 0x00, 1, 3, 1, 1, 1, 1, 1, 1]);
    assert_eq!(
        ledger.breed_with_selector(3, 0, 1, &selector),
        Ok(Event::KittyBreed { who: 3, kitty_id: 2, kitty: child })
    );
    assert_eq!(ledger.kitties(2), Some(child));
    assert_eq!(ledger.kitty_owner(2), Some(3));
    assert_eq!(ledger.kitty_parents(2), Some((0, 1)));
    assert_eq!(ledger.kitties(0), Some(Kitty(parent1)));
    assert_eq!(ledger.kitties(1), Some(Kitty(parent2)));
    assert_eq!(ledger.kitty_owner(0), Some(1));
    assert_eq!(ledger.kitty_owner(1), Some(2));
}

#[test]
fn breed_is_not_deduplicated() {
    let mut ledger = Pallet::new();
    assert!(ledger.create_with_genome(1, [0xf0; 16]).is_ok());
    assert!(ledger.create_with_genome(1, [0x0f; 16]).is_ok());
    let first = ledger.breed_with_selector(1, 0, 1, &[0xff; 16]);
    let second = ledger.breed_with_selector(1, 0, 1, &[0xff; 16]);
    assert_eq!(first, Ok(Event::KittyBreed { who: 1, kitty_id: 2, kitty: Kitty([0xff; 16]) }));
    assert_eq!(second, Ok(Event::KittyBreed { who: 1, kitty_id: 3, kitty: Kitty([0xff; 16]) }));
    assert_eq!(ledger.kitty_parents(2), Some((0, 1)));
    assert_eq!(ledger.kitty_parents(3), Some((0, 1)));
    assert_eq!(ledger.next_kitty_id(), 4);
}

#[test]
fn breed_keeps_the_order_of_the_parents() {
    let mut ledger = Pallet::new();
    assert!(ledger.create_with_genome(1, [0xf0; 16]).is_ok());
    assert!(ledger.create_with_genome(1, [0x0f; 16]).is_ok());
    assert!(ledger.breed_with_selector(1, 1, 0, &[0x11; 16]).is_ok());
    assert_eq!(ledger.kitty_parents(2), Some((1, 0)));
    assert_eq!(ledger.kitties(2), Some(Kitty([0x11; 16])));
}

#[test]
fn transfer_by_a_non_owner_is_rejected() {
    let mut ledger = Pallet::new();
    assert!(ledger.create_with_genome(1, [9; 16]).is_ok());
    let before = ledger.clone();
    assert_eq!(ledger.transfer(2, 3, 0), Err(Error::NotOwner));
    assert_eq!(ledger.transfer(2, 2, 0), Err(Error::NotOwner));
    assert_eq!(ledger, before);
    assert_eq!(ledger.kitty_owner(0), Some(1));
}

#[test]
fn transfer_of_a_missing_kitty_is_rejected() {
    let mut ledger = Pallet::new();
    let before = ledger.clone();
    assert_eq!(ledger.transfer(1, 2, 0), Err(Error::InvalidKittyId));
    assert_eq!(ledger, before);
    assert!(ledger.create_with_genome(1, [9; 16]).is_ok());
    assert_eq!(ledger.transfer(1, 2, 1), Err(Error::InvalidKittyId));
    assert_eq!(ledger.kitty_owner(0), Some(1));
}

#[test]
fn transfer_round_trips() {
    let mut ledger = Pallet::new();
    assert!(ledger.create_with_genome(1, [9; 16]).is_ok());
    assert!(ledger.create_with_genome(5, [8; 16]).is_ok());
    let before = ledger.clone();
    assert_eq!(
        ledger.transfer(1, 2, 0),
        Ok(Event::KittyTransfer { from: 1, kitty_id: 0, to: 2 })
    );
    assert_eq!(ledger.kitty_owner(0), Some(2));
    assert_eq!(ledger.kitty_owner(1), Some(5));
    assert_eq!(
        ledger.transfer(2, 1, 0),
        Ok(Event::KittyTransfer { from: 2, kitty_id: 0, to: 1 })
    );
    assert_eq!(ledger, before);
}

#[test]
fn transfer_to_oneself_succeeds() {
    let mut ledger = Pallet::new();
    assert!(ledger.create_with_genome(1, [9; 16]).is_ok());
    let before = ledger.clone();
    assert_eq!(
        ledger.transfer(1, 1, 0),
        Ok(Event::KittyTransfer { from: 1, kitty_id: 0, to: 1 })
    );
    assert_eq!(ledger, before);
}

#[test]
fn an_exhausted_counter_rejects_create_and_breed() {
    let mut ledger = Pallet::new();
    assert!(ledger.create_with_genome(1, [0xf0; 16]).is_ok());
    assert!(ledger.create_with_genome(1, [0x0f; 16]).is_ok());
    assert!(ledger.set_next_kitty_id(KittyId::MAX - 1));
    assert_eq!(
        ledger.create_with_genome(1, [3; 16]),
        Ok(Event::KittyCreated { who: 1, kitty_id: KittyId::MAX - 1, kitty: Kitty([3; 16]) })
    );
    assert_eq!(ledger.next_kitty_id(), KittyId::MAX);

    let before = ledger.clone();
    assert_eq!(ledger.create_with_genome(1, [4; 16]), Err(Error::InvalidKittyId));
    assert_eq!(ledger.create(1, &SEED, None), Err(Error::InvalidKittyId));
    assert_eq!(ledger.breed_with_selector(1, 0, 1, &[0xff; 16]), Err(Error::InvalidKittyId));
    assert_eq!(ledger.breed(1, 0, 1, &SEED, None), Err(Error::InvalidKittyId));
    assert_eq!(ledger.breed(1, 0, 0, &SEED, None), Err(Error::SameKittyId));
    assert_eq!(ledger, before);
    assert_eq!(ledger.next_kitty_id(), KittyId::MAX);
    assert_eq!(ledger.kitties(KittyId::MAX), None);

    assert_eq!(
        ledger.transfer(1, 2, 0),
        Ok(Event::KittyTransfer { from: 1, kitty_id: 0, to: 2 })
    );
    assert_eq!(ledger.next_kitty_id(), KittyId::MAX);
}

#[test]
fn the_counter_never_moves_back() {
    let mut ledger = Pallet::new();
    assert!(ledger.create_with_genome(1, [1; 16]).is_ok());
    assert!(ledger.set_next_kitty_id(10));
    assert_eq!(ledger.next_kitty_id(), 10);
    let before = ledger.clone();
    assert!(!ledger.set_next_kitty_id(9));
    assert_eq!(ledger, before);
    assert!(ledger.set_next_kitty_id(10));
    assert_eq!(
        ledger.create_with_genome(2, [2; 16]),
        Ok(Event::KittyCreated { who: 2, kitty_id: 10, kitty: Kitty([2; 16]) })
    );
    assert_eq!(ledger.kitties(5), None);
    assert_eq!(ledger.kitties(0), Some(Kitty([1; 16])));
}
