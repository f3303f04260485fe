use spaceship::part::CreatePartType;
use spaceship::{FailureReason, Purchase, Spaceship, SpaceshipBuilder};

#[test]
fn new_ship_is_empty() {
    let ship = Spaceship::new(String::from("Sara"));
    assert_eq!(ship.size(), 0);
    assert_eq!(ship.parts.len(), 0);
    assert_eq!(ship.iteration, 0);
}

#[test]
fn opening_a_builder_scales_the_base_cost() {
    // Base cost is 1000 * (1 + 0.01 * iteration).
    let ship = Spaceship::new(String::from("Sara"));
    let first = SpaceshipBuilder::new(ship);
    assert_eq!(first.iteration, 1);
    assert_eq!(first.costs(), 101000);
    let second = SpaceshipBuilder::new(first.ship);
    assert_eq!(second.iteration, 2);
    assert_eq!(second.costs(), 102000);
}

#[test]
fn first_add_matches_the_quoted_cost() {
    // Cargo(10, 1) costs 150.80; with nothing installed or staged the
    // marginal cost equals it, and the running total becomes
    // 1010.00 + 150.80 = 1160.80. A second quote sees the staged size
    // of 10 and rises by 0.10.
    let ship = Spaceship::new(String::from("Sara"));
    let mut builder = SpaceshipBuilder::new(ship);
    assert_eq!(builder.costs(), 101000);
    assert_eq!(builder.add_part_cost(CreatePartType::Cargo, 10, 1), 15080);
    builder.add_part(CreatePartType::Cargo, 10, 1);
    assert_eq!(builder.costs(), 116080);
    assert_eq!(builder.size(), 10);
    assert_eq!(builder.add_part_cost(CreatePartType::Cargo, 10, 1), 15090);
}

#[test]
fn finalize_without_enough_funds_changes_nothing() {
    // 10.00 of funds against a 1160.80 running cost: the purchase
    // fails, the funds stay, and the builder comes back intact.
    let ship = Spaceship::new(String::from("Sara"));
    let mut builder = SpaceshipBuilder::new(ship);
    builder.add_part(CreatePartType::Cargo, 10, 1);
    let mut funds: i64 = 1000;
    match builder.complete(&mut funds) {
        Purchase::Failure(intact, reason) => {
            assert_eq!(reason, FailureReason::TooLittleFunds);
            assert_eq!(intact.costs(), 116080);
            assert_eq!(intact.parts_iter().len(), 1);
            assert_eq!(intact.ship.parts.len(), 0);
            assert_eq!(intact.ship.size(), 0);
        },
        Purchase::Success(_) => panic!("the purchase must fail on 10.00 of funds"),
    }
    assert_eq!(funds, 1000);
}

#[test]
fn finalize_with_enough_funds_deducts_the_cost() {
    let ship = Spaceship::new(String::from("Sara"));
    let mut builder = SpaceshipBuilder::new(ship);
    builder.add_part(CreatePartType::Cargo, 10, 1);
    let mut funds: i64 = 200000;
    match builder.complete(&mut funds) {
        Purchase::Success(ship) => {
            assert_eq!(ship.parts.len(), 1);
            assert_eq!(ship.size(), 10);
        },
        Purchase::Failure(_, reason) => panic!("unexpected failure: {:?}", reason),
    }
    assert_eq!(funds, 200000 - 116080);
}

#[test]
fn staged_parts_drain_in_reverse_order() {
    let ship = Spaceship::new(String::from("Sara"));
    let mut builder = SpaceshipBuilder::new(ship);
    builder.add_part(CreatePartType::Cargo, 1, 0);
    builder.add_part(CreatePartType::Cargo, 2, 0);
    builder.add_part(CreatePartType::Cargo, 3, 0);
    let staged_ids: Vec<u128> = builder.parts_iter().iter().map(|p| p.id()).collect();
    let mut funds: i64 = 150000;
    match builder.complete(&mut funds) {
        Purchase::Success(ship) => {
            let sizes: Vec<u16> = ship.parts.iter().map(|p| p.size()).collect();
            assert_eq!(sizes, vec![3, 2, 1]);
            let ids: Vec<u128> = ship.parts.iter().map(|p| p.id()).collect();
            let mut reversed = staged_ids.clone();
            reversed.reverse();
            assert_eq!(ids, reversed);
            assert_eq!(ship.size(), 6);
        },
        Purchase::Failure(_, reason) => panic!("unexpected failure: {:?}", reason),
    }
}

#[test]
fn adding_then_popping_restores_the_cost() {
    let ship = Spaceship::new(String::from("Sara"));
    let mut builder = SpaceshipBuilder::new(ship);
    let base = builder.costs();
    builder.add_part(CreatePartType::Cargo, 1, 0);
    builder.add_part(CreatePartType::Hull, 2, 1);
    builder.add_part(CreatePartType::Cockpit, 3, 2);
    let third = builder.pop_part().expect("three parts are staged");
    let second = builder.pop_part().expect("two parts are staged");
    let first = builder.pop_part().expect("one part is staged");
    assert_eq!(third.size(), 3);
    assert_eq!(second.size(), 2);
    assert_eq!(first.size(), 1);
    assert_eq!(builder.costs(), base);
    assert_eq!(builder.parts_iter().len(), 0);
}

#[test]
fn add_order_changes_the_cost() {
    // Cargo(10, 1) costs 150.80 and Cargo(20, 1) costs 151.60; each
    // marginal cost adds 0.01 per unit of size already present, so the
    // two orders differ by 0.10.
    let mut one = SpaceshipBuilder::new(Spaceship::new(String::from("a")));
    one.add_part(CreatePartType::Cargo, 10, 1);
    one.add_part(CreatePartType::Cargo, 20, 1);
    let mut other = SpaceshipBuilder::new(Spaceship::new(String::from("b")));
    other.add_part(CreatePartType::Cargo, 20, 1);
    other.add_part(CreatePartType::Cargo, 10, 1);
    assert_eq!(one.costs(), 131250);
    assert_eq!(other.costs(), 131260);
    assert_ne!(one.costs(), other.costs());
}

#[test]
fn popping_an_empty_staging_area_is_a_no_op() {
    let ship = Spaceship::new(String::from("Sara"));
    let mut builder = SpaceshipBuilder::new(ship);
    let base = builder.costs();
    assert!(builder.pop_part().is_none());
    assert_eq!(builder.costs(), base);
}

#[test]
fn remove_by_id_recomputes_the_marginal_cost() {
    // Cargo(1, 0), Cargo(2, 0), Cargo(3, 0) cost 50.08, 50.16, 50.24;
    // staging all three leaves 1160.52. Removing the middle one
    // subtracts its cost plus 0.01 per remaining unit of size (4),
    // leaving 1110.32.
    let ship = Spaceship::new(String::from("Sara"));
    let mut builder = SpaceshipBuilder::new(ship);
    builder.add_part(CreatePartType::Cargo, 1, 0);
    builder.add_part(CreatePartType::Cargo, 2, 0);
    builder.add_part(CreatePartType::Cargo, 3, 0);
    assert_eq!(builder.costs(), 116052);
    let middle_id = builder.parts_iter()[1].id();
    let removed = builder.remove_part(middle_id).expect("the id is staged");
    assert_eq!(removed.size(), 2);
    assert_eq!(builder.costs(), 111032);
    let sizes: Vec<u16> = builder.parts_iter().iter().map(|p| p.size()).collect();
    assert_eq!(sizes, vec![1, 3]);
    assert!(builder.remove_part(middle_id).is_none());
    assert_eq!(builder.costs(), 111032);
}

#[test]
fn reinserting_a_popped_part_restores_the_cost() {
    let ship = Spaceship::new(String::from("Sara"));
    let mut builder = SpaceshipBuilder::new(ship);
    builder.add_part(CreatePartType::Hull, 6, 2);
    let with_part = builder.costs();
    let part = builder.pop_part().expect("one part is staged");
    assert_eq!(builder.insert_part_cost(&part), part.cost());
    builder.insert_part(part);
    assert_eq!(builder.costs(), with_part);
    assert_eq!(builder.parts_iter().len(), 1);
}
