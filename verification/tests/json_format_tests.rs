use changweibot::json_format::{PerVehicles, PerWeapons, Vehicles, Weapons, TOP_ITEMS};
use changweibot::stats_api::{top_vehicles, top_weapons};

fn vehicle(name: &str, kind: &str, kills: u32) -> PerVehicles {
    PerVehicles {
        vehicle_name: name.to_string(),
        vehicle_type: kind.to_string(),
        kills,
        kills_per_minute_bits: 1.5f64.to_bits(),
        time_in: 60,
    }
}

fn weapon(name: &str, kind: &str, kills: u32) -> PerWeapons {
    PerWeapons {
        weapon_name: name.to_string(),
        weapon_type: kind.to_string(),
        kills,
        kills_per_minute_bits: 0.25f64.to_bits(),
        accuracy: "10%".to_string(),
        headshots: "5%".to_string(),
    }
}

fn vehicle_names(v: &Vehicles) -> Vec<String> {
    v.vehicles.iter().map(|x| x.vehicle_name.clone()).collect()
}

fn weapon_names(w: &Weapons) -> Vec<String> {
    w.weapons.iter().map(|x| x.weapon_name.clone()).collect()
}

#[test]
fn vehicles_sort_by_kill_orders_most_kills_first() {
    let mut v = Vehicles {
        vehicles: vec![
            vehicle("a", "Tank", 3),
            vehicle("b", "Plane", 10),
            vehicle("c", "Tank", 0),
            vehicle("d", "Other", 7),
        ],
    };
    v.sort_by_kill();
    assert_eq!(vehicle_names(&v), vec!["b", "d", "a", "c"]);
}

#[test]
fn vehicles_sort_by_kill_is_stable() {
    let mut v = Vehicles {
        vehicles: vec![
            vehicle("first", "Tank", 5),
            vehicle("low", "Tank", 1),
            vehicle("second", "Plane", 5),
            vehicle("high", "Other", 9),
            vehicle("third", "Tank", 5),
        ],
    };
    v.sort_by_kill();
    assert_eq!(vehicle_names(&v), vec!["high", "first", "second", "third", "low"]);
}

#[test]
fn sorting_twice_gives_the_same_order() {
    let mut v = Vehicles {
        vehicles: vec![vehicle("x", "Tank", 2), vehicle("y", "Tank", 2), vehicle("z", "Tank", 4)],
    };
    v.sort_by_kill();
    let once = vehicle_names(&v);
    v.sort_by_kill();
    assert_eq!(vehicle_names(&v), once);
}

#[test]
fn sort_by_kill_of_nothing_is_nothing() {
    let mut v = Vehicles { vehicles: vec![] };
    v.sort_by_kill();
    assert!(v.vehicles.is_empty());
}

#[test]
fn weapons_sort_by_kill_orders_most_kills_first_and_is_stable() {
    let mut w = Weapons {
        weapons: vec![
            weapon("m1", "Lmg", 4),
            weapon("m2", "Rifle", 8),
            weapon("m3", "Lmg", 4),
            weapon("m4", "Smg", 12),
        ],
    };
    w.sort_by_kill();
    assert_eq!(weapon_names(&w), vec!["m4", "m2", "m1", "m3"]);
    assert_eq!(w.weapons[0].accuracy, "10%");
}

#[test]
fn vehicles_fitter_by_type_keeps_that_type_in_order() {
    let v = Vehicles {
        vehicles: vec![
            vehicle("a", "Tank", 3),
            vehicle("b", "Plane", 10),
            vehicle("c", "Tank", 0),
        ],
    };
    let tanks = v.fitter_by_type("Tank");
    assert_eq!(vehicle_names(&tanks), vec!["a", "c"]);
    assert_eq!(tanks.vehicles[1].kills, 0);
    assert!(v.fitter_by_type("Boat").vehicles.is_empty());
    assert_eq!(v.vehicles.len(), 3);
}

#[test]
fn weapons_fitter_by_type_matches_the_whole_type() {
    let w = Weapons {
        weapons: vec![weapon("a", "Lmg", 1), weapon("b", "Lmg2", 2), weapon("c", "lmg", 3)],
    };
    assert_eq!(weapon_names(&w.fitter_by_type("Lmg")), vec!["a"]);
}

#[test]
fn get_top_item_keeps_ten() {
    let mut v = Vehicles {
        vehicles: (0..12).map(|i| vehicle(&format!("v{i}"), "Tank", i)).collect(),
    };
    v.get_top_item();
    assert_eq!(TOP_ITEMS, 10);
    assert_eq!(v.vehicles.len(), 10);
    assert_eq!(v.vehicles[9].vehicle_name, "v9");
    let mut w = Weapons { weapons: vec![weapon("only", "Lmg", 1)] };
    w.get_top_item();
    assert_eq!(weapon_names(&w), vec!["only"]);
}

#[test]
fn top_vehicles_keeps_the_ten_with_most_kills() {
    let json = Vehicles {
        vehicles: (0..12u32).map(|i| vehicle(&format!("v{i}"), "Tank", (i * 7) % 12)).collect(),
    };
    let top = top_vehicles(json);
    assert_eq!(top.vehicles.len(), 10);
    let kills: Vec<u32> = top.vehicles.iter().map(|v| v.kills).collect();
    assert_eq!(kills, vec![11, 10, 9, 8, 7, 6, 5, 4, 3, 2]);
}

#[test]
fn top_weapons_orders_and_cuts() {
    let json = Weapons {
        weapons: (0..11u32).map(|i| weapon(&format!("w{i}"), "Lmg", i % 3)).collect(),
    };
    let top = top_weapons(json);
    assert_eq!(
        weapon_names(&top),
        vec!["w2", "w5", "w8", "w1", "w4", "w7", "w10", "w0", "w3", "w6"]
    );
}

#[test]
fn selecting_and_ranking_commute() {
    let make = || Vehicles {
        vehicles: vec![
            vehicle("a", "Tank", 3),
            vehicle("b", "Plane", 9),
            vehicle("c", "Tank", 8),
            vehicle("d", "Tank", 3),
            vehicle("e", "Other", 1),
            vehicle("f", "Tank", 8),
        ],
    };
    let mut ranked = make();
    ranked.sort_by_kill();
    let ranked_then_selected = ranked.fitter_by_type("Tank");
    let mut selected_then_ranked = make().fitter_by_type("Tank");
    selected_then_ranked.sort_by_kill();
    assert_eq!(vehicle_names(&ranked_then_selected), vec!["c", "f", "a", "d"]);
    assert_eq!(vehicle_names(&ranked_then_selected), vehicle_names(&selected_then_ranked));
}

#[test]
fn selecting_twice_is_selecting_once() {
    let w = Weapons {
        weapons: vec![weapon("a", "Lmg", 1), weapon("b", "Smg", 2), weapon("c", "Lmg", 3)],
    };
    let once = w.fitter_by_type("Lmg");
    let twice = once.fitter_by_type("Lmg");
    assert_eq!(weapon_names(&once), vec!["a", "c"]);
    assert_eq!(weapon_names(&twice), weapon_names(&once));
}
