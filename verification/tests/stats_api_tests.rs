use changweibot::stats_api::{request_url, stats_url, vehicles_url, weapons_url, STATSAPI};

#[test]
fn stats_url_for_a_player() {
    assert_eq!(
        stats_url("glibc2").unwrap(),
        "https://api.gametools.network/bf1/stats?format_values=true&name=glibc2&platform=pc&skip_battlelog=false&lang=en-us"
    );
}

#[test]
fn vehicles_url_for_a_player() {
    assert_eq!(
        vehicles_url("glibc2").unwrap(),
        "https://api.gametools.network/bf1/vehicles?name=glibc2&platform=pc&skip_battlelog=false&lang=en-us"
    );
}

#[test]
fn weapons_url_for_a_player() {
    assert_eq!(
        weapons_url("glibc2").unwrap(),
        "https://api.gametools.network/bf1/weapons?format_values=true&name=glibc2&platform=pc&skip_battlelog=false&lang=en-us"
    );
}

#[test]
fn player_names_are_form_encoded() {
    assert_eq!(
        vehicles_url("a b&c=d").unwrap(),
        "https://api.gametools.network/bf1/vehicles?name=a+b%26c%3Dd&platform=pc&skip_battlelog=false&lang=en-us"
    );
}

#[test]
fn request_url_without_pairs_is_the_joined_path() {
    assert_eq!(STATSAPI, "https://api.gametools.network/");
    assert_eq!(request_url("/bf1/stats", &[]).unwrap(), "https://api.gametools.network/bf1/stats");
    assert_eq!(request_url("v1/x", &[("k", "v")]).unwrap(), "https://api.gametools.network/v1/x?k=v");
}
