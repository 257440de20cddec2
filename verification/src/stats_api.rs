//! The addresses of the statistics service's endpoints, and what is done
//! with the service's answers before they are handed on.
//!
//! An address is held as its text, the serialization of a `url::Url`. The
//! parsing, resolving and query encoding are those of the `url` crate.
use vstd::prelude::*;
use crate::json_format::{Vehicles, Weapons, TOP_ITEMS};
use crate::ranking::{is_kill_ranking, first_n};

verus! {

/// The base address of the statistics service.
pub const STATSAPI: &'static str = "https://api.gametools.network/";

/// The text of the URL that `url::Url::parse` makes of `input`; `None` where
/// it refuses `input`.
pub uninterp spec fn url_parse(input: Seq<char>) -> Option<Seq<char>>;

/// The text of the URL that `url::Url::join` makes of `input` against the
/// URL that `url::Url::parse` makes of `base`; `None` where either refuses.
pub uninterp spec fn url_join(base: Seq<char>, input: Seq<char>) -> Option<Seq<char>>;

/// The text of the URL that appending the pair `name`, `value` with
/// `url::Url::query_pairs_mut` makes of the URL that `url::Url::parse` makes
/// of `url`; `None` where the parse refuses `url`.
pub uninterp spec fn url_append_pair(url: Seq<char>, name: Seq<char>, value: Seq<char>) -> Option<
    Seq<char>,
>;

/// Calls `url::Url::parse` and gives the serialization of the URL it makes.
/// Believed: the result is the one that `url_parse` names for `input`.
#[verifier::external_body]
fn parse_url(input: &str) -> (r: Option<String>)
    ensures
        r is Some <==> url_parse(input@) is Some,
        r matches Some(s) ==> s@ == url_parse(input@)->0,
{
    url::Url::parse(input).ok().map(String::from)
}

/// Calls `url::Url::join` on the URL that `url::Url::parse` makes of `base`
/// and gives the serialization of the result. Believed: the result is the
/// one that `url_join` names for `base` and `input`.
#[verifier::external_body]
fn join_url(base: &str, input: &str) -> (r: Option<String>)
    ensures
        r is Some <==> url_join(base@, input@) is Some,
        r matches Some(s) ==> s@ == url_join(base@, input@)->0,
{
    let base = url::Url::parse(base).ok()?;
    base.join(input).ok().map(String::from)
}

/// Appends one query pair with `url::form_urlencoded::Serializer::append_pair`
/// through `url::Url::query_pairs_mut`, on the URL that `url::Url::parse`
/// makes of `url`, and gives the serialization of the result. Believed: the
/// result is the one that `url_append_pair` names for the three arguments.
#[verifier::external_body]
fn append_query_pair(url: &str, name: &str, value: &str) -> (r: Option<String>)
    ensures
        r is Some <==> url_append_pair(url@, name@, value@) is Some,
        r matches Some(s) ==> s@ == url_append_pair(url@, name@, value@)->0,
{
    let mut url = url::Url::parse(url).ok()?;
    url.query_pairs_mut().append_pair(name, value);
    Some(String::from(url))
}

/// The text of `url` with the query pairs `pairs` appended in their order.
pub open spec fn with_query_pairs(url: Seq<char>, pairs: Seq<(Seq<char>, Seq<char>)>) -> Option<
    Seq<char>,
>
    decreases pairs.len(),
{
    if pairs.len() == 0 {
        Some(url)
    } else {
        match with_query_pairs(url, pairs.drop_last()) {
            Some(prefix) => url_append_pair(prefix, pairs.last().0, pairs.last().1),
            None => None,
        }
    }
}

/// The address of the endpoint at `path` of the statistics service, with
/// the query pairs `pairs`.
pub open spec fn endpoint_url(path: Seq<char>, pairs: Seq<(Seq<char>, Seq<char>)>) -> Option<
    Seq<char>,
> {
    match url_parse(STATSAPI@) {
        Some(base) => match url_join(base, path) {
            Some(joined) => with_query_pairs(joined, pairs),
            None => None,
        },
        None => None,
    }
}

/// The views of a list of query pairs.
pub open spec fn pair_views(pairs: Seq<(&str, &str)>) -> Seq<(Seq<char>, Seq<char>)> {
    pairs.map_values(|p: (&str, &str)| (p.0@, p.1@))
}

/// The address of the endpoint at `path`, with the query pairs `pairs`.
pub fn request_url(path: &str, pairs: &[(&str, &str)]) -> (r: Option<String>)
    ensures
        r is Some <==> endpoint_url(path@, pair_views(pairs@)) is Some,
        r matches Some(s) ==> s@ == endpoint_url(path@, pair_views(pairs@))->0,
{
    let base = match parse_url(STATSAPI) {
        Some(base) => base,
        None => return None,
    };
    let mut url = match join_url(base.as_str(), path) {
        Some(joined) => joined,
        None => return None,
    };
    let mut i: usize = 0;
    while i < pairs.len()
        invariant
            i <= pairs@.len(),
            url_parse(STATSAPI@) == Some(base@),
            url_join(base@, path@) is Some,
            with_query_pairs(url_join(base@, path@)->0, pair_views(pairs@).take(i as int)) == Some(
                url@,
            ),
        decreases pairs@.len() - i,
    {
        let (name, value) = pairs[i];
        proof {
            let views = pair_views(pairs@);
            assert(views.take(i + 1).drop_last() =~= views.take(i as int));
            assert(views.take(i + 1).last() == (name@, value@));
        }
        url = match append_query_pair(url.as_str(), name, value) {
            Some(next) => next,
            None => {
                proof {
                    let views = pair_views(pairs@);
                    assert(with_query_pairs(url_join(base@, path@)->0, views.take(i + 1)) is None);
                    lemma_failed_pairs_stay_failed(
                        url_join(base@, path@)->0,
                        views,
                        i + 1,
                    );
                    assert(views.take(views.len() as int) =~= views);
                }
                return None;
            },
        };
        i = i + 1;
    }
    proof {
        assert(pair_views(pairs@).take(pairs@.len() as int) =~= pair_views(pairs@));
    }
    Some(url)
}

/// Once appending a pair fails, appending more pairs does not succeed.
proof fn lemma_failed_pairs_stay_failed(
    url: Seq<char>,
    pairs: Seq<(Seq<char>, Seq<char>)>,
    n: int,
)
    requires
        0 <= n <= pairs.len(),
        with_query_pairs(url, pairs.take(n)) is None,
    ensures
        with_query_pairs(url, pairs.take(pairs.len() as int)) is None,
    decreases pairs.len() - n,
{
    if n < pairs.len() {
        assert(pairs.take(n + 1).drop_last() =~= pairs.take(n));
        lemma_failed_pairs_stay_failed(url, pairs, n + 1);
    }
}

/// The query pairs of the request for a player's overall stats.
pub open spec fn stats_pairs(name: Seq<char>) -> Seq<(Seq<char>, Seq<char>)> {
    seq![
        ("format_values"@, "true"@),
        ("name"@, name),
        ("platform"@, "pc"@),
        ("skip_battlelog"@, "false"@),
        ("lang"@, "en-us"@),
    ]
}

/// The query pairs of the request for a player's vehicle stats.
pub open spec fn vehicles_pairs(name: Seq<char>) -> Seq<(Seq<char>, Seq<char>)> {
    seq![("name"@, name), ("platform"@, "pc"@), ("skip_battlelog"@, "false"@), ("lang"@, "en-us"@)]
}

/// The `name` pair of each request carries the player's name unchanged,
/// whatever it is; every other pair is the same for every player: the
/// platform, the battlelog setting and the language, and for the overall and
/// weapon stats first the formatted values.
pub proof fn lemma_name_pair_carries_the_name(name: Seq<char>, other: Seq<char>)
    ensures
        vehicles_pairs(name).len() == 4,
        vehicles_pairs(name)[0] == ("name"@, name),
        forall|i: int| 1 <= i < 4 ==> #[trigger] vehicles_pairs(name)[i] == vehicles_pairs(other)[i],
        vehicles_pairs(name)[1] == ("platform"@, "pc"@),
        vehicles_pairs(name)[2] == ("skip_battlelog"@, "false"@),
        vehicles_pairs(name)[3] == ("lang"@, "en-us"@),
        stats_pairs(name).len() == 5,
        stats_pairs(name)[0] == ("format_values"@, "true"@),
        stats_pairs(name)[1] == ("name"@, name),
        forall|i: int|
            0 <= i < 5 && i != 1 ==> #[trigger] stats_pairs(name)[i] == stats_pairs(other)[i],
        stats_pairs(name).skip(1) == vehicles_pairs(name),
{
    assert(stats_pairs(name).skip(1) =~= vehicles_pairs(name));
}

/// Query pairs are appended one after the other, in the order given, to the
/// address that joining the path to the service's base address gives.
pub proof fn lemma_pairs_appended_in_order(
    url: Seq<char>,
    first: (Seq<char>, Seq<char>),
    second: (Seq<char>, Seq<char>),
    path: Seq<char>,
)
    ensures
        with_query_pairs(url, Seq::<(Seq<char>, Seq<char>)>::empty()) == Some(url),
        with_query_pairs(url, seq![first]) == url_append_pair(url, first.0, first.1),
        with_query_pairs(url, seq![first, second]) == match url_append_pair(url, first.0, first.1) {
            Some(next) => url_append_pair(next, second.0, second.1),
            None => None,
        },
        endpoint_url(path, Seq::<(Seq<char>, Seq<char>)>::empty()) == match url_parse(
            "https://api.gametools.network/"@,
        ) {
            Some(base) => url_join(base, path),
            None => None,
        },
{
    assert(seq![first].drop_last() =~= Seq::<(Seq<char>, Seq<char>)>::empty());
    assert(seq![first, second].drop_last() =~= seq![first]);
    assert(STATSAPI@ == "https://api.gametools.network/"@);
    match url_parse(STATSAPI@) {
        Some(base) => match url_join(base, path) {
            Some(joined) => {
                assert(with_query_pairs(joined, Seq::<(Seq<char>, Seq<char>)>::empty()) == Some(
                    joined,
                ));
            },
            None => {},
        },
        None => {},
    }
}

/// The address of the request for the overall stats of the player `name`.
pub fn stats_url(name: &str) -> (r: Option<String>)
    ensures
        r is Some <==> endpoint_url("/bf1/stats"@, stats_pairs(name@)) is Some,
        r matches Some(s) ==> s@ == endpoint_url("/bf1/stats"@, stats_pairs(name@))->0,
{
    let pairs = [
        ("format_values", "true"),
        ("name", name),
        ("platform", "pc"),
        ("skip_battlelog", "false"),
        ("lang", "en-us"),
    ];
    proof {
        assert(pair_views(pairs@) =~= stats_pairs(name@));
    }
    request_url("/bf1/stats", &pairs)
}

/// The address of the request for the vehicle stats of the player `name`.
pub fn vehicles_url(name: &str) -> (r: Option<String>)
    ensures
        r is Some <==> endpoint_url("/bf1/vehicles"@, vehicles_pairs(name@)) is Some,
        r matches Some(s) ==> s@ == endpoint_url("/bf1/vehicles"@, vehicles_pairs(name@))->0,
{
    let pairs = [("name", name), ("platform", "pc"), ("skip_battlelog", "false"), ("lang", "en-us")];
    proof {
        assert(pair_views(pairs@) =~= vehicles_pairs(name@));
    }
    request_url("/bf1/vehicles", &pairs)
}

/// The address of the request for the weapon stats of the player `name`.
pub fn weapons_url(name: &str) -> (r: Option<String>)
    ensures
        r is Some <==> endpoint_url("/bf1/weapons"@, stats_pairs(name@)) is Some,
        r matches Some(s) ==> s@ == endpoint_url("/bf1/weapons"@, stats_pairs(name@))->0,
{
    let pairs = [
        ("format_values", "true"),
        ("name", name),
        ("platform", "pc"),
        ("skip_battlelog", "false"),
        ("lang", "en-us"),
    ];
    proof {
        assert(pair_views(pairs@) =~= stats_pairs(name@));
    }
    request_url("/bf1/weapons", &pairs)
}

/// What the bot shows of a player's vehicle stats: the first `TOP_ITEMS`
/// vehicles ordered by kills, most first.
pub fn top_vehicles(json: Vehicles) -> (r: Vehicles)
    ensures
        exists|ranked: Seq<crate::json_format::PerVehicles>|
            is_kill_ranking(ranked, json.vehicles@) && r.vehicles@ == first_n(
                ranked,
                TOP_ITEMS as nat,
            ),
{
    let mut json = json;
    json.sort_by_kill();
    json.get_top_item();
    json
}

/// What the bot shows of a player's weapon stats: the first `TOP_ITEMS`
/// weapons ordered by kills, most first.
pub fn top_weapons(json: Weapons) -> (r: Weapons)
    ensures
        exists|ranked: Seq<crate::json_format::PerWeapons>|
            is_kill_ranking(ranked, json.weapons@) && r.weapons@ == first_n(
                ranked,
                TOP_ITEMS as nat,
            ),
{
    let mut json = json;
    json.sort_by_kill();
    json.get_top_item();
    json
}

} // verus!
