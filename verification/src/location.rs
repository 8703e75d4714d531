//! Naming a place from the parts that a location service reports, and deciding
//! where the coordinates of the report come from.
use vstd::prelude::*;
use crate::text::{
    lemma_same_ignoring_case_laws, eq_ignore_ascii_case, is_blank, join_with, joined, same_ignoring_ascii_case, str_is_blank,
};

verus! {

/// The text of each part that is present.
pub open spec fn part_views(parts: Seq<Option<&str>>) -> Seq<Option<Seq<char>>> {
    parts.map_values(
        |p: Option<&str>|
            match p {
                Some(s) => Some(s@),
                None => None,
            },
    )
}

/// Some piece of `kept` equals `s` up to ASCII case.
pub open spec fn seen_ignoring_case(kept: Seq<Seq<char>>, s: Seq<char>) -> bool {
    exists|j: int| 0 <= j < kept.len() && same_ignoring_ascii_case(#[trigger] kept[j], s)
}

/// The parts that are present and not blank, in order, each kept only where no
/// earlier kept part equals it up to ASCII case.
pub open spec fn distinct_parts(parts: Seq<Option<Seq<char>>>) -> Seq<Seq<char>>
    decreases parts.len(),
{
    if parts.len() == 0 {
        Seq::empty()
    } else {
        let kept = distinct_parts(parts.drop_last());
        match parts.last() {
            Some(p) => if !is_blank(p) && !seen_ignoring_case(kept, p) {
                kept.push(p)
            } else {
                kept
            },
            None => kept,
        }
    }
}

/// The name shown for a place: its distinct parts joined by ", ", or
/// "Unknown location" when no part is left.
pub open spec fn location_name(parts: Seq<Option<Seq<char>>>) -> Seq<char> {
    let kept = distinct_parts(parts);
    if kept.len() == 0 {
        "Unknown location"@
    } else {
        joined(kept, ", "@)
    }
}

/// Every part that `distinct_parts` keeps is present among the inputs and is not blank.
pub proof fn lemma_kept_parts_come_from_input(parts: Seq<Option<Seq<char>>>)
    ensures
        forall|k: int|
            0 <= k < distinct_parts(parts).len() ==> {
                &&& !is_blank(#[trigger] distinct_parts(parts)[k])
                &&& exists|i: int|
                    0 <= i < parts.len() && parts[i] == Some(distinct_parts(parts)[k])
            },
    decreases parts.len(),
{
    if parts.len() > 0 {
        let prev = parts.drop_last();
        lemma_kept_parts_come_from_input(prev);
        let kept = distinct_parts(parts);
        assert forall|k: int| 0 <= k < kept.len() implies {
            &&& !is_blank(#[trigger] kept[k])
            &&& exists|i: int| 0 <= i < parts.len() && parts[i] == Some(kept[k])
        } by {
            if k < distinct_parts(prev).len() {
                let i = choose|i: int| 0 <= i < prev.len() && prev[i] == Some(distinct_parts(prev)[k]);
                assert(parts[i] == prev[i]);
            } else {
                assert(parts[parts.len() - 1] == Some(kept[k]));
            }
        }
    }
}

/// No two parts that `distinct_parts` keeps are equal up to ASCII case.
pub proof fn lemma_kept_parts_pairwise_distinct(parts: Seq<Option<Seq<char>>>)
    ensures
        forall|i: int, j: int|
            0 <= i < j < distinct_parts(parts).len() ==> !same_ignoring_ascii_case(
                #[trigger] distinct_parts(parts)[i],
                #[trigger] distinct_parts(parts)[j],
            ),
    decreases parts.len(),
{
    if parts.len() > 0 {
        let prev = parts.drop_last();
        lemma_kept_parts_pairwise_distinct(prev);
        let old_kept = distinct_parts(prev);
        let kept = distinct_parts(parts);
        assert forall|i: int, j: int| 0 <= i < j < kept.len() implies !same_ignoring_ascii_case(
            #[trigger] kept[i],
            #[trigger] kept[j],
        ) by {
            if j >= old_kept.len() {
                assert(kept[i] == old_kept[i]);
                if same_ignoring_ascii_case(kept[i], kept[j]) {
                    assert(seen_ignoring_case(old_kept, kept[j]));
                }
            } else {
                assert(kept[i] == old_kept[i] && kept[j] == old_kept[j]);
            }
        }
    }
}

/// Every part that is present and not blank is, up to ASCII case, among the kept parts.
pub proof fn lemma_every_part_is_represented(parts: Seq<Option<Seq<char>>>)
    ensures
        forall|i: int|
            0 <= i < parts.len() && #[trigger] parts[i] is Some && !is_blank(parts[i]->0)
                ==> seen_ignoring_case(distinct_parts(parts), parts[i]->0),
    decreases parts.len(),
{
    if parts.len() > 0 {
        let prev = parts.drop_last();
        lemma_every_part_is_represented(prev);
        let old_kept = distinct_parts(prev);
        let kept = distinct_parts(parts);
        assert(old_kept.len() <= kept.len());
        assert forall|k: int| 0 <= k < old_kept.len() implies kept[k] == old_kept[k] by {}
        assert forall|i: int|
            0 <= i < parts.len() && #[trigger] parts[i] is Some && !is_blank(parts[i]->0)
            implies seen_ignoring_case(kept, parts[i]->0) by {
            let p = parts[i]->0;
            if i < prev.len() {
                assert(prev[i] == parts[i]);
                let j = choose|j: int| 0 <= j < old_kept.len() && same_ignoring_ascii_case(#[trigger] old_kept[j], p);
                assert(kept[j] == old_kept[j]);
            } else if seen_ignoring_case(old_kept, p) {
                let j = choose|j: int| 0 <= j < old_kept.len() && same_ignoring_ascii_case(#[trigger] old_kept[j], p);
                assert(kept[j] == old_kept[j]);
            } else {
                assert(kept[kept.len() - 1] == p);
                assert(same_ignoring_ascii_case(kept[kept.len() - 1], p));
            }
        }
    }
}

/// Two parts that are not blank and differ beyond ASCII case are both named,
/// in order, separated by a comma and a space; a single such part is the name.
pub proof fn lemma_two_part_name(a: Seq<char>, b: Seq<char>)
    requires
        !is_blank(a),
        !is_blank(b),
        !same_ignoring_ascii_case(a, b),
    ensures
        location_name(seq![Some(a), Some(b)]) == a + seq![',', ' '] + b,
        location_name(seq![Some(a), None]) == a,
{
    reveal_strlit(", ");
    let two = seq![Some(a), Some(b)];
    assert(two.drop_last() =~= seq![Some(a)]);
    assert(seq![Some(a)].drop_last() =~= Seq::<Option<Seq<char>>>::empty());
    assert(distinct_parts(Seq::<Option<Seq<char>>>::empty()) == Seq::<Seq<char>>::empty());
    assert(!seen_ignoring_case(Seq::<Seq<char>>::empty(), a));
    let k1 = distinct_parts(seq![Some(a)]);
    assert(k1 =~= seq![a]);
    if seen_ignoring_case(k1, b) {
        assert(same_ignoring_ascii_case(k1[0], b));
    }
    assert(distinct_parts(two) =~= seq![a, b]);
    assert(seq![a, b].drop_last() =~= seq![a]);
    assert(", "@ =~= seq![',', ' ']);
    assert(joined(seq![a], ", "@) == a);
    assert(joined(seq![a, b], ", "@) == joined(seq![a], ", "@) + ", "@ + b);
    assert(location_name(two) =~= a + seq![',', ' '] + b);
    let one = seq![Some(a), None::<Seq<char>>];
    assert(one.drop_last() =~= seq![Some(a)]);
    assert(distinct_parts(one) =~= seq![a]);
}

proof fn lemma_joined_ends_with_last(list: Seq<Seq<char>>, sep: Seq<char>)
    requires
        list.len() > 0,
    ensures
        joined(list, sep).len() >= list.last().len(),
{
}

/// The name of a place is never empty.
pub proof fn lemma_location_name_not_empty(parts: Seq<Option<Seq<char>>>)
    ensures
        location_name(parts).len() > 0,
{
    let kept = distinct_parts(parts);
    if kept.len() == 0 {
        reveal_strlit("Unknown location");
    } else {
        lemma_kept_parts_come_from_input(parts);
        lemma_joined_ends_with_last(kept, ", "@);
        let last = kept[kept.len() - 1];
        assert(!is_blank(last));
    }
}

fn contains_ignoring_case(list: &Vec<&str>, s: &str) -> (r: bool)
    ensures
        r == seen_ignoring_case(list@.map_values(|p: &str| p@), s@),
{
    let ghost views = list@.map_values(|p: &str| p@);
    let mut i: usize = 0;
    while i < list.len()
        invariant
            i <= list.len(),
            views == list@.map_values(|p: &str| p@),
            forall|k: int| 0 <= k < i ==> !same_ignoring_ascii_case(#[trigger] views[k], s@),
        decreases list.len() - i,
    {
        if eq_ignore_ascii_case(list[i], s) {
            assert(same_ignoring_ascii_case(views[i as int], s@));
            return true;
        }
        i = i + 1;
    }
    false
}

/// Joins the parts of a place name that are present and not blank, skipping any
/// part that repeats an earlier one up to ASCII case; "Unknown location" when
/// nothing is left.
pub fn join_location_parts<const N: usize>(parts: [Option<&str>; N]) -> (r: String)
    ensures
        r@ == location_name(part_views(parts@)),
{
    let ghost all = part_views(parts@);
    let mut unique: Vec<&str> = Vec::new();
    let mut i: usize = 0;
    while i < N
        invariant
            i <= N,
            parts@.len() == N,
            all == part_views(parts@),
            unique@.map_values(|p: &str| p@) == distinct_parts(all.take(i as int)),
        decreases N - i,
    {
        assert(all.take(i + 1).drop_last() =~= all.take(i as int));
        let ghost before = unique@.map_values(|p: &str| p@);
        match parts[i] {
            Some(part) => {
                if !str_is_blank(part) && !contains_ignoring_case(&unique, part) {
                    unique.push(part);
                    assert(unique@.map_values(|p: &str| p@) =~= before.push(part@));
                }
            },
            None => {},
        }
        i = i + 1;
    }
    assert(all.take(N as int) =~= all);
    if unique.len() == 0 {
        String::from_str("Unknown location")
    } else {
        join_with(&unique, ", ")
    }
}

/// The country part of a searched place: the country, or else the country
/// code, dropped where it repeats the place's own name up to ASCII case.
pub open spec fn search_country(
    name: Seq<char>,
    country: Option<Seq<char>>,
    country_code: Option<Seq<char>>,
) -> Option<Seq<char>> {
    let chosen = match country {
        Some(c) => Some(c),
        None => country_code,
    };
    match chosen {
        Some(c) => if same_ignoring_ascii_case(c, name) {
            None
        } else {
            Some(c)
        },
        None => None,
    }
}

/// The text of an optional part.
pub open spec fn opt_view(o: Option<&str>) -> Option<Seq<char>> {
    match o {
        Some(s) => Some(s@),
        None => None,
    }
}

/// The name of a place found by a search: its name, its first administrative
/// area and its country (see `search_country`), as `join_location_parts` names them.
pub open spec fn search_name(
    name: Seq<char>,
    admin1: Option<Seq<char>>,
    country: Option<Seq<char>>,
    country_code: Option<Seq<char>>,
) -> Seq<char> {
    location_name(seq![Some(name), admin1, search_country(name, country, country_code)])
}

/// A searched place keeps its country (or, without one, its country code) unless
/// that equals the place's name up to ASCII case: in particular whenever its
/// length differs from the name's, and never when it is the name itself.
pub proof fn lemma_search_country_kept(
    name: Seq<char>,
    country: Option<Seq<char>>,
    country_code: Option<Seq<char>>,
)
    ensures
        country matches Some(c) && c.len() != name.len() ==> search_country(
            name,
            country,
            country_code,
        ) == country,
        country is None ==> (country_code matches Some(c) && c.len() != name.len()
            ==> search_country(name, country, country_code) == country_code),
        country == Some(name) ==> search_country(name, country, country_code) is None,
        country is None && country_code is None ==> search_country(
            name,
            country,
            country_code,
        ) is None,
{
    match country {
        Some(c) => lemma_same_ignoring_case_laws(c, name),
        None => match country_code {
            Some(c) => lemma_same_ignoring_case_laws(c, name),
            None => {},
        },
    }
    lemma_same_ignoring_case_laws(name, name);
}

/// Names a place that a search found.
pub fn search_location_name(
    name: &str,
    admin1: Option<&str>,
    country: Option<&str>,
    country_code: Option<&str>,
) -> (r: String)
    ensures
        r@ == search_name(name@, opt_view(admin1), opt_view(country), opt_view(country_code)),
{
    let chosen = match country {
        Some(c) => Some(c),
        None => country_code,
    };
    let kept_country = match chosen {
        Some(c) => if eq_ignore_ascii_case(c, name) {
            None
        } else {
            Some(c)
        },
        None => None,
    };
    let parts = [Some(name), admin1, kept_country];
    let r = join_location_parts(parts);
    assert(part_views(parts@) =~= seq![Some(name@), opt_view(admin1), search_country(name@, opt_view(country), opt_view(country_code))]);
    r
}

/// The name of a place located from the caller's address: the city, region and
/// country as `join_location_parts` names them, then a space and the flag where
/// a non-empty flag was reported.
pub open spec fn ip_name(
    city: Option<Seq<char>>,
    region: Option<Seq<char>>,
    country: Option<Seq<char>>,
    flag: Option<Seq<char>>,
) -> Seq<char> {
    let name = location_name(seq![city, region, country]);
    match flag {
        Some(f) => if f.len() == 0 {
            name
        } else {
            name + " "@ + f
        },
        None => name,
    }
}

/// Names a place located from the caller's address.
pub fn ip_location_name(
    city: Option<&str>,
    region: Option<&str>,
    country: Option<&str>,
    flag: Option<&str>,
) -> (r: String)
    ensures
        r@ == ip_name(opt_view(city), opt_view(region), opt_view(country), opt_view(flag)),
{
    let parts = [city, region, country];
    let mut name = join_location_parts(parts);
    assert(part_views(parts@) =~= seq![opt_view(city), opt_view(region), opt_view(country)]);
    match flag {
        Some(f) => {
            if !f.is_empty() {
                name.append(" ");
                name.append(f);
            }
        },
        None => {},
    }
    name
}

/// Where the coordinates of a report come from.
#[derive(Clone, Copy, Debug, PartialEq, Eq, Structural)]
pub enum LocationSource {
    /// A place name that was searched for.
    Search,
    /// Coordinates given directly.
    Coordinates,
    /// The approximate location of the caller's public address.
    Ip,
}

impl LocationSource {
    /// The label under which the source is reported.
    pub fn label(self) -> (r: &'static str)
        ensures
            r@ == source_label(self),
    {
        match self {
            LocationSource::Search => "search",
            LocationSource::Coordinates => "coordinates",
            LocationSource::Ip => "ip",
        }
    }
}

/// The label under which a source is reported.
pub open spec fn source_label(source: LocationSource) -> Seq<char> {
    match source {
        LocationSource::Search => "search"@,
        LocationSource::Coordinates => "coordinates"@,
        LocationSource::Ip => "ip"@,
    }
}

/// A searched place is reported as "search", given coordinates as
/// "coordinates" and an address location as "ip"; different sources have
/// different labels.
pub proof fn lemma_source_labels(a: LocationSource, b: LocationSource)
    ensures
        a == LocationSource::Search ==> source_label(a) == "search"@,
        a == LocationSource::Coordinates ==> source_label(a) == "coordinates"@,
        a == LocationSource::Ip ==> source_label(a) == "ip"@,
        a != b ==> source_label(a) != source_label(b),
{
    reveal_strlit("search");
    reveal_strlit("coordinates");
    reveal_strlit("ip");
    assert("search"@.len() == 6 && "coordinates"@.len() == 11 && "ip"@.len() == 2);
}

/// A place name wins over coordinates, coordinates are used only when both are
/// given, and the caller's address is located otherwise.
pub proof fn lemma_source_choice(has_place: bool, has_latitude: bool, has_longitude: bool)
    ensures
        ({
            let r = if has_place {
                LocationSource::Search
            } else if has_latitude && has_longitude {
                LocationSource::Coordinates
            } else {
                LocationSource::Ip
            };
            &&& (r == LocationSource::Search <==> has_place)
            &&& (r == LocationSource::Coordinates <==> !has_place && has_latitude && has_longitude)
            &&& (r == LocationSource::Ip <==> !has_place && !(has_latitude && has_longitude))
        }),
{
}

/// A reply is usable exactly when it succeeded and holds both coordinates; a
/// failed reply is explained first, with the service's message where it sent one.
pub proof fn lemma_ip_reply_problem(
    success: bool,
    message: Option<Seq<char>>,
    has_latitude: bool,
    has_longitude: bool,
)
    ensures
        ip_reply_problem(success, message, has_latitude, has_longitude) is None <==> success
            && has_latitude && has_longitude,
        !success ==> ip_reply_problem(success, message, has_latitude, has_longitude)
            == ip_reply_problem(success, message, true, true),
        !success && message is Some ==> {
            let p = ip_reply_problem(success, message, has_latitude, has_longitude)->0;
            let m = message->0;
            &&& p.len() > m.len() + 32
            &&& p.subrange(32, 32int + m.len()) == m
        },
        success && !has_latitude ==> ip_reply_problem(success, message, has_latitude, has_longitude)
            != ip_reply_problem(success, message, true, false),
{
    reveal_strlit("could not detect your location: ");
    reveal_strlit(". Try passing a place name or --lat/--lon");
    reveal_strlit("location response had no latitude");
    reveal_strlit("location response had no longitude");
    if !success && message is Some {
        let p = ip_reply_problem(success, message, has_latitude, has_longitude)->0;
        let m = message->0;
        assert(p.subrange(32, 32int + m.len()) =~= m);
    }
    if success && !has_latitude {
        assert("location response had no latitude"@[29] != "location response had no longitude"@[29]);
    }
}

/// Chooses where the coordinates come from: a given place name is searched for;
/// otherwise a latitude and a longitude given together are used as they are;
/// otherwise the caller's address is located.
pub fn choose_location_source(has_place: bool, has_latitude: bool, has_longitude: bool) -> (r:
    LocationSource)
    ensures
        r == (if has_place {
            LocationSource::Search
        } else if has_latitude && has_longitude {
            LocationSource::Coordinates
        } else {
            LocationSource::Ip
        }),
{
    if has_place {
        LocationSource::Search
    } else if has_latitude && has_longitude {
        LocationSource::Coordinates
    } else {
        LocationSource::Ip
    }
}

/// The reason a reply of the address location service cannot be used, if any:
/// a reported failure (with the service's message, or "unknown location error"),
/// then a missing latitude, then a missing longitude.
pub open spec fn ip_reply_problem(
    success: bool,
    message: Option<Seq<char>>,
    has_latitude: bool,
    has_longitude: bool,
) -> Option<Seq<char>> {
    if !success {
        let m = match message {
            Some(m) => m,
            None => "unknown location error"@,
        };
        Some("could not detect your location: "@ + m + ". Try passing a place name or --lat/--lon"@)
    } else if !has_latitude {
        Some("location response had no latitude"@)
    } else if !has_longitude {
        Some("location response had no longitude"@)
    } else {
        None
    }
}

/// Checks a reply of the address location service: `Ok` when it succeeded and
/// holds both coordinates, otherwise the message that explains why not.
pub fn check_ip_reply(
    success: bool,
    message: Option<&str>,
    has_latitude: bool,
    has_longitude: bool,
) -> (r: Result<(), String>)
    ensures
        match ip_reply_problem(success, opt_view(message), has_latitude, has_longitude) {
            None => r is Ok,
            Some(m) => r matches Err(e) && e@ == m,
        },
{
    if !success {
        let mut text = String::from_str("could not detect your location: ");
        match message {
            Some(m) => text.append(m),
            None => text.append("unknown location error"),
        }
        text.append(". Try passing a place name or --lat/--lon");
        Err(text)
    } else if !has_latitude {
        Err(String::from_str("location response had no latitude"))
    } else if !has_longitude {
        Err(String::from_str("location response had no longitude"))
    } else {
        Ok(())
    }
}

} // verus!
