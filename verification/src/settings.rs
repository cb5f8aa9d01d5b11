//! Planner settings as they are shown: one line each, ordered by key.

use vstd::prelude::*;
use vstd::string::StrSliceExecFns;

verus! {

/// Whether `a`, read from position `from` on, comes no later than `b` in
/// dictionary order. The two are taken to agree before `from`.
pub open spec fn ordered_from(a: Seq<char>, b: Seq<char>, from: int) -> bool
    decreases a.len() - from,
{
    if from < 0 || from >= a.len() {
        true
    } else if from >= b.len() {
        false
    } else if a[from] != b[from] {
        a[from] < b[from]
    } else {
        ordered_from(a, b, from + 1)
    }
}

/// Dictionary order on texts, character by character: `a` comes no later
/// than `b`.
pub open spec fn ordered(a: Seq<char>, b: Seq<char>) -> bool {
    ordered_from(a, b, 0)
}

/// Any two texts are ordered one way or the other.
pub proof fn ordered_is_total(a: Seq<char>, b: Seq<char>, from: int)
    requires
        0 <= from,
    ensures
        ordered_from(a, b, from) || ordered_from(b, a, from),
    decreases a.len() - from,
{
    if from < a.len() && from < b.len() {
        if a[from] == b[from] {
            ordered_is_total(a, b, from + 1);
        }
    }
}

/// Dictionary order is transitive.
pub proof fn ordered_is_transitive(a: Seq<char>, b: Seq<char>, c: Seq<char>, from: int)
    requires
        0 <= from,
        ordered_from(a, b, from),
        ordered_from(b, c, from),
    ensures
        ordered_from(a, c, from),
    decreases a.len() - from,
{
    if from < a.len() && from < b.len() && from < c.len() && a[from] == b[from] && b[from]
        == c[from] {
        ordered_is_transitive(a, b, c, from + 1);
    }
}

/// Whether `a` comes no later than `b` in dictionary order.
pub fn comes_first(a: &str, b: &str) -> (first: bool)
    ensures
        first == ordered(a@, b@),
{
    let a_len = a.unicode_len();
    let b_len = b.unicode_len();
    let mut i: usize = 0;
    while i < a_len && i < b_len
        invariant
            a_len == a@.len(),
            b_len == b@.len(),
            i <= a_len,
            i <= b_len,
            ordered(a@, b@) == ordered_from(a@, b@, i as int),
        decreases a_len - i,
    {
        let x = a.get_char(i);
        let y = b.get_char(i);
        if x != y {
            return x < y;
        }
        i += 1;
    }
    i >= a_len
}

/// The contents of a list of settings: pairs of key and value.
pub open spec fn setting_views(settings: Seq<(String, String)>) -> Seq<(Seq<char>, Seq<char>)> {
    settings.map_values(|entry: (String, String)| (entry.0@, entry.1@))
}

/// The keys of `settings` never go down.
pub open spec fn sorted_by_key(settings: Seq<(Seq<char>, Seq<char>)>) -> bool {
    forall|i: int, j: int|
        0 <= i < j < settings.len() ==> ordered(
            (#[trigger] settings[i]).0,
            (#[trigger] settings[j]).0,
        )
}

/// Where a setting with `key` goes into `sorted`, looking from `from` on:
/// before the first setting whose key comes no earlier, or at the end.
pub open spec fn place_of(sorted: Seq<(Seq<char>, Seq<char>)>, key: Seq<char>, from: int) -> int
    decreases sorted.len() - from,
{
    if from < 0 || from >= sorted.len() {
        sorted.len() as int
    } else if ordered(key, sorted[from].0) {
        from
    } else {
        place_of(sorted, key, from + 1)
    }
}

/// The settings from `from` on, in the order of their keys. Settings with
/// the same key keep the order in which they were given.
pub open spec fn in_key_order(settings: Seq<(Seq<char>, Seq<char>)>, from: int) -> Seq<
    (Seq<char>, Seq<char>),
>
    decreases settings.len() - from,
{
    if from < 0 || from >= settings.len() {
        Seq::empty()
    } else {
        let behind = in_key_order(settings, from + 1);
        behind.insert(place_of(behind, settings[from].0, 0), settings[from])
    }
}

/// The place of a setting lies within the list, the keys before it come
/// strictly earlier, and the key at it, if there is one, comes no earlier.
pub proof fn place_of_is_a_place(sorted: Seq<(Seq<char>, Seq<char>)>, key: Seq<char>, from: int)
    requires
        0 <= from <= sorted.len(),
    ensures
        from <= place_of(sorted, key, from) <= sorted.len(),
        forall|k: int|
            from <= k < place_of(sorted, key, from) ==> !ordered(key, (#[trigger] sorted[k]).0),
        place_of(sorted, key, from) < sorted.len() ==> ordered(
            key,
            sorted[place_of(sorted, key, from)].0,
        ),
    decreases sorted.len() - from,
{
    if from < sorted.len() && !ordered(key, sorted[from].0) {
        place_of_is_a_place(sorted, key, from + 1);
    }
}

/// A setting put at its place into a list that is ordered by key leaves the
/// list ordered by key.
pub proof fn placing_keeps_order(sorted: Seq<(Seq<char>, Seq<char>)>, entry: (Seq<char>, Seq<char>))
    requires
        sorted_by_key(sorted),
    ensures
        sorted_by_key(sorted.insert(place_of(sorted, entry.0, 0), entry)),
{
    let at = place_of(sorted, entry.0, 0);
    let placed = sorted.insert(at, entry);
    place_of_is_a_place(sorted, entry.0, 0);
    assert forall|i: int, j: int| 0 <= i < j < placed.len() implies ordered(
        (#[trigger] placed[i]).0,
        (#[trigger] placed[j]).0,
    ) by {
        if j == at {
            assert(placed[i] == sorted[i]);
            ordered_is_total(entry.0, sorted[i].0, 0);
        } else if i == at {
            assert(placed[j] == sorted[j - 1]);
            if j - 1 > at {
                ordered_is_transitive(entry.0, sorted[at].0, sorted[j - 1].0, 0);
            }
        } else {
            assert(placed[i] == sorted[if i < at { i } else { i - 1 }]);
            assert(placed[j] == sorted[if j < at { j } else { j - 1 }]);
        }
    }
}

/// The settings in the order of their keys are ordered by key.
pub proof fn in_key_order_is_sorted(settings: Seq<(Seq<char>, Seq<char>)>, from: int)
    requires
        0 <= from,
    ensures
        sorted_by_key(in_key_order(settings, from)),
    decreases settings.len() - from,
{
    if from < settings.len() {
        in_key_order_is_sorted(settings, from + 1);
        placing_keeps_order(in_key_order(settings, from + 1), settings[from]);
    }
}

/// The settings in the order of their keys are the settings that were
/// given, each as often as it was given.
pub proof fn in_key_order_keeps_every_setting(settings: Seq<(Seq<char>, Seq<char>)>, from: int)
    requires
        0 <= from <= settings.len(),
    ensures
        in_key_order(settings, from).to_multiset() == settings.skip(from).to_multiset(),
    decreases settings.len() - from,
{
    broadcast use vstd::seq_lib::group_to_multiset_ensures;

    if from < settings.len() {
        in_key_order_keeps_every_setting(settings, from + 1);
        let behind = in_key_order(settings, from + 1);
        let at = place_of(behind, settings[from].0, 0);
        place_of_is_a_place(behind, settings[from].0, 0);
        let placed = behind.insert(at, settings[from]);
        assert(placed.remove(at) =~= behind);
        assert(placed.to_multiset() =~= behind.to_multiset().insert(settings[from]));
        assert(settings.skip(from).remove(0) =~= settings.skip(from + 1));
        assert(settings.skip(from).to_multiset() =~= settings.skip(from + 1).to_multiset().insert(
            settings[from],
        ));
    } else {
        assert(settings.skip(from) =~= Seq::empty());
    }
}

/// Puts `settings` in the order of their keys. Settings with the same key
/// keep the order in which they were given.
pub fn sort_settings(settings: Vec<(String, String)>) -> (sorted: Vec<(String, String)>)
    ensures
        setting_views(sorted@) == in_key_order(setting_views(settings@), 0),
{
    let ghost given = setting_views(settings@);
    let mut rest = settings;
    let mut sorted: Vec<(String, String)> = Vec::new();
    while rest.len() > 0
        invariant
            rest@ == settings@.subrange(0, rest@.len() as int),
            rest@.len() <= settings@.len(),
            given == setting_views(settings@),
            setting_views(sorted@) == in_key_order(given, rest@.len() as int),
        decreases rest.len(),
    {
        let ghost behind = setting_views(sorted@);
        let entry = rest.pop().unwrap();
        let mut at: usize = 0;
        while at < sorted.len() && !comes_first(entry.0.as_str(), sorted[at].0.as_str())
            invariant
                at <= sorted.len(),
                behind == setting_views(sorted@),
                place_of(behind, entry.0@, 0) == place_of(behind, entry.0@, at as int),
            decreases sorted.len() - at,
        {
            at += 1;
        }
        sorted.insert(at, entry);
        proof {
            assert(given[rest@.len() as int] == (entry.0@, entry.1@));
            assert(setting_views(sorted@) =~= behind.insert(at as int, (entry.0@, entry.1@)));
        }
    }
    sorted
}

/// Two texts that are ordered both ways agree from `from` on, if they agree
/// before it: they are the same text.
pub proof fn ordered_both_ways_is_equal(a: Seq<char>, b: Seq<char>, from: int)
    requires
        0 <= from,
        ordered_from(a, b, from),
        ordered_from(b, a, from),
        from <= a.len(),
        from <= b.len(),
        forall|k: int| 0 <= k < from ==> a[k] == b[k],
    ensures
        a == b,
    decreases a.len() - from,
{
    if from < a.len() && from < b.len() {
        ordered_both_ways_is_equal(a, b, from + 1);
    }
}

/// No two of `settings` have the same key.
pub open spec fn keys_are_distinct(settings: Seq<(Seq<char>, Seq<char>)>) -> bool {
    forall|i: int, j: int|
        0 <= i < j < settings.len() ==> (#[trigger] settings[i]).0 != (#[trigger] settings[j]).0
}

/// Settings with distinct keys have one order by key only: two lists that
/// hold the same settings and are both ordered by key are the same list.
pub proof fn order_by_key_is_unique(a: Seq<(Seq<char>, Seq<char>)>, b: Seq<(Seq<char>, Seq<char>)>)
    requires
        sorted_by_key(a),
        sorted_by_key(b),
        keys_are_distinct(a),
        a.to_multiset() == b.to_multiset(),
    ensures
        a == b,
    decreases a.len(),
{
    a.to_multiset_ensures();
    b.to_multiset_ensures();
    if a.len() > 0 {
        // The first of each list is found in the other, so the two firsts
        // are ordered both ways: they have the same key, and are the same.
        let x = a[0];
        let y = b[0];
        assert(b.to_multiset().count(x) > 0);
        assert(a.to_multiset().count(y) > 0);
        let i = choose|i: int| 0 <= i < a.len() && a[i] == y;
        if i != 0 {
            ordered_both_ways_is_equal(x.0, y.0, 0);
        }
        let a_rest = a.remove(0);
        let b_rest = b.remove(0);
        assert(sorted_by_key(a_rest) && keys_are_distinct(a_rest));
        assert(sorted_by_key(b_rest));
        order_by_key_is_unique(a_rest, b_rest);
        assert(b =~= seq![y] + b_rest);
    }
}

} // verus!
