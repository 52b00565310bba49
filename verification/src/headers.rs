//! Header fields: values by name.

use crate::text::{all_ascii, ascii_lowered, lowercase, to_lowercase};
use vstd::prelude::*;

verus! {

/// Header fields in the order in which their names were first set. No name
/// occurs twice.
#[derive(Debug)]
pub struct Headers {
    fields: Vec<(String, String)>,
}

/// No name occurs twice among `entries`.
pub open spec fn distinct_names(entries: Seq<(Seq<char>, Seq<char>)>) -> bool {
    forall|i: int, j: int|
        0 <= i < j < entries.len() ==> (#[trigger] entries[i]).0 != (#[trigger] entries[j]).0
}

/// The value of each name that occurs among `entries`.
pub open spec fn entries_map(entries: Seq<(Seq<char>, Seq<char>)>) -> Map<Seq<char>, Seq<char>>
    decreases entries.len(),
{
    if entries.len() == 0 {
        Map::empty()
    } else {
        entries_map(entries.drop_last()).insert(entries.last().0, entries.last().1)
    }
}

/// `entries` with `value` for `name`: in its place where the name occurs, at the
/// end where it does not.
pub open spec fn with_entry(
    entries: Seq<(Seq<char>, Seq<char>)>,
    name: Seq<char>,
    value: Seq<char>,
) -> Seq<(Seq<char>, Seq<char>)> {
    if exists|i: int| 0 <= i < entries.len() && (#[trigger] entries[i]).0 == name {
        let at = choose|i: int| 0 <= i < entries.len() && (#[trigger] entries[i]).0 == name;
        entries.update(at, (name, value))
    } else {
        entries.push((name, value))
    }
}

/// The value of the first of `entries` whose name is `name` when both are in
/// lower case.
pub open spec fn find_ignoring_case(
    entries: Seq<(Seq<char>, Seq<char>)>,
    name: Seq<char>,
) -> Option<Seq<char>>
    decreases entries.len(),
{
    if entries.len() == 0 {
        None
    } else if lowercase(entries.first().0) == lowercase(name) {
        Some(entries.first().1)
    } else {
        find_ignoring_case(entries.drop_first(), name)
    }
}

/// A name is in the map of `entries` exactly if it occurs among them.
proof fn lemma_map_names(entries: Seq<(Seq<char>, Seq<char>)>, name: Seq<char>)
    ensures
        entries_map(entries).contains_key(name) <==> exists|i: int|
            0 <= i < entries.len() && (#[trigger] entries[i]).0 == name,
    decreases entries.len(),
{
    if entries.len() > 0 {
        let init = entries.drop_last();
        lemma_map_names(init, name);
        if entries.last().0 == name {
            assert(entries[entries.len() - 1].0 == name);
        }
        if exists|i: int| 0 <= i < init.len() && (#[trigger] init[i]).0 == name {
            let i = choose|i: int| 0 <= i < init.len() && (#[trigger] init[i]).0 == name;
            assert(entries[i].0 == name);
        }
        if exists|i: int| 0 <= i < entries.len() && (#[trigger] entries[i]).0 == name {
            let i = choose|i: int| 0 <= i < entries.len() && (#[trigger] entries[i]).0 == name;
            if i < entries.len() - 1 {
                assert(init[i].0 == name);
            }
        }
    }
}

/// Names that are distinct stay so without the last entry.
proof fn lemma_distinct_without_last(entries: Seq<(Seq<char>, Seq<char>)>)
    requires
        distinct_names(entries),
        entries.len() > 0,
    ensures
        distinct_names(entries.drop_last()),
{
    let init = entries.drop_last();
    assert forall|i: int, j: int| 0 <= i < j < init.len() implies (#[trigger] init[i]).0 != (
    #[trigger] init[j]).0 by {
        assert(entries[i].0 != entries[j].0);
    }
}

/// Where no name occurs twice, the map has the value that stands beside a name.
proof fn lemma_map_value(entries: Seq<(Seq<char>, Seq<char>)>, at: int)
    requires
        distinct_names(entries),
        0 <= at < entries.len(),
    ensures
        entries_map(entries).contains_key(entries[at].0),
        entries_map(entries)[entries[at].0] == entries[at].1,
    decreases entries.len(),
{
    let init = entries.drop_last();
    if at < entries.len() - 1 {
        lemma_distinct_without_last(entries);
        lemma_map_value(init, at);
        assert(init[at] == entries[at]);
        assert(entries[at].0 != entries[entries.len() - 1].0);
    }
}

/// Where no name occurs twice, the map has as many names as there are entries.
proof fn lemma_map_len(entries: Seq<(Seq<char>, Seq<char>)>)
    requires
        distinct_names(entries),
    ensures
        entries_map(entries).dom().finite(),
        entries_map(entries).dom().len() == entries.len(),
    decreases entries.len(),
{
    if entries.len() > 0 {
        let init = entries.drop_last();
        lemma_distinct_without_last(entries);
        lemma_map_len(init);
        lemma_map_names(init, entries.last().0);
        assert(!entries_map(init).contains_key(entries.last().0)) by {
            if exists|i: int| 0 <= i < init.len() && (#[trigger] init[i]).0 == entries.last().0 {
                let i = choose|i: int|
                    0 <= i < init.len() && (#[trigger] init[i]).0 == entries.last().0;
                assert(entries[i].0 != entries[entries.len() - 1].0);
            }
        }
        assert(entries_map(entries).dom() =~= entries_map(init).dom().insert(entries.last().0));
    }
}

/// Setting an entry keeps the names distinct and sets the name in the map.
proof fn lemma_with_entry(
    entries: Seq<(Seq<char>, Seq<char>)>,
    name: Seq<char>,
    value: Seq<char>,
)
    requires
        distinct_names(entries),
    ensures
        distinct_names(with_entry(entries, name, value)),
        entries_map(with_entry(entries, name, value)) == entries_map(entries).insert(name, value),
{
    let after = with_entry(entries, name, value);
    if exists|i: int| 0 <= i < entries.len() && (#[trigger] entries[i]).0 == name {
        let at = choose|i: int| 0 <= i < entries.len() && (#[trigger] entries[i]).0 == name;
        assert forall|i: int, j: int| 0 <= i < j < after.len() implies (#[trigger] after[i]).0 != (
        #[trigger] after[j]).0 by {
            assert(entries[i].0 != entries[j].0);
        }
    } else {
        assert forall|i: int, j: int| 0 <= i < j < after.len() implies (#[trigger] after[i]).0 != (
        #[trigger] after[j]).0 by {
            assert(after[i] == entries[i]);
            if j < entries.len() {
                assert(entries[i].0 != entries[j].0);
            }
        }
    }
    let want = entries_map(entries).insert(name, value);
    assert forall|key: Seq<char>| #[trigger]
        entries_map(after).contains_key(key) == want.contains_key(key) && (want.contains_key(key)
            ==> entries_map(after)[key] == want[key]) by {
        lemma_map_names(entries, key);
        lemma_map_names(after, key);
        if exists|i: int| 0 <= i < entries.len() && (#[trigger] entries[i]).0 == key {
            let i = choose|i: int| 0 <= i < entries.len() && (#[trigger] entries[i]).0 == key;
            assert(after[i].0 == key);
            lemma_map_value(entries, i);
            lemma_map_value(after, i);
            if key == name {
                let at = choose|i: int| 0 <= i < entries.len() && (#[trigger] entries[i]).0 == name;
                if i < at {
                    assert(entries[i].0 != entries[at].0);
                }
                if at < i {
                    assert(entries[at].0 != entries[i].0);
                }
            }
        }
        if key == name && !(exists|i: int| 0 <= i < entries.len() && (#[trigger] entries[i]).0
            == name) {
            assert(after[entries.len() as int].0 == key);
            lemma_map_value(after, entries.len() as int);
        }
        if exists|i: int| 0 <= i < after.len() && (#[trigger] after[i]).0 == key {
            let i = choose|i: int| 0 <= i < after.len() && (#[trigger] after[i]).0 == key;
            if i < entries.len() {
                assert(entries[i].0 == key);
            }
        }
    }
    assert(entries_map(after) =~= want);
}

/// Where names are distinct, two entries have the same name only if they are one
/// entry, and the other way round.
pub proof fn law_distinct_names(entries: Seq<(Seq<char>, Seq<char>)>)
    ensures
        distinct_names(entries) <==> forall|i: int, j: int|
            0 <= i < entries.len() && 0 <= j < entries.len() && (#[trigger] entries[i]).0 == (
            #[trigger] entries[j]).0 ==> i == j,
{
    if distinct_names(entries) {
        assert forall|i: int, j: int|
            0 <= i < entries.len() && 0 <= j < entries.len() && (#[trigger] entries[i]).0 == (
            #[trigger] entries[j]).0 implies i == j by {
            if i < j {
                assert(entries[i].0 != entries[j].0);
            }
            if j < i {
                assert(entries[j].0 != entries[i].0);
            }
        }
    }
}

/// The map of entries has exactly the names that occur among them, each with the
/// value that stands beside it.
pub proof fn law_map_of_entries(entries: Seq<(Seq<char>, Seq<char>)>)
    requires
        distinct_names(entries),
    ensures
        forall|i: int|
            0 <= i < entries.len() ==> entries_map(entries).contains_key(
                (#[trigger] entries[i]).0,
            ) && entries_map(entries)[entries[i].0] == entries[i].1,
        forall|name: Seq<char>| #[trigger]
            entries_map(entries).contains_key(name) ==> exists|i: int|
                0 <= i < entries.len() && (#[trigger] entries[i]).0 == name,
{
    assert forall|i: int| 0 <= i < entries.len() implies entries_map(entries).contains_key(
        (#[trigger] entries[i]).0,
    ) && entries_map(entries)[entries[i].0] == entries[i].1 by {
        lemma_map_value(entries, i);
    }
    assert forall|name: Seq<char>| #[trigger]
        entries_map(entries).contains_key(name) implies exists|i: int|
        0 <= i < entries.len() && (#[trigger] entries[i]).0 == name by {
        lemma_map_names(entries, name);
    }
}

/// Setting a name keeps all entries in their places. Only the value of the name
/// changes, and a name that was not there comes last.
pub proof fn law_setting_keeps_the_order(
    entries: Seq<(Seq<char>, Seq<char>)>,
    name: Seq<char>,
    value: Seq<char>,
)
    requires
        distinct_names(entries),
    ensures
        ({
            let after = with_entry(entries, name, value);
            &&& entries.len() <= after.len() <= entries.len() + 1
            &&& forall|i: int|
                0 <= i < entries.len() ==> (#[trigger] after[i]).0 == entries[i].0 && (if entries[i].0
                    == name {
                    after[i].1 == value
                } else {
                    after[i].1 == entries[i].1
                })
            &&& after.len() > entries.len() ==> after.last() == (name, value)
            &&& after.len() > entries.len() <==> (forall|i: int|
                0 <= i < entries.len() ==> (#[trigger] entries[i]).0 != name)
        }),
{
    if exists|i: int| 0 <= i < entries.len() && (#[trigger] entries[i]).0 == name {
        let at = choose|i: int| 0 <= i < entries.len() && (#[trigger] entries[i]).0 == name;
        let after = with_entry(entries, name, value);
        assert forall|i: int| 0 <= i < entries.len() implies (#[trigger] after[i]).0
            == entries[i].0 && (if entries[i].0 == name {
            after[i].1 == value
        } else {
            after[i].1 == entries[i].1
        }) by {
            if i < at {
                assert(entries[i].0 != entries[at].0);
            }
            if at < i {
                assert(entries[at].0 != entries[i].0);
            }
        }
    }
}

/// A search that ignores case stops at the first entry whose name is the sought
/// one in lower case, and finds nothing only where there is none.
pub proof fn law_find_stops_at_the_first(
    entries: Seq<(Seq<char>, Seq<char>)>,
    name: Seq<char>,
)
    ensures
        match find_ignoring_case(entries, name) {
            Some(value) => exists|i: int|
                0 <= i < entries.len() && (#[trigger] entries[i]).1 == value && lowercase(
                    entries[i].0,
                ) == lowercase(name) && forall|j: int|
                    0 <= j < i ==> lowercase((#[trigger] entries[j]).0) != lowercase(name),
            None => forall|i: int|
                0 <= i < entries.len() ==> lowercase((#[trigger] entries[i]).0) != lowercase(name),
        },
    decreases entries.len(),
{
    lemma_find_position(entries, name);
    if entries.len() > 0 {
        if lowercase(entries.first().0) == lowercase(name) {
            assert(entries[0].1 == entries.first().1);
        } else {
            let rest = entries.drop_first();
            law_find_stops_at_the_first(rest, name);
            if let Some(value) = find_ignoring_case(rest, name) {
                let i = choose|i: int|
                    0 <= i < rest.len() && (#[trigger] rest[i]).1 == value && lowercase(rest[i].0)
                        == lowercase(name) && forall|j: int|
                        0 <= j < i ==> lowercase((#[trigger] rest[j]).0) != lowercase(name);
                assert(entries[i + 1] == rest[i]);
                assert forall|j: int| 0 <= j < i + 1 implies lowercase((#[trigger] entries[j]).0)
                    != lowercase(name) by {
                    if j > 0 {
                        assert(rest[j - 1] == entries[j]);
                    }
                }
            }
        }
    }
}

/// A name that has been set has the value that it was set to, and the values of
/// all other names stay as they were.
pub proof fn law_set_values_are_read_back(
    entries: Seq<(Seq<char>, Seq<char>)>,
    name: Seq<char>,
    value: Seq<char>,
    other: Seq<char>,
)
    requires
        distinct_names(entries),
    ensures
        distinct_names(with_entry(entries, name, value)),
        entries_map(with_entry(entries, name, value)).contains_key(name),
        entries_map(with_entry(entries, name, value))[name] == value,
        other != name ==> (entries_map(with_entry(entries, name, value)).contains_key(other)
            <==> entries_map(entries).contains_key(other)),
        other != name && entries_map(entries).contains_key(other) ==> entries_map(
            with_entry(entries, name, value),
        )[other] == entries_map(entries)[other],
{
    lemma_with_entry(entries, name, value);
}

/// A search that ignores case finds a value exactly if some name is the sought
/// one in lower case, and what it finds is the value of such a name.
pub proof fn law_find_ignoring_case(entries: Seq<(Seq<char>, Seq<char>)>, name: Seq<char>)
    requires
        distinct_names(entries),
    ensures
        find_ignoring_case(entries, name) is Some <==> exists|key: Seq<char>| #[trigger]
            entries_map(entries).contains_key(key) && lowercase(key) == lowercase(name),
        find_ignoring_case(entries, name) matches Some(value) ==> exists|key: Seq<char>| #[trigger]
            entries_map(entries).contains_key(key) && lowercase(key) == lowercase(name)
                && entries_map(entries)[key] == value,
{
    lemma_find_position(entries, name);
    match find_ignoring_case(entries, name) {
        Some(value) => {
            let i = choose|i: int|
                0 <= i < entries.len() && lowercase((#[trigger] entries[i]).0) == lowercase(name)
                    && entries[i].1 == value;
            lemma_map_value(entries, i);
        },
        None => {
            if exists|key: Seq<char>| #[trigger]
                entries_map(entries).contains_key(key) && lowercase(key) == lowercase(name) {
                let key = choose|key: Seq<char>| #[trigger]
                    entries_map(entries).contains_key(key) && lowercase(key) == lowercase(name);
                lemma_map_names(entries, key);
                let i = choose|i: int| 0 <= i < entries.len() && (#[trigger] entries[i]).0 == key;
                assert(lowercase(entries[i].0) == lowercase(name));
            }
        },
    }
}

/// Where a search that ignores case stops.
proof fn lemma_find_position(entries: Seq<(Seq<char>, Seq<char>)>, name: Seq<char>)
    ensures
        match find_ignoring_case(entries, name) {
            Some(value) => exists|i: int|
                0 <= i < entries.len() && lowercase((#[trigger] entries[i]).0) == lowercase(name)
                    && entries[i].1 == value,
            None => forall|i: int|
                0 <= i < entries.len() ==> lowercase((#[trigger] entries[i]).0) != lowercase(name),
        },
    decreases entries.len(),
{
    if entries.len() > 0 {
        if lowercase(entries.first().0) == lowercase(name) {
            assert(entries[0].1 == entries.first().1);
        } else {
            let rest = entries.drop_first();
            lemma_find_position(rest, name);
            match find_ignoring_case(rest, name) {
                Some(value) => {
                    let i = choose|i: int|
                        0 <= i < rest.len() && lowercase((#[trigger] rest[i]).0) == lowercase(name)
                            && rest[i].1 == value;
                    assert(entries[i + 1] == rest[i]);
                },
                None => {
                    assert forall|i: int| 0 <= i < entries.len() implies lowercase(
                        (#[trigger] entries[i]).0,
                    ) != lowercase(name) by {
                        if i > 0 {
                            assert(rest[i - 1] == entries[i]);
                        }
                    }
                },
            }
        }
    }
}

impl Headers {
    /// The fields in order: names and values.
    pub closed spec fn entries(&self) -> Seq<(Seq<char>, Seq<char>)> {
        self.fields@.map_values(|field: (String, String)| (field.0@, field.1@))
    }

    #[verifier::type_invariant]
    spec fn names_are_distinct(&self) -> bool {
        distinct_names(self.entries())
    }

    /// No fields.
    pub fn new() -> (headers: Self)
        ensures
            headers.entries() == Seq::<(Seq<char>, Seq<char>)>::empty(),
            headers@ == Map::<Seq<char>, Seq<char>>::empty(),
    {
        let headers = Headers { fields: Vec::new() };
        assert(headers.entries() =~= Seq::<(Seq<char>, Seq<char>)>::empty());
        headers
    }

    /// How many fields there are.
    pub fn len(&self) -> (count: usize)
        ensures
            count == self.entries().len(),
            self@.dom().finite(),
            count == self@.dom().len(),
    {
        proof {
            use_type_invariant(self);
            lemma_map_len(self.entries());
        }
        self.fields.len()
    }

    /// The name and the value of the field at `at`.
    pub fn entry(&self, at: usize) -> (field: (&String, &String))
        requires
            at < self.entries().len(),
        ensures
            (field.0@, field.1@) == self.entries()[at as int],
            self@.contains_key(field.0@),
            self@[field.0@] == field.1@,
    {
        proof {
            use_type_invariant(self);
            lemma_map_value(self.entries(), at as int);
        }
        (&self.fields[at].0, &self.fields[at].1)
    }

    /// Sets the value of `name`.
    pub fn insert(&mut self, name: String, value: String)
        ensures
            final(self).entries() == with_entry(old(self).entries(), name@, value@),
            final(self)@ == old(self)@.insert(name@, value@),
    {
        proof {
            use_type_invariant(&*self);
        }
        let ghost before = self.entries();
        let mut fields: Vec<(String, String)> = Vec::new();
        std::mem::swap(&mut fields, &mut self.fields);
        let mut at: usize = 0;
        while at < fields.len() && fields[at].0 != name
            invariant
                at <= fields@.len(),
                before == fields@.map_values(|field: (String, String)| (field.0@, field.1@)),
                forall|i: int| 0 <= i < at ==> (#[trigger] fields@[i]).0@ != name@,
            decreases fields@.len() - at,
        {
            at += 1;
        }
        proof {
            lemma_with_entry(before, name@, value@);
            if at < fields@.len() {
                assert(before[at as int].0 == name@);
                let chosen = choose|i: int|
                    0 <= i < before.len() && (#[trigger] before[i]).0 == name@;
                if chosen < at {
                    assert(before[chosen].0 != before[at as int].0);
                }
                if at < chosen {
                    assert(before[at as int].0 != before[chosen].0);
                }
            } else {
                assert forall|i: int| 0 <= i < before.len() implies (#[trigger] before[i]).0
                    != name@ by {
                    assert(before[i].0 == fields@[i].0@);
                }
            }
        }
        let ghost set = with_entry(before, name@, value@);
        if at < fields.len() {
            fields[at].1 = value;
        } else {
            fields.push((name, value));
        }
        assert(fields@.map_values(|field: (String, String)| (field.0@, field.1@)) =~= set);
        self.fields = fields;
    }

    /// Sets every field of `other`.
    pub fn extend(&mut self, other: &Headers)
        ensures
            final(self)@ == old(self)@.union_prefer_right(other@),
    {
        let ghost entries = other.entries();
        let mut at: usize = 0;
        assert(self@ =~= self@.union_prefer_right(entries_map(entries.take(0))));
        while at < other.fields.len()
            invariant
                at <= other.fields@.len(),
                entries == other.entries(),
                self@ == old(self)@.union_prefer_right(entries_map(entries.take(at as int))),
            decreases other.fields@.len() - at,
        {
            self.insert(other.fields[at].0.clone(), other.fields[at].1.clone());
            proof {
                let next = entries.take(at + 1);
                assert(next.drop_last() =~= entries.take(at as int));
                assert(next.last() == entries[at as int]);
                assert(self@ =~= old(self)@.union_prefer_right(entries_map(next)));
            }
            at += 1;
        }
        assert(entries.take(at as int) =~= entries);
    }

    /// The value of `name`.
    pub fn get(&self, name: &str) -> (value: Option<&String>)
        ensures
            value is Some <==> self@.contains_key(name@),
            value matches Some(text) ==> text@ == self@[name@],
    {
        proof {
            use_type_invariant(self);
        }
        let ghost entries = self.entries();
        let wanted = name.to_string();
        let mut at: usize = 0;
        while at < self.fields.len()
            invariant
                at <= self.fields@.len(),
                entries == self.entries(),
                distinct_names(entries),
                wanted@ == name@,
                forall|i: int| 0 <= i < at ==> (#[trigger] entries[i]).0 != name@,
            decreases self.fields@.len() - at,
        {
            if self.fields[at].0 == wanted {
                proof {
                    assert(entries[at as int].0 == name@);
                    lemma_map_value(entries, at as int);
                }
                return Some(&self.fields[at].1);
            }
            assert(entries[at as int].0 != name@);
            at += 1;
        }
        proof {
            lemma_map_names(entries, name@);
        }
        None
    }

    /// The value of the first name that is `name` when both are in lower case.
    pub fn get_ignoring_case(&self, name: &str) -> (value: Option<&String>)
        ensures
            match value {
                Some(text) => find_ignoring_case(self.entries(), name@) == Some(text@),
                None => find_ignoring_case(self.entries(), name@) is None,
            },
            value is Some <==> exists|key: Seq<char>| #[trigger]
                self@.contains_key(key) && lowercase(key) == lowercase(name@),
            value matches Some(text) ==> exists|key: Seq<char>| #[trigger]
                self@.contains_key(key) && lowercase(key) == lowercase(name@) && self@[key]
                    == text@,
            all_ascii(name@) && (forall|key: Seq<char>| #[trigger]
                self@.contains_key(key) ==> all_ascii(key)) ==> (value is Some <==> exists|
                key: Seq<char>,
            | #[trigger]
                self@.contains_key(key) && ascii_lowered(key) == ascii_lowered(name@)),
    {
        proof {
            use_type_invariant(self);
            law_find_ignoring_case(self.entries(), name@);
        }
        let ghost entries = self.entries();
        let wanted = to_lowercase(name);
        let mut at: usize = 0;
        assert(entries.skip(0) =~= entries);
        while at < self.fields.len()
            invariant
                at <= self.fields@.len(),
                entries == self.entries(),
                distinct_names(entries),
                wanted@ == lowercase(name@),
                all_ascii(name@) ==> wanted@ == ascii_lowered(name@),
                find_ignoring_case(entries, name@) == find_ignoring_case(
                    entries.skip(at as int),
                    name@,
                ),
                forall|i: int|
                    0 <= i < at && all_ascii(name@) && all_ascii((#[trigger] entries[i]).0)
                        ==> ascii_lowered(entries[i].0) != ascii_lowered(name@),
            decreases self.fields@.len() - at,
        {
            let key = to_lowercase(self.fields[at].0.as_str());
            assert(entries.skip(at as int).first() == entries[at as int]);
            assert(entries.skip(at as int).drop_first() =~= entries.skip(at + 1));
            if key == wanted {
                proof {
                    lemma_map_value(entries, at as int);
                    assert(self@.contains_key(entries[at as int].0));
                }
                return Some(&self.fields[at].1);
            }
            at += 1;
        }
        proof {
            assert forall|key: Seq<char>|
                all_ascii(name@) && #[trigger] self@.contains_key(key) && all_ascii(
                    key,
                ) implies ascii_lowered(key) != ascii_lowered(name@) by {
                lemma_map_names(entries, key);
                let i = choose|i: int| 0 <= i < entries.len() && (#[trigger] entries[i]).0 == key;
                assert(ascii_lowered(entries[i].0) != ascii_lowered(name@));
            }
        }
        None
    }
}

impl View for Headers {
    type V = Map<Seq<char>, Seq<char>>;

    open spec fn view(&self) -> Map<Seq<char>, Seq<char>> {
        entries_map(self.entries())
    }
}

impl Clone for Headers {
    fn clone(&self) -> (copy: Self)
        ensures
            copy.entries() == self.entries(),
            copy@ == self@,
    {
        proof {
            use_type_invariant(self);
        }
        let mut fields: Vec<(String, String)> = Vec::new();
        let mut at: usize = 0;
        while at < self.fields.len()
            invariant
                at <= self.fields@.len(),
                fields@ == self.fields@.take(at as int),
            decreases self.fields@.len() - at,
        {
            fields.push((self.fields[at].0.clone(), self.fields[at].1.clone()));
            assert(self.fields@.take(at + 1) =~= self.fields@.take(at as int).push(
                self.fields@[at as int],
            ));
            at += 1;
        }
        assert(fields@ =~= self.fields@);
        Headers { fields }
    }
}

} // verus!
