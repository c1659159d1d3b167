//! Metadata: a small map from names to texts that keeps the order in which
//! the names came.

use vstd::prelude::*;
use crate::json::{
    entries_view, field, lemma_field_absent, lemma_field_first, lemma_field_push,
    lemma_object_view, put, Json, JsonValue,
};
use crate::violation::{Fault, SchemaViolation, Violation};
use crate::wire::{refusal, Record};

verus! {

/// No two entries have the same name.
pub open spec fn distinct_names<V>(entries: Seq<(Seq<char>, V)>) -> bool {
    forall|i: int, j: int|
        0 <= i < j < entries.len() ==> (#[trigger] entries[i]).0 != (#[trigger] entries[j]).0
}

/// No entry has the name.
pub open spec fn lacks<V>(entries: Seq<(Seq<char>, V)>, name: Seq<char>) -> bool {
    forall|k: int| 0 <= k < entries.len() ==> (#[trigger] entries[k]).0 != name
}

/// The entries after a value was stored under a name: the entry of the name
/// holds the value in its old place, or a new entry stands at the end.
pub open spec fn stored<V>(entries: Seq<(Seq<char>, V)>, name: Seq<char>, value: V) -> Seq<
    (Seq<char>, V),
>
    decreases entries.len(),
{
    if entries.len() == 0 {
        seq![(name, value)]
    } else if lacks(entries.drop_last(), name) {
        if entries.last().0 == name {
            entries.drop_last().push((name, value))
        } else {
            entries.push((name, value))
        }
    } else {
        stored(entries.drop_last(), name, value).push(entries.last())
    }
}

/// The entries that the fields of an object are collected into, each stored
/// in turn: a field that is no text is refused.
pub open spec fn collected(fields: Seq<(Seq<char>, JsonValue)>) -> Result<
    Seq<(Seq<char>, Seq<char>)>,
    Violation,
>
    decreases fields.len(),
{
    if fields.len() == 0 {
        Ok(Seq::empty())
    } else {
        match collected(fields.drop_last()) {
            Err(e) => Err(e),
            Ok(front) => match fields.last().1 {
                JsonValue::Text(text) => Ok(stored(front, fields.last().0, text)),
                _ => Err(refusal(fields.last().0, Fault::Mistyped)),
            },
        }
    }
}

/// The fields that entries are written as.
pub open spec fn entry_fields(entries: Seq<(Seq<char>, Seq<char>)>) -> Seq<(Seq<char>, JsonValue)> {
    Seq::new(entries.len(), |k: int| (entries[k].0, JsonValue::Text(entries[k].1)))
}

/// Storing under a name that no entry has adds an entry at the end.
pub proof fn lemma_stored_new<V>(entries: Seq<(Seq<char>, V)>, name: Seq<char>, value: V)
    requires
        lacks(entries, name),
    ensures
        stored(entries, name, value) == entries.push((name, value)),
    decreases entries.len(),
{
    if entries.len() > 0 {
        assert(lacks(entries.drop_last(), name)) by {
            assert forall|k: int| 0 <= k < entries.drop_last().len() implies (
            #[trigger] entries.drop_last()[k]).0 != name by {
                assert(entries[k].0 != name);
            }
        }
        assert(entries.last() == entries[entries.len() - 1]);
    } else {
        assert(entries.push((name, value)) =~= seq![(name, value)]);
    }
}

/// Storing under the name of the entry at `i` replaces the value there.
pub proof fn lemma_stored_old<V>(entries: Seq<(Seq<char>, V)>, name: Seq<char>, value: V, i: int)
    requires
        0 <= i < entries.len(),
        entries[i].0 == name,
        forall|k: int| 0 <= k < i ==> (#[trigger] entries[k]).0 != name,
    ensures
        stored(entries, name, value) == entries.update(i, (name, value)),
    decreases entries.len(),
{
    let front = entries.drop_last();
    if i == entries.len() - 1 {
        assert(lacks(front, name)) by {
            assert forall|k: int| 0 <= k < front.len() implies (#[trigger] front[k]).0 != name by {
                assert(entries[k].0 != name);
            }
        }
        assert(front.push((name, value)) =~= entries.update(i, (name, value)));
    } else {
        assert(!lacks(front, name)) by {
            assert(front[i].0 == name);
        }
        lemma_stored_old(front, name, value, i);
        assert(front.update(i, (name, value)).push(entries.last()) =~= entries.update(
            i,
            (name, value),
        ));
    }
}

/// The first place at which an entry has the name.
pub proof fn lemma_first_hit<V>(entries: Seq<(Seq<char>, V)>, name: Seq<char>) -> (i: int)
    requires
        !lacks(entries, name),
    ensures
        0 <= i < entries.len(),
        entries[i].0 == name,
        forall|k: int| 0 <= k < i ==> (#[trigger] entries[k]).0 != name,
    decreases entries.len(),
{
    let front = entries.drop_last();
    if entries.len() == 0 {
        0
    } else if lacks(front, name) {
        let hit = choose|k: int| 0 <= k < entries.len() && (#[trigger] entries[k]).0 == name;
        if hit < front.len() {
            assert(front[hit].0 != name);
        }
        assert forall|k: int| 0 <= k < entries.len() - 1 implies (#[trigger] entries[k]).0
            != name by {
            assert(front[k].0 != name);
        }
        entries.len() - 1
    } else {
        let i = lemma_first_hit(front, name);
        assert forall|k: int| 0 <= k < i implies (#[trigger] entries[k]).0 != name by {
            assert(front[k].0 != name);
        }
        assert(entries[i] == front[i]);
        i
    }
}

/// Lists that agree in their names, and in what they hold under one name,
/// have the same value found under that name.
pub proof fn lemma_field_agrees<V>(
    a: Seq<(Seq<char>, V)>,
    b: Seq<(Seq<char>, V)>,
    name: Seq<char>,
)
    requires
        a.len() == b.len(),
        forall|k: int| 0 <= k < a.len() ==> (#[trigger] a[k]).0 == b[k].0,
        forall|k: int| 0 <= k < a.len() && a[k].0 == name ==> (#[trigger] a[k]).1 == b[k].1,
    ensures
        field(a, name) == field(b, name),
    decreases a.len(),
{
    if a.len() > 0 {
        assert(a.last() == a[a.len() - 1]);
        assert(b.last() == b[b.len() - 1]);
        assert forall|k: int| 0 <= k < a.drop_last().len() implies (#[trigger] a.drop_last()[k]).0
            == b.drop_last()[k].0 by {
            assert(a[k].0 == b[k].0);
        }
        assert forall|k: int|
            0 <= k < a.drop_last().len() && a.drop_last()[k].0 == name implies (
        #[trigger] a.drop_last()[k]).1 == b.drop_last()[k].1 by {
            assert(a[k].1 == b[k].1);
        }
        lemma_field_agrees(a.drop_last(), b.drop_last(), name);
    }
}

/// Storing keeps the names distinct, finds the value under its name, and
/// leaves what is found under every other name as it was.
pub proof fn lemma_stored<V>(entries: Seq<(Seq<char>, V)>, name: Seq<char>, value: V)
    requires
        distinct_names(entries),
    ensures
        distinct_names(stored(entries, name, value)),
        field(stored(entries, name, value), name) == Some(value),
        forall|other: Seq<char>|
            other != name ==> #[trigger] field(stored(entries, name, value), other) == field(
                entries,
                other,
            ),
{
    let after = stored(entries, name, value);
    if lacks(entries, name) {
        lemma_stored_new(entries, name, value);
        lemma_field_absent(entries, name);
        assert forall|other: Seq<char>| true implies #[trigger] field(after, other) == match field(
            entries,
            other,
        ) {
            Some(v) => Some(v),
            None => if name == other {
                Some(value)
            } else {
                None
            },
        } by {
            lemma_field_push(entries, (name, value), other);
        }
        assert forall|i: int, j: int| 0 <= i < j < after.len() implies (#[trigger] after[i]).0 != (
        #[trigger] after[j]).0 by {
            if j < entries.len() {
                assert(entries[i].0 != entries[j].0);
            } else {
                assert(entries[i].0 != name);
            }
        }
    } else {
        let i = lemma_first_hit(entries, name);
        lemma_stored_old(entries, name, value, i);
        lemma_field_first(after, name, i);
        assert forall|other: Seq<char>| other != name implies #[trigger] field(after, other)
            == field(entries, other) by {
            lemma_field_agrees(after, entries, other);
        }
        assert forall|a: int, b: int| 0 <= a < b < after.len() implies (#[trigger] after[a]).0 != (
        #[trigger] after[b]).0 by {
            assert(entries[a].0 != entries[b].0);
        }
    }
}

/// Entries of distinct names that were written are collected as they were.
pub proof fn lemma_collected_written(entries: Seq<(Seq<char>, Seq<char>)>)
    requires
        distinct_names(entries),
    ensures
        collected(entry_fields(entries)) == Ok::<Seq<(Seq<char>, Seq<char>)>, Violation>(entries),
    decreases entries.len(),
{
    let fields = entry_fields(entries);
    if entries.len() > 0 {
        let front = entries.drop_last();
        assert(fields.drop_last() =~= entry_fields(front));
        assert(distinct_names(front)) by {
            assert forall|i: int, j: int| 0 <= i < j < front.len() implies (#[trigger] front[i]).0
                != (#[trigger] front[j]).0 by {
                assert(entries[i].0 != entries[j].0);
            }
        }
        lemma_collected_written(front);
        assert(lacks(front, entries.last().0)) by {
            assert forall|k: int| 0 <= k < front.len() implies (#[trigger] front[k]).0
                != entries.last().0 by {
                assert(entries[k].0 != entries[entries.len() - 1].0);
            }
        }
        lemma_stored_new(front, entries.last().0, entries.last().1);
        assert(front.push(entries.last()) =~= entries);
    } else {
        assert(entries =~= Seq::empty());
    }
}

/// A map from names to texts. Each name occurs once; the names keep the
/// order in which they were first stored.
#[derive(Debug)]
pub struct Metadata {
    entries: Vec<(String, String)>,
}

impl DeepView for Metadata {
    type V = Seq<(Seq<char>, Seq<char>)>;

    closed spec fn deep_view(&self) -> Seq<(Seq<char>, Seq<char>)> {
        self.entries.deep_view()
    }
}

impl Metadata {
    #[verifier::type_invariant]
    spec fn well_formed(&self) -> bool {
        distinct_names(self.entries.deep_view())
    }

    /// The map without entries.
    pub fn new() -> (r: Metadata)
        ensures
            r.deep_view() == Seq::<(Seq<char>, Seq<char>)>::empty(),
    {
        let entries: Vec<(String, String)> = Vec::new();
        assert(entries.deep_view() =~= Seq::empty());
        Metadata { entries }
    }

    /// The number of names.
    pub fn len(&self) -> (r: usize)
        ensures
            r == self.deep_view().len(),
            distinct_names(self.deep_view()),
    {
        proof {
            use_type_invariant(self);
        }
        self.entries.len()
    }

    /// The name and the text at a place, in the order of the names: `None`
    /// past the last.
    pub fn entry(&self, at: usize) -> (r: Option<(&String, &String)>)
        ensures
            match r {
                Some((name, text)) => at < self.deep_view().len() && self.deep_view()[at as int]
                    == (name@, text@),
                None => at >= self.deep_view().len(),
            },
    {
        if at < self.entries.len() {
            assert(self.entries.deep_view()[at as int] == (
                self.entries[at as int].0@,
                self.entries[at as int].1@,
            ));
            Some((&self.entries[at].0, &self.entries[at].1))
        } else {
            None
        }
    }

    fn find(&self, name: &str) -> (r: Option<usize>)
        ensures
            match r {
                Some(i) => i < self.entries.len() && self.entries.deep_view()[i as int].0 == name@
                    && forall|k: int|
                    0 <= k < i ==> (#[trigger] self.entries.deep_view()[k]).0 != name@,
                None => lacks(self.entries.deep_view(), name@),
            },
    {
        let wanted = name.to_owned();
        let mut i: usize = 0;
        while i < self.entries.len()
            invariant
                i <= self.entries.len(),
                wanted@ == name@,
                forall|k: int| 0 <= k < i ==> (#[trigger] self.entries.deep_view()[k]).0 != name@,
            decreases self.entries.len() - i,
        {
            assert(self.entries.deep_view()[i as int].0 == self.entries[i as int].0@);
            if self.entries[i].0 == wanted {
                return Some(i);
            }
            i = i + 1;
        }
        None
    }

    /// The text stored under a name.
    pub fn get(&self, name: &str) -> (r: Option<&String>)
        ensures
            r.deep_view() == field(self.deep_view(), name@),
    {
        match self.find(name) {
            Some(i) => {
                proof {
                    lemma_field_first(self.entries.deep_view(), name@, i as int);
                    assert(self.entries.deep_view()[i as int].1 == self.entries[i as int].1@);
                }
                Some(&self.entries[i].1)
            },
            None => {
                proof {
                    lemma_field_absent(self.entries.deep_view(), name@);
                }
                None
            },
        }
    }

    /// Whether a text is stored under a name.
    pub fn contains_key(&self, name: &str) -> (r: bool)
        ensures
            r == field(self.deep_view(), name@) is Some,
            distinct_names(self.deep_view()),
    {
        proof {
            use_type_invariant(self);
        }
        self.get(name).is_some()
    }

    /// Stores a text under a name, in place of the text that was there.
    pub fn insert(&mut self, name: &str, text: &str)
        ensures
            final(self).deep_view() == stored(old(self).deep_view(), name@, text@),
            distinct_names(final(self).deep_view()),
    {
        proof {
            use_type_invariant(&*self);
            lemma_stored(self.entries.deep_view(), name@, text@);
        }
        let ghost before = self.entries.deep_view();
        match self.find(name) {
            Some(i) => {
                proof {
                    lemma_stored_old(before, name@, text@, i as int);
                }
                let mut entries: Vec<(String, String)> = Vec::new();
                std::mem::swap(&mut entries, &mut self.entries);
                entries.set(i, (name.to_owned(), text.to_owned()));
                assert(entries.deep_view() =~= before.update(i as int, (name@, text@)));
                self.entries = entries;
            },
            None => {
                proof {
                    lemma_stored_new(before, name@, text@);
                }
                let mut entries: Vec<(String, String)> = Vec::new();
                std::mem::swap(&mut entries, &mut self.entries);
                entries.push((name.to_owned(), text.to_owned()));
                assert(entries.deep_view() =~= before.push((name@, text@)));
                self.entries = entries;
            },
        }
    }
}

impl Clone for Metadata {
    fn clone(&self) -> (r: Metadata)
        ensures
            r.deep_view() == self.deep_view(),
    {
        proof {
            use_type_invariant(self);
        }
        let mut entries: Vec<(String, String)> = Vec::new();
        let mut i: usize = 0;
        while i < self.entries.len()
            invariant
                i <= self.entries.len(),
                entries.len() == i,
                forall|k: int|
                    0 <= k < i ==> (#[trigger] entries[k]).0@ == self.entries[k].0@ && entries[k].1@
                        == self.entries[k].1@,
            decreases self.entries.len() - i,
        {
            entries.push((self.entries[i].0.clone(), self.entries[i].1.clone()));
            i = i + 1;
        }
        assert(entries.deep_view() =~= self.entries.deep_view());
        Metadata { entries }
    }
}

/// Two maps hold the same: as many names, and under each name of the first
/// the second holds the same text.
pub open spec fn same_entries(
    a: Seq<(Seq<char>, Seq<char>)>,
    b: Seq<(Seq<char>, Seq<char>)>,
) -> bool {
    &&& a.len() == b.len()
    &&& forall|k: int| 0 <= k < a.len() ==> field(b, (#[trigger] a[k]).0) == Some(a[k].1)
}

impl PartialEq for Metadata {
    /// Equality of maps: the order of the names does not count.
    fn eq(&self, other: &Metadata) -> (r: bool) {
        if self.entries.len() != other.entries.len() {
            return false;
        }
        let mut i: usize = 0;
        while i < self.entries.len()
            invariant
                i <= self.entries.len(),
                self.entries.len() == other.entries.len(),
                forall|k: int|
                    0 <= k < i ==> field(other.deep_view(), (#[trigger] self.deep_view()[k]).0)
                        == Some(self.deep_view()[k].1),
            decreases self.entries.len() - i,
        {
            assert(self.deep_view()[i as int] == (
                self.entries[i as int].0@,
                self.entries[i as int].1@,
            ));
            match other.get(self.entries[i].0.as_str()) {
                Some(text) => {
                    if !(*text == self.entries[i].1) {
                        return false;
                    }
                },
                None => {
                    return false;
                },
            }
            i = i + 1;
        }
        true
    }
}

impl vstd::std_specs::cmp::PartialEqSpecImpl for Metadata {
    open spec fn obeys_eq_spec() -> bool {
        true
    }

    open spec fn eq_spec(&self, other: &Metadata) -> bool {
        same_entries(self.deep_view(), other.deep_view())
    }
}

/// Fields that stop being collected at one that is refused are refused for
/// that one.
pub proof fn lemma_collected_stops(fields: Seq<(Seq<char>, JsonValue)>, n: int)
    requires
        0 <= n <= fields.len(),
        collected(fields.take(n)) is Err,
    ensures
        collected(fields) == collected(fields.take(n)),
    decreases fields.len() - n,
{
    if n == fields.len() {
        assert(fields.take(n) =~= fields);
    } else {
        assert(fields.take(n + 1).drop_last() =~= fields.take(n));
        lemma_collected_stops(fields, n + 1);
    }
}

impl Record for Metadata {
    open spec fn written(record: Seq<(Seq<char>, Seq<char>)>) -> JsonValue {
        JsonValue::Object(entry_fields(record))
    }

    open spec fn read(doc: JsonValue) -> Result<Seq<(Seq<char>, Seq<char>)>, Violation> {
        match doc {
            JsonValue::Object(fields) => collected(fields),
            _ => Err(refusal("metadata"@, Fault::Mistyped)),
        }
    }

    open spec fn sound(record: Seq<(Seq<char>, Seq<char>)>) -> bool {
        distinct_names(record)
    }

    proof fn round_trip(record: Seq<(Seq<char>, Seq<char>)>) {
        lemma_collected_written(record);
    }

    fn encode(&self) -> (r: Json) {
        let mut fields: Vec<(String, Json)> = Vec::new();
        let mut i: usize = 0;
        while i < self.entries.len()
            invariant
                i <= self.entries.len(),
                fields.len() == i,
                forall|k: int|
                    0 <= k < i ==> (#[trigger] entries_view(fields@)[k]) == (
                        self.entries[k].0@,
                        JsonValue::Text(self.entries[k].1@),
                    ),
            decreases self.entries.len() - i,
        {
            let ghost before = entries_view(fields@);
            put(&mut fields, self.entries[i].0.as_str(), Json::Text(self.entries[i].1.clone()));
            assert forall|k: int| 0 <= k < i + 1 implies (#[trigger] entries_view(fields@)[k]) == (
                self.entries[k].0@,
                JsonValue::Text(self.entries[k].1@),
            ) by {
                if k < i {
                    assert(entries_view(fields@)[k] == before[k]);
                }
            }
            i = i + 1;
        }
        proof {
            lemma_object_view(fields);
            assert(entries_view(fields@) =~= entry_fields(self.deep_view()));
        }
        Json::Object(fields)
    }

    fn decode(doc: &Json) -> (r: Result<Metadata, SchemaViolation>) {
        match doc {
            Json::Object(fields) => {
                proof {
                    lemma_object_view(*fields);
                }
                let ghost all = entries_view(fields@);
                let mut out = Metadata::new();
                let mut i: usize = 0;
                assert(all.take(0) =~= Seq::empty());
                while i < fields.len()
                    invariant
                        i <= fields.len(),
                        all == entries_view(fields@),
                        doc.value() == JsonValue::Object(all),
                        distinct_names(out.deep_view()),
                        collected(all.take(i as int)) == Ok::<
                            Seq<(Seq<char>, Seq<char>)>,
                            Violation,
                        >(out.deep_view()),
                    decreases fields.len() - i,
                {
                    proof {
                        assert(all.take(i + 1).drop_last() =~= all.take(i as int));
                        assert(all.take(i + 1).last() == all[i as int]);
                    }
                    match &fields[i].1 {
                        Json::Text(text) => {
                            out.insert(fields[i].0.as_str(), text.as_str());
                        },
                        _ => {
                            proof {
                                lemma_collected_stops(all, i + 1);
                            }
                            return Err(
                                SchemaViolation::new(fields[i].0.as_str(), Fault::Mistyped),
                            );
                        },
                    }
                    i = i + 1;
                }
                proof {
                    assert(all.take(i as int) =~= all);
                }
                Ok(out)
            },
            _ => Err(SchemaViolation::new("metadata", Fault::Mistyped)),
        }
    }
}

} // verus!
