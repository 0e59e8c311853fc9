//! The context that is handed to every render of one generation.

use vstd::prelude::*;

verus! {

/// An instant in UTC: whole seconds since 1970-01-01T00:00:00Z, and the
/// nanoseconds past that second.
#[derive(Clone, Copy, Debug, PartialEq, Eq, Structural)]
pub struct Timestamp {
    pub secs: i64,
    pub nanos: u32,
}

/// A value of the context.
#[derive(Debug, PartialEq, Eq)]
pub enum Value {
    Text(String),
    Time(Timestamp),
}

/// A [`Value`] as mathematical values.
pub enum Datum {
    Text(Seq<char>),
    Time(Timestamp),
}

impl View for Value {
    type V = Datum;

    open spec fn view(&self) -> Datum {
        match self {
            Value::Text(text) => Datum::Text(text@),
            Value::Time(ts) => Datum::Time(*ts),
        }
    }
}

/// A key of the context with its value.
#[derive(Debug, PartialEq, Eq)]
pub struct Entry {
    pub key: String,
    pub value: Value,
}

/// A mapping from keys to values. No key occurs twice.
#[derive(Debug)]
pub struct Context {
    entries: Vec<Entry>,
}

/// No two entries have the same key.
pub open spec fn distinct_keys(entries: Seq<Entry>) -> bool {
    forall|i: int, j: int| 0 <= i < j < entries.len() ==> entries[i].key@ != entries[j].key@
}

/// The mapping that a sequence of entries stands for. Of two entries with
/// one key the later one counts.
pub open spec fn entries_map(entries: Seq<Entry>) -> Map<Seq<char>, Datum>
    decreases entries.len(),
{
    if entries.len() == 0 {
        Map::empty()
    } else {
        entries_map(entries.drop_last()).insert(entries.last().key@, entries.last().value@)
    }
}

/// The entries as pairs of a key and a value, in the entries' order.
pub open spec fn pairs_of(entries: Seq<Entry>) -> Seq<(Seq<char>, Datum)> {
    Seq::new(entries.len(), |i: int| (entries[i].key@, entries[i].value@))
}

/// Whether one of the pairs has the key.
pub open spec fn has_key(pairs: Seq<(Seq<char>, Datum)>, key: Seq<char>) -> bool {
    exists|i: int| 0 <= i < pairs.len() && (#[trigger] pairs[i]).0 == key
}

/// The pairs after `value` is put under `key`: it takes the place of the
/// value that the key had, or comes last where the key is new.
pub open spec fn put(pairs: Seq<(Seq<char>, Datum)>, key: Seq<char>, value: Datum) -> Seq<
    (Seq<char>, Datum),
> {
    if has_key(pairs, key) {
        Seq::new(
            pairs.len(),
            |i: int|
                if pairs[i].0 == key {
                    (key, value)
                } else {
                    pairs[i]
                },
        )
    } else {
        pairs.push((key, value))
    }
}

/// The context of every kind that needs nothing but the name.
pub open spec fn minimal_context(name: Seq<char>) -> Map<Seq<char>, Datum> {
    Map::empty().insert("name"@, Datum::Text(name))
}

/// The context of a model: the name, the instant of the generation and the
/// name of the root package.
pub open spec fn model_context(name: Seq<char>, ts: Timestamp, pkg_name: Seq<char>) -> Map<
    Seq<char>,
    Datum,
> {
    minimal_context(name).insert("ts"@, Datum::Time(ts)).insert("pkg_name"@, Datum::Text(pkg_name))
}

/// The three keys differ from each other.
pub proof fn lemma_keys_differ()
    ensures
        "name"@ != "ts"@,
        "name"@ != "pkg_name"@,
        "ts"@ != "pkg_name"@,
{
    reveal_strlit("name");
    reveal_strlit("ts");
    reveal_strlit("pkg_name");
    assert("name"@.len() == 4);
    assert("ts"@.len() == 2);
    assert("pkg_name"@.len() == 8);
}

/// A minimal context holds the name under `name` and nothing else.
pub proof fn lemma_minimal_context(name: Seq<char>)
    ensures
        minimal_context(name).dom() == set!["name"@],
        minimal_context(name)["name"@] == Datum::Text(name),
{
    assert(minimal_context(name).dom() =~= set!["name"@]);
}

/// A model's context holds the name under `name`, the instant under `ts`, the
/// package's name under `pkg_name`, and nothing else.
pub proof fn lemma_model_context(name: Seq<char>, ts: Timestamp, pkg_name: Seq<char>)
    ensures
        model_context(name, ts, pkg_name).dom() == set!["name"@, "ts"@, "pkg_name"@],
        model_context(name, ts, pkg_name).dom().len() == 3,
        model_context(name, ts, pkg_name)["name"@] == Datum::Text(name),
        model_context(name, ts, pkg_name)["ts"@] == Datum::Time(ts),
        model_context(name, ts, pkg_name)["pkg_name"@] == Datum::Text(pkg_name),
{
    lemma_keys_differ();
    let keys = set!["name"@, "ts"@, "pkg_name"@];
    assert(model_context(name, ts, pkg_name).dom() =~= keys);
    assert(keys =~= Set::<Seq<char>>::empty().insert("name"@).insert("ts"@).insert("pkg_name"@));
}

proof fn lemma_absent(entries: Seq<Entry>, key: Seq<char>)
    requires
        forall|i: int| 0 <= i < entries.len() ==> entries[i].key@ != key,
    ensures
        !entries_map(entries).contains_key(key),
    decreases entries.len(),
{
    if entries.len() > 0 {
        lemma_absent(entries.drop_last(), key);
    }
}

proof fn lemma_lookup(entries: Seq<Entry>, i: int)
    requires
        distinct_keys(entries),
        0 <= i < entries.len(),
    ensures
        entries_map(entries).contains_key(entries[i].key@),
        entries_map(entries)[entries[i].key@] == entries[i].value@,
    decreases entries.len(),
{
    if i < entries.len() - 1 {
        lemma_lookup(entries.drop_last(), i);
    }
}

proof fn lemma_replace(entries: Seq<Entry>, i: int, entry: Entry)
    requires
        distinct_keys(entries),
        0 <= i < entries.len(),
        entry.key@ == entries[i].key@,
    ensures
        distinct_keys(entries.update(i, entry)),
        entries_map(entries.update(i, entry)) == entries_map(entries).insert(
            entry.key@,
            entry.value@,
        ),
    decreases entries.len(),
{
    let changed = entries.update(i, entry);
    if i == entries.len() - 1 {
        assert(changed.drop_last() =~= entries.drop_last());
        assert(entries_map(changed) =~= entries_map(entries).insert(entry.key@, entry.value@));
    } else {
        assert(changed.drop_last() =~= entries.drop_last().update(i, entry));
        lemma_replace(entries.drop_last(), i, entry);
        assert(entries.last().key@ != entry.key@);
        assert(entries_map(changed) =~= entries_map(entries).insert(entry.key@, entry.value@));
    }
}

proof fn lemma_size(entries: Seq<Entry>)
    requires
        distinct_keys(entries),
    ensures
        entries_map(entries).dom().finite(),
        entries_map(entries).dom().len() == entries.len(),
    decreases entries.len(),
{
    if entries.len() > 0 {
        lemma_size(entries.drop_last());
        lemma_absent(entries.drop_last(), entries.last().key@);
    }
}

impl View for Context {
    type V = Map<Seq<char>, Datum>;

    closed spec fn view(&self) -> Map<Seq<char>, Datum> {
        entries_map(self.entries@)
    }
}

impl Context {
    #[verifier::type_invariant]
    spec fn well_formed(self) -> bool {
        distinct_keys(self.entries@)
    }

    /// The keys with their values, in the order in which the keys came.
    pub closed spec fn pairs(&self) -> Seq<(Seq<char>, Datum)> {
        pairs_of(self.entries@)
    }

    /// The context without any key.
    pub fn new() -> (context: Context)
        ensures
            context@ == Map::<Seq<char>, Datum>::empty(),
            context.pairs() == Seq::<(Seq<char>, Datum)>::empty(),
    {
        let context = Context { entries: Vec::new() };
        assert(context.pairs() =~= Seq::<(Seq<char>, Datum)>::empty());
        context
    }

    /// Puts `value` under `key`. A key that is there keeps its place and gets
    /// the new value; a new key comes last.
    pub fn insert(&mut self, key: String, value: Value)
        ensures
            final(self)@ == old(self)@.insert(key@, value@),
            final(self).pairs() == put(old(self).pairs(), key@, value@),
    {
        proof {
            use_type_invariant(&*self);
        }
        let ghost before = self.pairs();
        let mut entries: Vec<Entry> = Vec::new();
        core::mem::swap(&mut self.entries, &mut entries);
        assert(pairs_of(entries@) == before);
        let mut i: usize = 0;
        while i < entries.len() && !(entries[i].key == key)
            invariant
                i <= entries.len(),
                forall|j: int| 0 <= j < i ==> entries@[j].key@ != key@,
            decreases entries.len() - i,
        {
            i += 1;
        }
        if i < entries.len() {
            proof {
                lemma_replace(entries@, i as int, Entry { key, value });
                assert(before[i as int].0 == key@);
                assert(pairs_of(entries@.update(i as int, Entry { key, value })) =~= put(
                    before,
                    key@,
                    value@,
                ));
            }
            entries.set(i, Entry { key, value });
        } else {
            proof {
                assert(entries@.push(Entry { key, value }).drop_last() =~= entries@);
                assert(!has_key(before, key@));
                assert(pairs_of(entries@.push(Entry { key, value })) =~= put(
                    before,
                    key@,
                    value@,
                ));
            }
            entries.push(Entry { key, value });
        }
        self.entries = entries;
    }

    /// The value under `key`, if there is one.
    pub fn get(&self, key: &str) -> (found: Option<&Value>)
        ensures
            match found {
                Some(value) => self@.contains_key(key@) && self@[key@] == value@,
                None => !self@.contains_key(key@),
            },
    {
        proof {
            use_type_invariant(self);
        }
        let wanted = key.to_owned();
        let mut i: usize = 0;
        while i < self.entries.len()
            invariant
                i <= self.entries.len(),
                wanted@ == key@,
                distinct_keys(self.entries@),
                forall|j: int| 0 <= j < i ==> self.entries@[j].key@ != key@,
            decreases self.entries.len() - i,
        {
            if self.entries[i].key == wanted {
                proof {
                    lemma_lookup(self.entries@, i as int);
                }
                return Some(&self.entries[i].value);
            }
            i += 1;
        }
        proof {
            lemma_absent(self.entries@, key@);
        }
        None
    }

    /// The number of keys.
    pub fn len(&self) -> (count: usize)
        ensures
            self@.dom().finite(),
            count == self@.dom().len(),
    {
        proof {
            use_type_invariant(self);
            lemma_size(self.entries@);
        }
        self.entries.len()
    }

    /// The entries, each key once, in the order in which the keys came.
    pub fn entries(&self) -> (entries: &Vec<Entry>)
        ensures
            distinct_keys(entries@),
            entries_map(entries@) == self@,
            pairs_of(entries@) == self.pairs(),
            entries@.len() == self.pairs().len(),
            forall|i: int|
                0 <= i < entries@.len() ==> (#[trigger] entries@[i]).key@ == self.pairs()[i].0
                    && entries@[i].value@ == self.pairs()[i].1,
    {
        proof {
            use_type_invariant(self);
        }
        &self.entries
    }

    /// The context of a component that needs nothing but its name.
    pub fn minimal(name: &str) -> (context: Context)
        ensures
            context@ == minimal_context(name@),
            context.pairs() == seq![("name"@, Datum::Text(name@))],
    {
        let mut context = Context::new();
        context.insert("name".to_owned(), Value::Text(name.to_owned()));
        assert(context.pairs() =~= seq![("name"@, Datum::Text(name@))]);
        context
    }

    /// The context of a model named `name`, generated at `ts` in the package
    /// `pkg_name`. The keys come in the order `name`, `ts`, `pkg_name`.
    pub fn for_model(name: &str, ts: Timestamp, pkg_name: &str) -> (context: Context)
        ensures
            context@ == model_context(name@, ts, pkg_name@),
            context.pairs() == seq![
                ("name"@, Datum::Text(name@)),
                ("ts"@, Datum::Time(ts)),
                ("pkg_name"@, Datum::Text(pkg_name@)),
            ],
    {
        proof {
            lemma_keys_differ();
        }
        let mut context = Context::minimal(name);
        let ghost one = context.pairs();
        context.insert("ts".to_owned(), Value::Time(ts));
        let ghost two = context.pairs();
        assert(!has_key(one, "ts"@));
        assert(two =~= seq![("name"@, Datum::Text(name@)), ("ts"@, Datum::Time(ts))]);
        context.insert("pkg_name".to_owned(), Value::Text(pkg_name.to_owned()));
        assert(!has_key(two, "pkg_name"@));
        assert(context.pairs() =~= seq![
            ("name"@, Datum::Text(name@)),
            ("ts"@, Datum::Time(ts)),
            ("pkg_name"@, Datum::Text(pkg_name@)),
        ]);
        context
    }
}

} // verus!
