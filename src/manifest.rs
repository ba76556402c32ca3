//! Manifest data: values, flat dotted-key tables and banks of named tables.
use vstd::prelude::*;

verus! {

/// What a manifest value is, mathematically.
pub enum ValueModel {
    Scalar(Seq<char>),
    List(Seq<Seq<char>>),
}

/// A manifest value: a single string or an ordered list of strings.
/// A key that is absent is represented by `None` at lookup, never by an empty list.
pub enum ManifestValue {
    Scalar(String),
    List(Vec<String>),
}

pub open spec fn strings_view(v: Seq<String>) -> Seq<Seq<char>> {
    v.map_values(|s: String| s@)
}

impl View for ManifestValue {
    type V = ValueModel;

    open spec fn view(&self) -> ValueModel {
        match self {
            ManifestValue::Scalar(s) => ValueModel::Scalar(s@),
            ManifestValue::List(v) => ValueModel::List(strings_view(v@)),
        }
    }
}

/// Copies a list of strings element by element.
pub fn copy_strings(v: &Vec<String>) -> (r: Vec<String>)
    ensures
        strings_view(r@) == strings_view(v@),
{
    let mut r: Vec<String> = Vec::new();
    let mut i: usize = 0;
    while i < v.len()
        invariant
            i <= v.len(),
            r@.len() == i,
            forall|j: int| 0 <= j < i ==> #[trigger] r@[j]@ == v@[j]@,
        decreases v.len() - i,
    {
        let s = v[i].clone();
        assert(s@ == v@[i as int]@);
        r.push(s);
        i = i + 1;
    }
    assert(strings_view(r@) =~= strings_view(v@));
    r
}

impl ManifestValue {
    /// A copy with the same contents.
    pub fn copy(&self) -> (r: ManifestValue)
        ensures
            r@ == self@,
    {
        match self {
            ManifestValue::Scalar(s) => ManifestValue::Scalar(s.clone()),
            ManifestValue::List(v) => ManifestValue::List(copy_strings(v)),
        }
    }
}

/// The value stored for `key` in a sequence of entries; a later entry for the
/// same key overrides an earlier one.
pub open spec fn lookup(t: Seq<(Seq<char>, ValueModel)>, key: Seq<char>) -> Option<ValueModel>
    decreases t.len(),
{
    if t.len() == 0 {
        None
    } else if t.last().0 == key {
        Some(t.last().1)
    } else {
        lookup(t.drop_last(), key)
    }
}

/// The scalar stored for `key`, if the key holds a scalar.
pub open spec fn scalar_of(t: Seq<(Seq<char>, ValueModel)>, key: Seq<char>) -> Option<Seq<char>> {
    match lookup(t, key) {
        Some(ValueModel::Scalar(s)) => Some(s),
        _ => None,
    }
}

/// The list stored for `key`, if the key holds a list.
pub open spec fn list_of(t: Seq<(Seq<char>, ValueModel)>, key: Seq<char>) -> Option<Seq<Seq<char>>> {
    match lookup(t, key) {
        Some(ValueModel::List(l)) => Some(l),
        _ => None,
    }
}

/// A flat table of manifest values keyed by (possibly dotted) names.
pub struct ManifestTable {
    pub entries: Vec<(String, ManifestValue)>,
}

impl View for ManifestTable {
    type V = Seq<(Seq<char>, ValueModel)>;

    open spec fn view(&self) -> Seq<(Seq<char>, ValueModel)> {
        self.entries@.map_values(|e: (String, ManifestValue)| (e.0@, e.1@))
    }
}

impl ManifestTable {
    pub fn new() -> (r: ManifestTable)
        ensures
            r@ == Seq::<(Seq<char>, ValueModel)>::empty(),
    {
        let r = ManifestTable { entries: Vec::new() };
        assert(r@ =~= Seq::<(Seq<char>, ValueModel)>::empty());
        r
    }

    /// Sets `key` to `value`, overriding any earlier value of that key.
    pub fn insert(&mut self, key: String, value: ManifestValue)
        ensures
            final(self)@ == old(self)@.push((key@, value@)),
            lookup(final(self)@, key@) == Some(value@),
            forall|k: Seq<char>| k != key@ ==> lookup(final(self)@, k) == lookup(old(self)@, k),
    {
        let ghost k0 = key@;
        let ghost v0 = value@;
        self.entries.push((key, value));
        assert(self@ =~= old(self)@.push((k0, v0)));
        assert(self@.drop_last() =~= old(self)@);
    }

    /// The value stored for `key`.
    pub fn get(&self, key: &String) -> (r: Option<&ManifestValue>)
        ensures
            match r {
                None => lookup(self@, key@) is None,
                Some(v) => lookup(self@, key@) == Some(v@),
            },
    {
        let mut i: usize = self.entries.len();
        assert(self@.subrange(0, i as int) =~= self@);
        while i > 0
            invariant
                i <= self.entries.len(),
                lookup(self@, key@) == lookup(self@.subrange(0, i as int), key@),
            decreases i,
        {
            let ghost pre = self@.subrange(0, i as int);
            assert(pre.last() == self@[i - 1]);
            if self.entries[i - 1].0 == *key {
                return Some(&self.entries[i - 1].1);
            }
            assert(pre.drop_last() =~= self@.subrange(0, i - 1));
            i = i - 1;
        }
        None
    }

    /// A copy with the same entries.
    pub fn copy(&self) -> (r: ManifestTable)
        ensures
            r@ == self@,
    {
        let mut entries: Vec<(String, ManifestValue)> = Vec::new();
        let mut i: usize = 0;
        while i < self.entries.len()
            invariant
                i <= self.entries.len(),
                entries@.len() == i,
                forall|j: int|
                    0 <= j < i ==> #[trigger] entries@[j].0@ == self.entries@[j].0@
                        && entries@[j].1@ == self.entries@[j].1@,
            decreases self.entries.len() - i,
        {
            let e = &self.entries[i];
            let k = e.0.clone();
            let v = e.1.copy();
            assert(k@ == self.entries@[i as int].0@);
            entries.push((k, v));
            i = i + 1;
        }
        let r = ManifestTable { entries };
        assert(r@ =~= self@);
        r
    }
}

/// The table registered under `name`; a later registration overrides an earlier one.
pub open spec fn table_named(b: Seq<(Seq<char>, Seq<(Seq<char>, ValueModel)>)>, name: Seq<char>) -> Option<
    Seq<(Seq<char>, ValueModel)>,
>
    decreases b.len(),
{
    if b.len() == 0 {
        None
    } else if b.last().0 == name {
        Some(b.last().1)
    } else {
        table_named(b.drop_last(), name)
    }
}

/// A bank of named tables: the make-rule catalog (one table per make-table name)
/// or the loaded per-target manifest files (one table per file name).
pub struct NamedTables {
    pub tables: Vec<(String, ManifestTable)>,
}

impl View for NamedTables {
    type V = Seq<(Seq<char>, Seq<(Seq<char>, ValueModel)>)>;

    open spec fn view(&self) -> Seq<(Seq<char>, Seq<(Seq<char>, ValueModel)>)> {
        self.tables@.map_values(|e: (String, ManifestTable)| (e.0@, e.1@))
    }
}

impl NamedTables {
    pub fn new() -> (r: NamedTables)
        ensures
            r@ == Seq::<(Seq<char>, Seq<(Seq<char>, ValueModel)>)>::empty(),
    {
        let r = NamedTables { tables: Vec::new() };
        assert(r@ =~= Seq::<(Seq<char>, Seq<(Seq<char>, ValueModel)>)>::empty());
        r
    }

    /// Registers `table` under `name`, overriding any earlier table of that name.
    pub fn insert(&mut self, name: String, table: ManifestTable)
        ensures
            final(self)@ == old(self)@.push((name@, table@)),
            table_named(final(self)@, name@) == Some(table@),
            forall|n: Seq<char>|
                n != name@ ==> table_named(final(self)@, n) == table_named(old(self)@, n),
    {
        let ghost n0 = name@;
        let ghost t0 = table@;
        self.tables.push((name, table));
        assert(self@ =~= old(self)@.push((n0, t0)));
        assert(self@.drop_last() =~= old(self)@);
    }

    /// The table registered under `name`.
    pub fn get(&self, name: &String) -> (r: Option<&ManifestTable>)
        ensures
            match r {
                None => table_named(self@, name@) is None,
                Some(t) => table_named(self@, name@) == Some(t@),
            },
    {
        let mut i: usize = self.tables.len();
        assert(self@.subrange(0, i as int) =~= self@);
        while i > 0
            invariant
                i <= self.tables.len(),
                table_named(self@, name@) == table_named(self@.subrange(0, i as int), name@),
            decreases i,
        {
            let ghost pre = self@.subrange(0, i as int);
            assert(pre.last() == self@[i - 1]);
            if self.tables[i - 1].0 == *name {
                return Some(&self.tables[i - 1].1);
            }
            assert(pre.drop_last() =~= self@.subrange(0, i - 1));
            i = i - 1;
        }
        None
    }
}

} // verus!
