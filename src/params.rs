use vstd::prelude::*;

use crate::form::{decimal, decimal_string, fields_view, parse_decimal, str_eq, FieldView, FormField};
use crate::form::lemma_parse_decimal;
use crate::json::{json_keys_at, json_text_at, keys_member, member, member_pointer, text_member};

verus! {

/// Seconds since the Unix epoch.
pub type Timestamp = i64;

/// A filter on a scalar field by up to four bounds, each left out of the encoding when unset.
#[derive(Clone, Copy, Debug, Default, PartialEq, Eq)]
pub struct RangeQuery {
    pub gt: Option<Timestamp>,
    pub gte: Option<Timestamp>,
    pub lt: Option<Timestamp>,
    pub lte: Option<Timestamp>,
}

/// The one field that a set bound encodes to, or none for an unset bound.
pub open spec fn bound_view(name: Seq<char>, sub: Seq<char>, b: Option<Timestamp>) -> Seq<
    FieldView,
> {
    match b {
        Some(v) => seq![FieldView { name, sub: Some(sub), value: decimal(v as int) }],
        None => Seq::empty(),
    }
}

/// The value of the first field of `fs` with sub-key `sub`, read back as a timestamp.
pub open spec fn bound_of(fs: Seq<FieldView>, sub: Seq<char>) -> Option<Timestamp>
    decreases fs.len(),
{
    if fs.len() == 0 {
        None
    } else if fs[0].sub == Some(sub) {
        match parse_decimal(fs[0].value) {
            Some(v) => Some(v as Timestamp),
            None => None,
        }
    } else {
        bound_of(fs.drop_first(), sub)
    }
}

impl RangeQuery {
    /// A range with no bound set.
    pub fn new() -> (r: RangeQuery)
        ensures
            r == (RangeQuery { gt: None, gte: None, lt: None, lte: None }),
    {
        RangeQuery { gt: None, gte: None, lt: None, lte: None }
    }

    /// The number of bounds that are set.
    pub open spec fn bound_count(self) -> nat {
        (if self.gt is Some { 1nat } else { 0 }) + (if self.gte is Some { 1nat } else { 0 }) + (
        if self.lt is Some { 1nat } else { 0 }) + (if self.lte is Some { 1nat } else { 0 })
    }

    /// The fields that the range encodes to under `name`: `gt`, `gte`, `lt`, `lte` in
    /// that order, each only where set.
    pub open spec fn fields_spec(self, name: Seq<char>) -> Seq<FieldView> {
        bound_view(name, "gt"@, self.gt) + bound_view(name, "gte"@, self.gte) + bound_view(
            name,
            "lt"@,
            self.lt,
        ) + bound_view(name, "lte"@, self.lte)
    }

    /// Reads a range back from the fields that name its bounds.
    pub open spec fn from_fields_spec(fs: Seq<FieldView>) -> RangeQuery {
        RangeQuery {
            gt: bound_of(fs, "gt"@),
            gte: bound_of(fs, "gte"@),
            lt: bound_of(fs, "lt"@),
            lte: bound_of(fs, "lte"@),
        }
    }

    /// Appends the fields of the range under `name` to `out`.
    pub fn push_fields(&self, name: &str, out: &mut Vec<FormField>)
        ensures
            fields_view(final(out)@) == fields_view(old(out)@) + self.fields_spec(name@),
    {
        let ghost start = fields_view(out@);
        push_bound(name, "gt", self.gt, out);
        push_bound(name, "gte", self.gte, out);
        push_bound(name, "lt", self.lt, out);
        push_bound(name, "lte", self.lte, out);
        assert(fields_view(out@) =~= start + self.fields_spec(name@));
    }
}

fn push_bound(name: &str, sub: &str, b: Option<Timestamp>, out: &mut Vec<FormField>)
    ensures
        fields_view(final(out)@) == fields_view(old(out)@) + bound_view(name@, sub@, b),
{
    match b {
        Some(v) => {
            out.push(FormField::nested(name, String::from_str(sub), decimal_string(v)));
        },
        None => {},
    }
    assert(fields_view(final(out)@) =~= fields_view(old(out)@) + bound_view(name@, sub@, b));
}

proof fn lemma_sub_keys_differ()
    ensures
        "gt"@ != "gte"@,
        "gt"@ != "lt"@,
        "gt"@ != "lte"@,
        "gte"@ != "lt"@,
        "gte"@ != "lte"@,
        "lt"@ != "lte"@,
{
    reveal_strlit("gt");
    reveal_strlit("gte");
    reveal_strlit("lt");
    reveal_strlit("lte");
    assert("gt"@.len() != "gte"@.len());
    assert("gt"@[0] != "lt"@[0]);
    assert("gt"@[0] != "lte"@[0]);
    assert("gte"@[0] != "lt"@[0]);
    assert("gte"@[0] != "lte"@[0]);
    assert("lt"@.len() != "lte"@.len());
}

proof fn lemma_bound_of_append(a: Seq<FieldView>, b: Seq<FieldView>, sub: Seq<char>)
    requires
        forall|i: int| 0 <= i < a.len() ==> a[i].sub != Some(sub),
    ensures
        bound_of(a + b, sub) == bound_of(b, sub),
    decreases a.len(),
{
    if a.len() > 0 {
        assert((a + b).drop_first() =~= a.drop_first() + b);
        lemma_bound_of_append(a.drop_first(), b, sub);
    }
}

proof fn lemma_bound_of_own(name: Seq<char>, sub: Seq<char>, v: Option<Timestamp>, rest: Seq<
    FieldView,
>)
    requires
        forall|i: int| 0 <= i < rest.len() ==> rest[i].sub != Some(sub),
    ensures
        bound_of(bound_view(name, sub, v) + rest, sub) == v,
{
    match v {
        Some(x) => {
            lemma_parse_decimal(x as int);
        },
        None => {
            assert(bound_view(name, sub, v) + rest =~= rest);
            lemma_bound_of_append(Seq::empty(), rest, sub);
            lemma_bound_of_none(rest, sub);
        },
    }
}

proof fn lemma_bound_of_none(fs: Seq<FieldView>, sub: Seq<char>)
    requires
        forall|i: int| 0 <= i < fs.len() ==> fs[i].sub != Some(sub),
    ensures
        bound_of(fs, sub) is None,
    decreases fs.len(),
{
    if fs.len() > 0 {
        lemma_bound_of_none(fs.drop_first(), sub);
    }
}

/// A range encodes to exactly one field per set bound, each under the range's name, and
/// reading the fields back gives the same range.
pub proof fn lemma_range_round_trip(name: Seq<char>, q: RangeQuery)
    ensures
        q.fields_spec(name).len() == q.bound_count(),
        forall|i: int|
            0 <= i < q.fields_spec(name).len() ==> (#[trigger] q.fields_spec(name)[i]).name
                == name,
        RangeQuery::from_fields_spec(q.fields_spec(name)) == q,
{
    lemma_sub_keys_differ();
    let a = bound_view(name, "gt"@, q.gt);
    let b = bound_view(name, "gte"@, q.gte);
    let c = bound_view(name, "lt"@, q.lt);
    let d = bound_view(name, "lte"@, q.lte);
    let fs = q.fields_spec(name);
    assert(fs == a + b + c + d);
    assert(fs =~= a + (b + (c + d)));
    lemma_bound_of_own(name, "gt"@, q.gt, b + (c + d));
    assert(fs =~= (a + b) + (c + d));
    lemma_bound_of_append(a, b + (c + d), "gte"@);
    lemma_bound_of_own(name, "gte"@, q.gte, c + d);
    assert(fs =~= (a + b + c) + d);
    lemma_bound_of_append(a + b, c + d, "lt"@);
    lemma_bound_of_own(name, "lt"@, q.lt, d);
    lemma_bound_of_append(a + b + c, d, "lte"@);
    lemma_bound_of_own(name, "lte"@, q.lte, Seq::empty());
    assert(d + Seq::<FieldView>::empty() =~= d);
    assert forall|i: int| 0 <= i < fs.len() implies (#[trigger] fs[i]).name == name by {
        if i < a.len() {
        } else if i < a.len() + b.len() {
            assert(fs[i] == b[i - a.len()]);
        } else if i < a.len() + b.len() + c.len() {
            assert(fs[i] == c[i - a.len() - b.len()]);
        } else {
            assert(fs[i] == d[i - a.len() - b.len() - c.len()]);
        }
    }
}

/// What a metadata map holds: its entries in insertion order.
pub open spec fn entries_view(es: Seq<(String, String)>) -> Seq<(Seq<char>, Seq<char>)> {
    es.map_values(|e: (String, String)| (e.0@, e.1@))
}

pub open spec fn keys_unique(m: Seq<(Seq<char>, Seq<char>)>) -> bool {
    forall|i: int, j: int| 0 <= i < j < m.len() ==> m[i].0 != m[j].0
}

pub open spec fn has_key(m: Seq<(Seq<char>, Seq<char>)>, k: Seq<char>) -> bool {
    exists|i: int| 0 <= i < m.len() && m[i].0 == k
}

/// The position of key `k`, where it is present.
pub open spec fn key_position(m: Seq<(Seq<char>, Seq<char>)>, k: Seq<char>) -> int {
    choose|i: int| 0 <= i < m.len() && m[i].0 == k
}

/// The value under `k`, or `None` where `k` is absent.
pub open spec fn lookup(m: Seq<(Seq<char>, Seq<char>)>, k: Seq<char>) -> Option<Seq<char>> {
    if has_key(m, k) {
        Some(m[key_position(m, k)].1)
    } else {
        None
    }
}

/// Setting `k` to `v`: a present key keeps its place and takes the new value, an absent
/// one is added at the end.
pub open spec fn insert_entry(m: Seq<(Seq<char>, Seq<char>)>, k: Seq<char>, v: Seq<char>) -> Seq<
    (Seq<char>, Seq<char>),
> {
    if has_key(m, k) {
        m.update(key_position(m, k), (k, v))
    } else {
        m.push((k, v))
    }
}

/// The entries that the fields named `name` with a sub-key set, inserted one after the
/// other in their order.
pub open spec fn metadata_of_fields(fs: Seq<FieldView>, name: Seq<char>) -> Seq<
    (Seq<char>, Seq<char>),
>
    decreases fs.len(),
{
    if fs.len() == 0 {
        Seq::empty()
    } else {
        let rest = metadata_of_fields(fs.drop_last(), name);
        let f = fs.last();
        if f.name == name && f.sub is Some {
            insert_entry(rest, f.sub->Some_0, f.value)
        } else {
            rest
        }
    }
}

/// The entries that `ps` give, each pair inserted in turn: a later pair with the same key
/// sets the value of the earlier one.
pub open spec fn metadata_of_pairs(ps: Seq<(Seq<char>, Seq<char>)>) -> Seq<(Seq<char>, Seq<char>)>
    decreases ps.len(),
{
    if ps.len() == 0 {
        Seq::empty()
    } else {
        insert_entry(metadata_of_pairs(ps.drop_last()), ps.last().0, ps.last().1)
    }
}

/// A map from string keys to string values that keeps the order in which keys were first
/// inserted; no key appears twice.
#[derive(Debug)]
pub struct Metadata {
    entries: Vec<(String, String)>,
}

impl View for Metadata {
    type V = Seq<(Seq<char>, Seq<char>)>;

    closed spec fn view(&self) -> Seq<(Seq<char>, Seq<char>)> {
        entries_view(self.entries@)
    }
}

impl Metadata {
    #[verifier::type_invariant]
    spec fn keys_are_unique(self) -> bool {
        keys_unique(entries_view(self.entries@))
    }

    /// The entries under `name` in a form: `name[key]=value` for each entry, in order.
    pub open spec fn fields_spec(self, name: Seq<char>) -> Seq<FieldView> {
        self@.map_values(
            |e: (Seq<char>, Seq<char>)| FieldView { name, sub: Some(e.0), value: e.1 },
        )
    }

    /// An empty map.
    pub fn new() -> (r: Metadata)
        ensures
            r@ == Seq::<(Seq<char>, Seq<char>)>::empty(),
    {
        let r = Metadata { entries: Vec::new() };
        assert(r@ =~= Seq::<(Seq<char>, Seq<char>)>::empty());
        r
    }

    pub fn len(&self) -> (r: usize)
        ensures
            r == self@.len(),
    {
        self.entries.len()
    }

    pub fn is_empty(&self) -> (r: bool)
        ensures
            r == (self@.len() == 0),
    {
        self.entries.len() == 0
    }

    /// The key and value at position `i`, in insertion order.
    pub fn entry(&self, i: usize) -> (r: (&String, &String))
        requires
            i < self@.len(),
        ensures
            r.0@ == self@[i as int].0,
            r.1@ == self@[i as int].1,
    {
        let e = &self.entries[i];
        (&e.0, &e.1)
    }

    fn position(&self, key: &str) -> (r: Option<usize>)
        ensures
            match r {
                Some(i) => i < self@.len() && self@[i as int].0 == key@,
                None => !has_key(self@, key@),
            },
    {
        let mut i: usize = 0;
        while i < self.entries.len()
            invariant
                i <= self@.len(),
                self@.len() == self.entries@.len(),
                forall|j: int| 0 <= j < i ==> self@[j].0 != key@,
            decreases self.entries@.len() - i,
        {
            if str_eq(self.entries[i].0.as_str(), key) {
                return Some(i);
            }
            i = i + 1;
        }
        None
    }

    /// The value under `key`, if present.
    pub fn get(&self, key: &str) -> (r: Option<&String>)
        ensures
            match r {
                Some(v) => lookup(self@, key@) == Some(v@),
                None => lookup(self@, key@) is None,
            },
    {
        proof {
            use_type_invariant(self);
        }
        match self.position(key) {
            Some(i) => {
                proof {
                    let p = key_position(self@, key@);
                    assert(self@[p].0 == key@);
                }
                Some(&self.entries[i].1)
            },
            None => None,
        }
    }

    /// Sets `key` to `value`, in place where the key is present, else at the end.
    pub fn insert(&mut self, key: String, value: String)
        ensures
            final(self)@ == insert_entry(old(self)@, key@, value@),
    {
        proof {
            use_type_invariant(&*self);
        }
        let ghost m = self@;
        let found = self.position(key.as_str());
        let mut entries: Vec<(String, String)> = Vec::new();
        std::mem::swap(&mut entries, &mut self.entries);
        match found {
            Some(i) => {
                proof {
                    let p = key_position(m, key@);
                    assert(m[p].0 == key@);
                    assert(p == i);
                }
                entries.set(i, (key, value));
            },
            None => {
                entries.push((key, value));
            },
        }
        assert(entries_view(entries@) =~= insert_entry(m, key@, value@));
        proof {
            let n = insert_entry(m, key@, value@);
            assert forall|a: int, b: int| 0 <= a < b < n.len() implies n[a].0 != n[b].0 by {
                if found is None {
                    if b == m.len() {
                        assert(m[a].0 != key@);
                    }
                }
            }
        }
        *self = Metadata { entries };
    }

    /// Appends the map's fields under `name` to `out`.
    pub fn push_fields(&self, name: &str, out: &mut Vec<FormField>)
        ensures
            fields_view(final(out)@) == fields_view(old(out)@) + self.fields_spec(name@),
    {
        let ghost start = fields_view(out@);
        let mut i: usize = 0;
        while i < self.entries.len()
            invariant
                i <= self@.len(),
                self@.len() == self.entries@.len(),
                fields_view(out@) == start + self.fields_spec(name@).subrange(0, i as int),
            decreases self.entries@.len() - i,
        {
            let e = &self.entries[i];
            let ghost before = out@;
            let f = FormField::nested(name, e.0.clone(), e.1.clone());
            out.push(f);
            assert(fields_view(out@) =~= fields_view(before).push(f@));
            assert(f@ == self.fields_spec(name@)[i as int]);
            assert(self.fields_spec(name@).subrange(0, i as int + 1) =~= self.fields_spec(
                name@,
            ).subrange(0, i as int).push(self.fields_spec(name@)[i as int]));
            assert(fields_view(out@) =~= start + self.fields_spec(name@).subrange(0, i as int + 1));
            i = i + 1;
        }
        assert(self.fields_spec(name@).subrange(0, self@.len() as int) =~= self.fields_spec(name@));
    }

    /// The map that `pairs` give, each inserted in turn.
    pub fn from_pairs(pairs: Vec<(String, String)>) -> (r: Metadata)
        ensures
            r@ == metadata_of_pairs(entries_view(pairs@)),
    {
        let mut m = Metadata::new();
        let mut i: usize = 0;
        while i < pairs.len()
            invariant
                i <= pairs@.len(),
                m@ == metadata_of_pairs(entries_view(pairs@.subrange(0, i as int))),
            decreases pairs@.len() - i,
        {
            let e = &pairs[i];
            proof {
                let pre = entries_view(pairs@.subrange(0, i as int + 1));
                assert(pre.drop_last() =~= entries_view(pairs@.subrange(0, i as int)));
                assert(pre.last() == (e.0@, e.1@));
            }
            m.insert(e.0.clone(), e.1.clone());
            i = i + 1;
        }
        assert(pairs@.subrange(0, pairs@.len() as int) =~= pairs@);
        m
    }

    /// The map that the fields named `name` with a sub-key describe, each inserted in turn.
    pub fn from_fields(fields: &Vec<FormField>, name: &str) -> (r: Metadata)
        ensures
            r@ == metadata_of_fields(fields_view(fields@), name@),
    {
        let mut m = Metadata::new();
        let mut i: usize = 0;
        while i < fields.len()
            invariant
                i <= fields@.len(),
                m@ == metadata_of_fields(fields_view(fields@.subrange(0, i as int)), name@),
            decreases fields@.len() - i,
        {
            let f = &fields[i];
            proof {
                let pre = fields_view(fields@.subrange(0, i as int + 1));
                assert(pre.drop_last() =~= fields_view(fields@.subrange(0, i as int)));
                assert(pre.last() == f@);
            }
            if str_eq(f.name.as_str(), name) {
                match &f.sub {
                    Some(sub) => {
                        m.insert(sub.clone(), f.value.clone());
                    },
                    None => {},
                }
            }
            i = i + 1;
        }
        assert(fields@.subrange(0, fields@.len() as int) =~= fields@);
        m
    }
}

impl Clone for Metadata {
    fn clone(&self) -> (r: Metadata)
        ensures
            r@ == self@,
    {
        proof {
            use_type_invariant(self);
        }
        let mut entries: Vec<(String, String)> = Vec::new();
        let mut i: usize = 0;
        while i < self.entries.len()
            invariant
                i <= self.entries@.len(),
                self@ == entries_view(self.entries@),
                entries_view(entries@) == self@.subrange(0, i as int),
            decreases self.entries@.len() - i,
        {
            let e = &self.entries[i];
            let ghost before = entries@;
            entries.push((e.0.clone(), e.1.clone()));
            assert(entries_view(entries@) =~= entries_view(before).push(self@[i as int]));
            assert(entries_view(entries@) =~= self@.subrange(0, i as int + 1));
            i = i + 1;
        }
        assert(self@.subrange(0, self@.len() as int) =~= self@);
        Metadata { entries }
    }
}

proof fn lemma_insert_new(m: Seq<(Seq<char>, Seq<char>)>, k: Seq<char>, v: Seq<char>)
    requires
        !has_key(m, k),
    ensures
        insert_entry(m, k, v) == m.push((k, v)),
{
}

/// Encoding a map under a name and reading the fields back gives the same entries in the
/// same order; an empty map encodes to no field at all.
pub proof fn lemma_metadata_round_trip(m: Metadata, name: Seq<char>)
    requires
        keys_unique(m@),
    ensures
        metadata_of_fields(m.fields_spec(name), name) == m@,
        m@.len() == 0 ==> m.fields_spec(name).len() == 0,
{
    lemma_entries_round_trip(m@, name);
}

proof fn lemma_entries_round_trip(es: Seq<(Seq<char>, Seq<char>)>, name: Seq<char>)
    requires
        keys_unique(es),
    ensures
        metadata_of_fields(
            es.map_values(
                |e: (Seq<char>, Seq<char>)| FieldView { name, sub: Some(e.0), value: e.1 },
            ),
            name,
        ) == es,
    decreases es.len(),
{
    let fs = es.map_values(
        |e: (Seq<char>, Seq<char>)| FieldView { name, sub: Some(e.0), value: e.1 },
    );
    if es.len() > 0 {
        let init = es.drop_last();
        assert(keys_unique(init));
        lemma_entries_round_trip(init, name);
        assert(fs.drop_last() =~= init.map_values(
            |e: (Seq<char>, Seq<char>)| FieldView { name, sub: Some(e.0), value: e.1 },
        ));
        assert(!has_key(init, es.last().0)) by {
            if has_key(init, es.last().0) {
                let p = choose|i: int| 0 <= i < init.len() && init[i].0 == es.last().0;
                assert(es[p].0 == es[es.len() - 1].0);
            }
        }
        lemma_insert_new(init, es.last().0, es.last().1);
        assert(init.push(es.last()) =~= es);
    } else {
        assert(fs.len() == 0);
    }
}

/// The entries that the keys `ks` of the object at `p` give, inserted in turn.
pub open spec fn metadata_entries(doc: Seq<u8>, p: Seq<char>, ks: Seq<Seq<char>>) -> Seq<
    (Seq<char>, Seq<char>),
>
    decreases ks.len(),
{
    if ks.len() == 0 {
        Seq::empty()
    } else {
        insert_entry(
            metadata_entries(doc, p, ks.drop_last()),
            ks.last(),
            json_text_at(doc, member(p, ks.last()))->Some_0,
        )
    }
}

/// Whether the value at `p` can be read as metadata: it is absent or not an object, or an
/// object whose members are all strings.
pub open spec fn metadata_decodable(doc: Seq<u8>, p: Seq<char>) -> bool {
    match json_keys_at(doc, p) {
        Some(ks) => forall|i: int|
            0 <= i < ks.len() ==> (#[trigger] json_text_at(doc, member(p, ks[i]))) is Some,
        None => true,
    }
}

/// The metadata that the value at `p` holds; an absent value holds none.
pub open spec fn metadata_json(doc: Seq<u8>, p: Seq<char>) -> Seq<(Seq<char>, Seq<char>)> {
    match json_keys_at(doc, p) {
        Some(ks) => metadata_entries(doc, p, ks),
        None => Seq::empty(),
    }
}

/// Reads the metadata member `name` of the value at `at`.
pub fn metadata_member(doc: &[u8], at: &str, name: &str) -> (r: Option<Metadata>)
    ensures
        match r {
            Some(m) => metadata_decodable(doc@, member(at@, name@)) && m@ == metadata_json(
                doc@,
                member(at@, name@),
            ),
            None => !metadata_decodable(doc@, member(at@, name@)),
        },
{
    let p = member_pointer(at, name);
    let mut m = Metadata::new();
    let keys = match keys_member(doc, at, name) {
        Some(ks) => ks,
        None => {
            return Some(m);
        },
    };
    let ghost ks = keys@.map_values(|k: String| k@);
    let mut i: usize = 0;
    while i < keys.len()
        invariant
            p@ == member(at@, name@),
            json_keys_at(doc@, p@) == Some(ks),
            ks == keys@.map_values(|k: String| k@),
            i <= keys@.len(),
            m@ == metadata_entries(doc@, p@, ks.subrange(0, i as int)),
            forall|j: int| 0 <= j < i ==> (#[trigger] json_text_at(doc@, member(p@, ks[j]))) is Some,
        decreases keys@.len() - i,
    {
        let k = &keys[i];
        match text_member(doc, p.as_str(), k.as_str()) {
            Some(v) => {
                proof {
                    let pre = ks.subrange(0, i as int + 1);
                    assert(pre.drop_last() =~= ks.subrange(0, i as int));
                    assert(pre.last() == k@);
                }
                m.insert(k.clone(), v);
            },
            None => {
                assert(json_text_at(doc@, member(p@, ks[i as int])) is None);
                return None;
            },
        }
        i = i + 1;
    }
    assert(ks.subrange(0, keys@.len() as int) =~= ks);
    Some(m)
}

/// The fields of optional metadata under `name`; none where it is not given.
pub open spec fn opt_metadata_view(name: Seq<char>, m: Option<Metadata>) -> Seq<FieldView> {
    match m {
        Some(x) => x.fields_spec(name),
        None => Seq::empty(),
    }
}

/// The fields of an optional range under `name`; none where it is not given.
pub open spec fn opt_range_view(name: Seq<char>, q: Option<RangeQuery>) -> Seq<FieldView> {
    match q {
        Some(x) => x.fields_spec(name),
        None => Seq::empty(),
    }
}

/// Appends the fields of optional metadata under `name`.
pub fn push_opt_metadata(out: &mut Vec<FormField>, name: &str, m: &Option<Metadata>)
    ensures
        fields_view(final(out)@) == fields_view(old(out)@) + opt_metadata_view(name@, *m),
{
    match m {
        Some(x) => x.push_fields(name, out),
        None => {
            assert(fields_view(out@) =~= fields_view(out@) + opt_metadata_view(name@, *m));
        },
    }
}

/// Appends the fields of an optional range under `name`.
pub fn push_opt_range(out: &mut Vec<FormField>, name: &str, q: &Option<RangeQuery>)
    ensures
        fields_view(final(out)@) == fields_view(old(out)@) + opt_range_view(name@, *q),
{
    match q {
        Some(x) => x.push_fields(name, out),
        None => {
            assert(fields_view(out@) =~= fields_view(out@) + opt_range_view(name@, *q));
        },
    }
}

} // verus!
