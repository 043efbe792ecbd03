//! The query string of a request target: a mapping from keys to one value
//! or to several, in the order in which they were met.

use vstd::prelude::*;
use vstd::string::*;
use crate::http::text::{find_first, first_of, lemma_first_of, same_text};

verus! {

/// What a key of a query string maps to.
#[derive(Debug, PartialEq, Eq)]
pub enum Value<'buf> {
    /// The key occurred once.
    Single(&'buf str),
    /// The key occurred more than once: its values in the order met.
    Multiple(Vec<&'buf str>),
}

/// The mathematical value of a `Value`.
pub enum ValueView {
    Single(Seq<char>),
    Multiple(Seq<Seq<char>>),
}

/// The texts that a list of string slices holds.
pub open spec fn texts(v: Seq<&str>) -> Seq<Seq<char>> {
    Seq::new(v.len(), |i: int| v[i]@)
}

impl<'buf> View for Value<'buf> {
    type V = ValueView;

    open spec fn view(&self) -> ValueView {
        match self {
            Value::Single(s) => ValueView::Single(s@),
            Value::Multiple(v) => ValueView::Multiple(texts(v@)),
        }
    }
}

/// A value after one more occurrence of its key: a single value becomes a
/// list of two, a list grows at its end.
pub open spec fn appended(old_value: ValueView, v: Seq<char>) -> ValueView {
    match old_value {
        ValueView::Single(p) => ValueView::Multiple(seq![p, v]),
        ValueView::Multiple(l) => ValueView::Multiple(l.push(v)),
    }
}

/// The mapping after one occurrence of key `k` with value `v`.
pub open spec fn add_value(m: Map<Seq<char>, ValueView>, k: Seq<char>, v: Seq<char>) -> Map<
    Seq<char>,
    ValueView,
> {
    if m.contains_key(k) {
        m.insert(k, appended(m[k], v))
    } else {
        m.insert(k, ValueView::Single(v))
    }
}

/// The key of a pair: the text before its first `=`, or all of it.
pub open spec fn pair_key(pair: Seq<char>) -> Seq<char> {
    pair.take(first_of(pair, '=', '='))
}

/// The value of a pair: the text after its first `=`, or the empty text.
pub open spec fn pair_value(pair: Seq<char>) -> Seq<char> {
    let i = first_of(pair, '=', '=');
    if 0 <= i < pair.len() {
        pair.skip(i + 1)
    } else {
        Seq::empty()
    }
}

/// The mapping `m` after the pairs of `s`, which `&` separates, from left
/// to right.
pub open spec fn add_pairs(m: Map<Seq<char>, ValueView>, s: Seq<char>) -> Map<
    Seq<char>,
    ValueView,
>
    decreases s.len(),
{
    let i = first_of(s, '&', '&');
    if 0 <= i < s.len() {
        add_pairs(add_value(m, pair_key(s.take(i)), pair_value(s.take(i))), s.skip(i + 1))
    } else {
        add_value(m, pair_key(s), pair_value(s))
    }
}

/// The mapping that a query text stands for.
pub open spec fn query_map(s: Seq<char>) -> Map<Seq<char>, ValueView> {
    add_pairs(Map::empty(), s)
}

/// Every list of values in `m` holds at least two.
pub open spec fn lists_hold_two(m: Map<Seq<char>, ValueView>) -> bool {
    forall|k: Seq<char>| #[trigger]
        m.contains_key(k) ==> (m[k] matches ValueView::Multiple(l) ==> l.len() >= 2)
}

/// Pairs added to a mapping whose lists hold two leave such a mapping.
proof fn lemma_add_pairs_lists(m: Map<Seq<char>, ValueView>, s: Seq<char>)
    requires
        lists_hold_two(m),
    ensures
        lists_hold_two(add_pairs(m, s)),
    decreases s.len(),
{
    let i = first_of(s, '&', '&');
    if 0 <= i < s.len() {
        let next = add_value(m, pair_key(s.take(i)), pair_value(s.take(i)));
        assert(lists_hold_two(next));
        lemma_add_pairs_lists(next, s.skip(i + 1));
    }
}

/// A key has a list of values only from its second occurrence on: in the
/// mapping of any query text, every list holds at least two values.
pub proof fn lemma_lists_hold_two(s: Seq<char>)
    ensures
        lists_hold_two(query_map(s)),
{
    lemma_add_pairs_lists(Map::empty(), s);
}

/// The key of the entry at position `i`.
spec fn key_at(es: Seq<(&str, Value)>, i: int) -> Seq<char> {
    es[i].0@
}

/// No key stands at two positions.
spec fn distinct_keys(es: Seq<(&str, Value)>) -> bool {
    forall|i: int, j: int| 0 <= i < j < es.len() ==> key_at(es, i) != key_at(es, j)
}

/// The mapping that a list of entries holds.
spec fn entries_map(es: Seq<(&str, Value)>) -> Map<Seq<char>, ValueView> {
    Map::new(
        |k: Seq<char>| exists|i: int| 0 <= i < es.len() && key_at(es, i) == k,
        |k: Seq<char>| es[choose|i: int| 0 <= i < es.len() && key_at(es, i) == k].1@,
    )
}

/// Under distinct keys the mapping holds each entry under its key.
proof fn lemma_lookup(es: Seq<(&str, Value)>, i: int)
    requires
        distinct_keys(es),
        0 <= i < es.len(),
    ensures
        entries_map(es).contains_key(key_at(es, i)),
        entries_map(es)[key_at(es, i)] == es[i].1@,
{
    let k = key_at(es, i);
    let j = choose|j: int| 0 <= j < es.len() && key_at(es, j) == k;
    assert(j == i) by {
        if j < i {
            assert(key_at(es, j) != key_at(es, i));
        }
        if i < j {
            assert(key_at(es, i) != key_at(es, j));
        }
    }
}

/// A key that stands at no position is not in the mapping.
proof fn lemma_absent(es: Seq<(&str, Value)>, k: Seq<char>)
    requires
        forall|j: int| 0 <= j < es.len() ==> key_at(es, j) != k,
    ensures
        !entries_map(es).contains_key(k),
{
}

/// An entry with a new key, put at the end, is an insertion into the mapping.
proof fn lemma_push(es: Seq<(&str, Value)>, e: (&str, Value))
    requires
        distinct_keys(es),
        forall|j: int| 0 <= j < es.len() ==> key_at(es, j) != e.0@,
    ensures
        distinct_keys(es.push(e)),
        entries_map(es.push(e)) == entries_map(es).insert(e.0@, e.1@),
{
    let fs = es.push(e);
    let n = es.len() as int;
    assert forall|i: int, j: int| 0 <= i < j < fs.len() implies key_at(fs, i) != key_at(fs, j) by {
        if j < n {
            assert(key_at(es, i) != key_at(es, j));
        } else {
            assert(key_at(es, i) != e.0@);
        }
    }
    let a = entries_map(fs);
    let b = entries_map(es).insert(e.0@, e.1@);
    assert forall|k: Seq<char>| a.contains_key(k) <==> b.contains_key(k) by {
        if a.contains_key(k) {
            let i = choose|i: int| 0 <= i < fs.len() && key_at(fs, i) == k;
            if i < n {
                assert(key_at(es, i) == k);
            }
        }
        if b.contains_key(k) {
            if k == e.0@ {
                assert(key_at(fs, n) == k);
            } else {
                let i = choose|i: int| 0 <= i < es.len() && key_at(es, i) == k;
                assert(key_at(fs, i) == k);
            }
        }
    }
    assert forall|k: Seq<char>| a.contains_key(k) implies a[k] == b[k] by {
        let i = choose|i: int| 0 <= i < fs.len() && key_at(fs, i) == k;
        lemma_lookup(fs, i);
        if i < n {
            assert(key_at(es, i) == k);
            lemma_lookup(es, i);
        }
    }
    assert(a =~= b);
}

/// An entry put in the place of one with the same key is an insertion into
/// the mapping.
proof fn lemma_update(es: Seq<(&str, Value)>, p: int, e: (&str, Value))
    requires
        distinct_keys(es),
        0 <= p < es.len(),
        key_at(es, p) == e.0@,
    ensures
        distinct_keys(es.update(p, e)),
        entries_map(es.update(p, e)) == entries_map(es).insert(e.0@, e.1@),
{
    let fs = es.update(p, e);
    assert forall|i: int| 0 <= i < es.len() implies key_at(fs, i) == key_at(es, i) by {}
    assert forall|i: int, j: int| 0 <= i < j < fs.len() implies key_at(fs, i) != key_at(fs, j) by {
        assert(key_at(es, i) != key_at(es, j));
    }
    let a = entries_map(fs);
    let b = entries_map(es).insert(e.0@, e.1@);
    assert forall|k: Seq<char>| a.contains_key(k) <==> b.contains_key(k) by {
        if a.contains_key(k) {
            let i = choose|i: int| 0 <= i < fs.len() && key_at(fs, i) == k;
            assert(key_at(es, i) == k);
        }
        if b.contains_key(k) {
            if k == e.0@ {
                assert(key_at(fs, p) == k);
            } else {
                let i = choose|i: int| 0 <= i < es.len() && key_at(es, i) == k;
                assert(key_at(fs, i) == k);
            }
        }
    }
    assert forall|k: Seq<char>| a.contains_key(k) implies a[k] == b[k] by {
        let i = choose|i: int| 0 <= i < fs.len() && key_at(fs, i) == k;
        lemma_lookup(fs, i);
        assert(key_at(es, i) == k);
        lemma_lookup(es, i);
    }
    assert(a =~= b);
}

/// The position of the entry whose key is `key`.
fn position(data: &Vec<(&str, Value)>, key: &str) -> (r: Option<usize>)
    ensures
        match r {
            Some(i) => i < data@.len() && key_at(data@, i as int) == key@,
            None => forall|j: int| 0 <= j < data@.len() ==> key_at(data@, j) != key@,
        },
{
    let mut i: usize = 0;
    while i < data.len()
        invariant
            i <= data@.len(),
            forall|j: int| 0 <= j < i ==> key_at(data@, j) != key@,
        decreases data@.len() - i,
    {
        if same_text(data[i].0, key) {
            return Some(i);
        }
        i += 1;
    }
    None
}

impl<'buf> Value<'buf> {
    /// Takes one more occurrence of the key.
    fn append(&mut self, val: &'buf str)
        ensures
            final(self)@ == appended(old(self)@, val@),
    {
        match self {
            Value::Single(prev) => {
                let p: &'buf str = *prev;
                let mut list: Vec<&'buf str> = Vec::new();
                list.push(p);
                list.push(val);
                assert(texts(list@) =~= seq![p@, val@]);
                *self = Value::Multiple(list);
            },
            Value::Multiple(list) => {
                let ghost before = list@;
                list.push(val);
                assert(texts(list@) =~= texts(before).push(val@));
            },
        }
    }
}

/// Records one occurrence of `key` with value `val`.
fn add_entry<'buf>(data: &mut Vec<(&'buf str, Value<'buf>)>, key: &'buf str, val: &'buf str)
    requires
        distinct_keys(old(data)@),
    ensures
        distinct_keys(final(data)@),
        entries_map(final(data)@) == add_value(entries_map(old(data)@), key@, val@),
{
    match position(data, key) {
        None => {
            proof {
                lemma_absent(data@, key@);
                lemma_push(data@, (key, Value::Single(val)));
            }
            data.push((key, Value::Single(val)));
        },
        Some(i) => {
            let ghost before = data@;
            proof {
                lemma_lookup(before, i as int);
            }
            let entry = &mut data[i];
            entry.1.append(val);
            proof {
                lemma_update(before, i as int, data@[i as int]);
                assert(data@ =~= before.update(i as int, data@[i as int]));
            }
        },
    }
}

/// Records one pair: key and value around its first `=`.
fn add_pair<'buf>(data: &mut Vec<(&'buf str, Value<'buf>)>, pair: &'buf str)
    requires
        distinct_keys(old(data)@),
    ensures
        distinct_keys(final(data)@),
        entries_map(final(data)@) == add_value(
            entries_map(old(data)@),
            pair_key(pair@),
            pair_value(pair@),
        ),
{
    let n: usize = pair.unicode_len();
    let i: usize = find_first(pair, '=', '=');
    proof {
        lemma_first_of(pair@, '=', '=');
    }
    if i < n {
        let key = pair.substring_char(0, i);
        let val = pair.substring_char(i + 1, n);
        add_entry(data, key, val);
    } else {
        assert(pair@.take(n as int) =~= pair@);
        let val = pair.substring_char(n, n);
        assert(val@ =~= Seq::<char>::empty());
        add_entry(data, pair, val);
    }
}

/// The query string of a request.
#[derive(Debug)]
pub struct QueryString<'buf> {
    data: Vec<(&'buf str, Value<'buf>)>,
}

impl<'buf> View for QueryString<'buf> {
    type V = Map<Seq<char>, ValueView>;

    closed spec fn view(&self) -> Map<Seq<char>, ValueView> {
        entries_map(self.data@)
    }
}

impl<'buf> QueryString<'buf> {
    #[verifier::type_invariant]
    spec fn well_formed(&self) -> bool {
        distinct_keys(self.data@)
    }

    /// Decodes a query text. Every text has a mapping: a pair without `=`
    /// has the empty value, and nothing is percent-decoded.
    pub fn parse(s: &'buf str) -> (r: QueryString<'buf>)
        ensures
            r@ == query_map(s@),
    {
        let mut data: Vec<(&'buf str, Value<'buf>)> = Vec::new();
        let mut rest: &'buf str = s;
        assert(entries_map(data@) =~= Map::<Seq<char>, ValueView>::empty());
        loop
            invariant_except_break
                distinct_keys(data@),
                add_pairs(entries_map(data@), rest@) == query_map(s@),
            ensures
                distinct_keys(data@),
                entries_map(data@) == query_map(s@),
            decreases rest@.len(),
        {
            let m: usize = rest.unicode_len();
            let i: usize = find_first(rest, '&', '&');
            proof {
                lemma_first_of(rest@, '&', '&');
            }
            if i < m {
                let pair = rest.substring_char(0, i);
                add_pair(&mut data, pair);
                rest = rest.substring_char(i + 1, m);
            } else {
                add_pair(&mut data, rest);
                break;
            }
        }
        QueryString { data }
    }

    /// The value of `key`, where the query string has that key.
    pub fn get(&self, key: &str) -> (r: Option<&Value<'buf>>)
        ensures
            match r {
                Some(v) => self@.contains_key(key@) && self@[key@] == v@,
                None => !self@.contains_key(key@),
            },
    {
        proof {
            use_type_invariant(self);
        }
        match position(&self.data, key) {
            Some(i) => {
                proof {
                    lemma_lookup(self.data@, i as int);
                }
                Some(&self.data[i].1)
            },
            None => {
                proof {
                    lemma_absent(self.data@, key@);
                }
                None
            },
        }
    }
}

impl<'buf> From<&'buf str> for QueryString<'buf> {
    /// Decodes a query text, as `parse` does.
    fn from(s: &'buf str) -> (r: QueryString<'buf>)
        ensures
            r@ == query_map(s@),
    {
        QueryString::parse(s)
    }
}

/// The conversion is described by the mapping that it gives, not by one
/// chosen value: two query strings of one text are equal as mappings only.
impl<'buf> vstd::std_specs::convert::FromSpecImpl<&'buf str> for QueryString<'buf> {
    open spec fn obeys_from_spec() -> bool {
        false
    }

    open spec fn from_spec(s: &'buf str) -> QueryString<'buf> {
        choose|q: QueryString<'buf>| q@ == query_map(s@)
    }
}

} // verus!
