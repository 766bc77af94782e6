//! The generic structured value that a YAML document parses into, and the
//! lookups on its mappings that the schema decoding is built from.
use vstd::prelude::*;

verus! {

broadcast use vstd::std_specs::vec::axiom_vec_index_decreases;

/// A YAML number as the parser reads it: a non-negative integer, a negative
/// integer, or a floating-point number kept in its canonical text form.
#[derive(Debug, PartialEq)]
pub enum Numeric {
    PosInt(u64),
    NegInt(i64),
    Float(String),
}

impl Clone for Numeric {
    fn clone(&self) -> (r: Self)
        ensures
            r == *self,
    {
        match self {
            Numeric::PosInt(u) => Numeric::PosInt(*u),
            Numeric::NegInt(i) => Numeric::NegInt(*i),
            Numeric::Float(s) => Numeric::Float(s.clone()),
        }
    }
}

/// A dynamically typed structured value. Mappings keep their entries in
/// document order; any value may stand as a key.
#[derive(Debug)]
pub enum GenericValue {
    Null,
    Bool(bool),
    Number(Numeric),
    String(String),
    List(Vec<GenericValue>),
    Mapping(Vec<(GenericValue, GenericValue)>),
}

/// Two values hold the same data, all the way down.
pub open spec fn same_value(a: GenericValue, b: GenericValue) -> bool
    decreases a,
{
    match a {
        GenericValue::Null => b is Null,
        GenericValue::Bool(x) => b == GenericValue::Bool(x),
        GenericValue::Number(x) => b == GenericValue::Number(x),
        GenericValue::String(x) => b == GenericValue::String(x),
        GenericValue::List(x) => {
            &&& b is List
            &&& x@.len() == b->List_0@.len()
            &&& forall|i: int| 0 <= i < x@.len() ==> same_value(#[trigger] x[i], b->List_0[i])
        },
        GenericValue::Mapping(x) => {
            &&& b is Mapping
            &&& x@.len() == b->Mapping_0@.len()
            &&& forall|i: int|
                0 <= i < x@.len() ==> same_value(#[trigger] x[i].0, b->Mapping_0[i].0) && same_value(
                    x[i].1,
                    b->Mapping_0[i].1,
                )
        },
    }
}

impl GenericValue {
    /// A copy that holds the same data.
    fn deep_clone(&self) -> (r: GenericValue)
        ensures
            same_value(*self, r),
        decreases self,
    {
        match self {
            GenericValue::Null => GenericValue::Null,
            GenericValue::Bool(b) => GenericValue::Bool(*b),
            GenericValue::Number(n) => GenericValue::Number(n.clone()),
            GenericValue::String(s) => GenericValue::String(s.clone()),
            GenericValue::List(l) => {
                let mut out: Vec<GenericValue> = Vec::new();
                let mut i: usize = 0;
                while i < l.len()
                    invariant
                        *self == GenericValue::List(*l),
                        i <= l@.len(),
                        out@.len() == i,
                        forall|k: int| 0 <= k < i ==> same_value(#[trigger] l@[k], out@[k]),
                    decreases l@.len() - i,
                {
                    proof {
                        assert(decreases_to!(*self => (*self)->List_0));
                        assert(decreases_to!(*l => l[i as int]));
                    }
                    out.push(l[i].deep_clone());
                    i = i + 1;
                }
                GenericValue::List(out)
            },
            GenericValue::Mapping(e) => {
                let mut out: Vec<(GenericValue, GenericValue)> = Vec::new();
                let mut i: usize = 0;
                while i < e.len()
                    invariant
                        *self == GenericValue::Mapping(*e),
                        i <= e@.len(),
                        out@.len() == i,
                        forall|k: int|
                            0 <= k < i ==> same_value(#[trigger] e@[k].0, out@[k].0) && same_value(e@[k].1, out@[k].1),
                    decreases e@.len() - i,
                {
                    proof {
                        assert(decreases_to!(*self => (*self)->Mapping_0));
                        assert(decreases_to!(*e => e[i as int]));
                        assert(decreases_to!(e[i as int] => e[i as int].0));
                        assert(decreases_to!(e[i as int] => e[i as int].1));
                    }
                    let k = e[i].0.deep_clone();
                    let x = e[i].1.deep_clone();
                    out.push((k, x));
                    i = i + 1;
                }
                GenericValue::Mapping(out)
            },
        }
    }

    /// The value under the string key `key`, where this is a mapping: that of
    /// the first entry with that key.
    pub fn get(&self, key: &str) -> (r: Option<&GenericValue>)
        ensures
            match *self {
                GenericValue::Mapping(e) => match lookup(e@, key@) {
                    Some(x) => r == Some(&x),
                    None => r is None,
                },
                _ => r is None,
            },
    {
        match self {
            GenericValue::Mapping(e) => match find_entry(e, key) {
                Some(i) => Some(&e[i].1),
                None => None,
            },
            _ => None,
        }
    }
}

impl Clone for GenericValue {
    fn clone(&self) -> (r: Self)
        ensures
            same_value(*self, r),
    {
        self.deep_clone()
    }
}

/// The text of a string value.
pub open spec fn text_of(v: GenericValue) -> Option<Seq<char>> {
    match v {
        GenericValue::String(s) => Some(s@),
        _ => None,
    }
}

/// The value of the first entry whose key is the string `key`.
pub open spec fn lookup(entries: Seq<(GenericValue, GenericValue)>, key: Seq<char>) -> Option<GenericValue>
    decreases entries.len(),
{
    if entries.len() == 0 {
        None
    } else if text_of(entries[0].0) == Some(key) {
        Some(entries[0].1)
    } else {
        lookup(entries.drop_first(), key)
    }
}

/// Compares two texts character by character.
pub fn text_eq(a: &str, b: &str) -> (r: bool)
    ensures
        r == (a@ == b@),
{
    let x = a.to_owned();
    let y = b.to_owned();
    x == y
}

/// Whether a key is the string `key`.
pub fn key_is(k: &GenericValue, key: &str) -> (r: bool)
    ensures
        r == (text_of(*k) == Some(key@)),
{
    match k {
        GenericValue::String(s) => text_eq(s.as_str(), key),
        _ => false,
    }
}

/// A mapping with no key `key` has no value for it.
pub proof fn lemma_lookup_absent(entries: Seq<(GenericValue, GenericValue)>, key: Seq<char>)
    requires
        forall|i: int| 0 <= i < entries.len() ==> text_of(#[trigger] entries[i].0) != Some(key),
    ensures
        lookup(entries, key) is None,
    decreases entries.len(),
{
    if entries.len() > 0 {
        assert(text_of(entries[0].0) != Some(key));
        assert forall|i: int| 0 <= i < entries.drop_first().len() implies text_of(
            #[trigger] entries.drop_first()[i].0,
        ) != Some(key) by {
            assert(entries.drop_first()[i] == entries[i + 1]);
        }
        lemma_lookup_absent(entries.drop_first(), key);
    }
}

proof fn lemma_lookup_skip(entries: Seq<(GenericValue, GenericValue)>, key: Seq<char>, i: int)
    requires
        0 <= i < entries.len(),
        text_of(entries[i].0) != Some(key),
    ensures
        lookup(entries.skip(i), key) == lookup(entries.skip(i + 1), key),
{
    assert(entries.skip(i).drop_first() =~= entries.skip(i + 1));
}

/// The position of the first entry whose key is the string `key`.
pub fn find_entry(entries: &Vec<(GenericValue, GenericValue)>, key: &str) -> (r: Option<usize>)
    ensures
        r is None <==> lookup(entries@, key@) is None,
        r matches Some(i) ==> i < entries@.len() && lookup(entries@, key@) == Some(entries@[i as int].1)
            && text_of(entries@[i as int].0) == Some(key@),
{
    let mut i: usize = 0;
    assert(entries@.skip(0) =~= entries@);
    while i < entries.len()
        invariant
            i <= entries@.len(),
            lookup(entries@, key@) == lookup(entries@.skip(i as int), key@),
        decreases entries@.len() - i,
    {
        if key_is(&entries[i].0, key) {
            return Some(i);
        }
        proof {
            lemma_lookup_skip(entries@, key@, i as int);
        }
        i = i + 1;
    }
    None
}

/// Every key of the mapping is a string.
pub open spec fn text_keys(entries: Seq<(GenericValue, GenericValue)>) -> bool {
    forall|i: int| 0 <= i < entries.len() ==> (#[trigger] text_of(entries[i].0)) is Some
}

/// No two keys of the mapping are the same string.
pub open spec fn distinct_keys(entries: Seq<(GenericValue, GenericValue)>) -> bool {
    forall|i: int, j: int|
        0 <= i < j < entries.len() ==> text_of(#[trigger] entries[i].0) != text_of(#[trigger] entries[j].0)
}

/// Every key of the mapping is one of `names`.
pub open spec fn keys_among(entries: Seq<(GenericValue, GenericValue)>, names: Seq<Seq<char>>) -> bool {
    forall|i: int| 0 <= i < entries.len() ==> names.contains(#[trigger] text_of(entries[i].0)->0)
}

/// A mapping that can stand for a record with the fields `names`: its keys are
/// distinct strings, each the name of a field.
pub open spec fn is_record(entries: Seq<(GenericValue, GenericValue)>, names: Seq<Seq<char>>) -> bool {
    &&& text_keys(entries)
    &&& keys_among(entries, names)
    &&& distinct_keys(entries)
}

/// The views of a list of field names.
pub open spec fn names_view(names: Seq<&str>) -> Seq<Seq<char>> {
    names.map_values(|n: &str| n@)
}

/// The string of a key, where it is one.
pub fn key_text(k: &GenericValue) -> (r: Option<&String>)
    ensures
        r is None <==> text_of(*k) is None,
        r matches Some(s) ==> text_of(*k) == Some(s@),
{
    match k {
        GenericValue::String(s) => Some(s),
        _ => None,
    }
}

/// Whether every key of the mapping is a string.
pub fn all_text_keys(entries: &Vec<(GenericValue, GenericValue)>) -> (r: bool)
    ensures
        r == text_keys(entries@),
{
    let mut i: usize = 0;
    while i < entries.len()
        invariant
            i <= entries@.len(),
            forall|k: int| 0 <= k < i ==> (#[trigger] text_of(entries@[k].0)) is Some,
        decreases entries@.len() - i,
    {
        if key_text(&entries[i].0).is_none() {
            return false;
        }
        i = i + 1;
    }
    true
}

/// Whether the string keys of the mapping are pairwise distinct.
pub fn all_distinct_keys(entries: &Vec<(GenericValue, GenericValue)>) -> (r: bool)
    requires
        text_keys(entries@),
    ensures
        r == distinct_keys(entries@),
{
    let n = entries.len();
    let mut i: usize = 0;
    while i < n
        invariant
            n == entries@.len(),
            i <= n,
            text_keys(entries@),
            forall|a: int, b: int|
                0 <= a < i && a < b < n ==> text_of(#[trigger] entries@[a].0) != text_of(#[trigger] entries@[b].0),
        decreases n - i,
    {
        let ki = key_text(&entries[i].0);
        assert(text_of(entries@[i as int].0) is Some);
        let ki = ki.unwrap();
        let mut j: usize = i + 1;
        while j < n
            invariant
                n == entries@.len(),
                i < j <= n,
                text_keys(entries@),
                text_of(entries@[i as int].0) == Some(ki@),
                forall|a: int, b: int|
                    0 <= a < i && a < b < n ==> text_of(#[trigger] entries@[a].0) != text_of(#[trigger] entries@[b].0),
                forall|b: int| i < b < j ==> text_of(entries@[i as int].0) != text_of(#[trigger] entries@[b].0),
            decreases n - j,
        {
            let kj = key_text(&entries[j].0);
            assert(text_of(entries@[j as int].0) is Some);
            let kj = kj.unwrap();
            if *ki == *kj {
                return false;
            }
            j = j + 1;
        }
        i = i + 1;
    }
    true
}

/// Whether `k` is one of `names`.
pub fn is_one_of(k: &str, names: &Vec<&str>) -> (r: bool)
    ensures
        r == names_view(names@).contains(k@),
{
    let mut i: usize = 0;
    while i < names.len()
        invariant
            i <= names@.len(),
            forall|m: int| 0 <= m < i ==> names@[m]@ != k@,
        decreases names@.len() - i,
    {
        if text_eq(names[i], k) {
            assert(names_view(names@)[i as int] == k@);
            return true;
        }
        i = i + 1;
    }
    assert forall|m: int| 0 <= m < names_view(names@).len() implies names_view(names@)[m] != k@ by {
        assert(names_view(names@)[m] == names@[m]@);
    }
    false
}

/// Whether the mapping can stand for a record with the fields `names`.
pub fn record_shape(entries: &Vec<(GenericValue, GenericValue)>, names: &Vec<&str>) -> (r: bool)
    ensures
        r == is_record(entries@, names_view(names@)),
{
    if !all_text_keys(entries) {
        return false;
    }
    let mut i: usize = 0;
    while i < entries.len()
        invariant
            i <= entries@.len(),
            text_keys(entries@),
            forall|k: int| 0 <= k < i ==> names_view(names@).contains(#[trigger] text_of(entries@[k].0)->0),
        decreases entries@.len() - i,
    {
        let k = key_text(&entries[i].0);
        assert(text_of(entries@[i as int].0) is Some);
        let k = k.unwrap();
        if !is_one_of(k.as_str(), names) {
            return false;
        }
        i = i + 1;
    }
    all_distinct_keys(entries)
}

/// The entries of a mapping; none for any other value.
pub open spec fn entries_of(v: GenericValue) -> Seq<(GenericValue, GenericValue)> {
    match v {
        GenericValue::Mapping(e) => e@,
        _ => Seq::empty(),
    }
}

/// The text of the string field `name`.
pub open spec fn field_text(entries: Seq<(GenericValue, GenericValue)>, name: Seq<char>) -> Option<Seq<char>> {
    match lookup(entries, name) {
        Some(v) => text_of(v),
        None => None,
    }
}

/// The field `name`, where a record declares it optional and textual, is
/// absent, null, or a string.
pub open spec fn optional_text_ok(entries: Seq<(GenericValue, GenericValue)>, name: Seq<char>) -> bool {
    match lookup(entries, name) {
        None => true,
        Some(GenericValue::Null) => true,
        Some(v) => text_of(v) is Some,
    }
}

/// The view of an optional string.
pub open spec fn opt_view(o: Option<String>) -> Option<Seq<char>> {
    match o {
        Some(s) => Some(s@),
        None => None,
    }
}

/// A mapping from strings to strings, with distinct keys.
pub open spec fn is_text_map(v: GenericValue) -> bool {
    &&& v is Mapping
    &&& text_keys(entries_of(v))
    &&& distinct_keys(entries_of(v))
    &&& forall|i: int| 0 <= i < entries_of(v).len() ==> (#[trigger] text_of(entries_of(v)[i].1)) is Some
}

/// `out` holds the entries of the mapping, in order, as pairs of texts.
pub open spec fn text_pairs(entries: Seq<(GenericValue, GenericValue)>, out: Seq<(String, String)>) -> bool {
    &&& out.len() == entries.len()
    &&& forall|i: int|
        0 <= i < out.len() ==> Some((#[trigger] out[i]).0@) == text_of(entries[i].0) && Some(out[i].1@) == text_of(
            entries[i].1,
        )
}

/// A copy of the string field `name`.
pub fn text_field(entries: &Vec<(GenericValue, GenericValue)>, name: &str) -> (r: Option<String>)
    ensures
        opt_view(r) == field_text(entries@, name@),
{
    match find_entry(entries, name) {
        Some(i) => match &entries[i].1 {
            GenericValue::String(s) => Some(s.clone()),
            _ => None,
        },
        None => None,
    }
}

/// A copy of the optional string field `name`; an error where it holds
/// something else than null or a string.
pub fn optional_text_field(entries: &Vec<(GenericValue, GenericValue)>, name: &str) -> (r: Result<Option<String>, ()>)
    ensures
        r is Ok <==> optional_text_ok(entries@, name@),
        r matches Ok(o) ==> opt_view(o) == field_text(entries@, name@),
{
    match find_entry(entries, name) {
        Some(i) => match &entries[i].1 {
            GenericValue::Null => Ok(None),
            GenericValue::String(s) => Ok(Some(s.clone())),
            _ => Err(()),
        },
        None => Ok(None),
    }
}

/// The pairs of a mapping from strings to strings, in order.
pub fn text_map(v: &GenericValue) -> (r: Option<Vec<(String, String)>>)
    ensures
        r is Some <==> is_text_map(*v),
        r matches Some(out) ==> text_pairs(entries_of(*v), out@),
{
    let entries = match v {
        GenericValue::Mapping(e) => e,
        _ => return None,
    };
    if !all_text_keys(entries) || !all_distinct_keys(entries) {
        return None;
    }
    let mut out: Vec<(String, String)> = Vec::new();
    let mut i: usize = 0;
    while i < entries.len()
        invariant
            *v == GenericValue::Mapping(*entries),
            i <= entries@.len(),
            text_keys(entries@),
            distinct_keys(entries@),
            forall|k: int| 0 <= k < i ==> (#[trigger] text_of(entries@[k].1)) is Some,
            text_pairs(entries@.subrange(0, i as int), out@),
        decreases entries@.len() - i,
    {
        let (k, x) = &entries[i];
        let kt = key_text(k);
        assert(text_of(entries@[i as int].0) is Some);
        let kt = kt.unwrap();
        match x {
            GenericValue::String(s) => {
                out.push((kt.clone(), s.clone()));
            },
            _ => {
                assert(text_of(entries_of(*v)[i as int].1) is None);
                return None;
            },
        }
        i = i + 1;
        assert(entries@.subrange(0, i as int).drop_last() =~= entries@.subrange(0, i - 1));
    }
    assert(entries@.subrange(0, i as int) =~= entries@);
    Some(out)
}

} // verus!
