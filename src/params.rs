//! Tool parameters: every value is handed to a tool as text.

use vstd::prelude::*;
use crate::text::{decimal_string, signed_decimal, signed_decimal_string};

verus! {

/// A parameter value as it arrives from the caller.
#[derive(Clone, Debug)]
pub enum ParamValue {
    Text(String),
    Integer(i64),
    Boolean(bool),
    /// Any other value, by its textual representation.
    Other(String),
}

/// The text a value is coerced to: strings pass through, numbers and
/// booleans are written out.
pub open spec fn param_text(v: ParamValue) -> Seq<char> {
    match v {
        ParamValue::Text(s) => s@,
        ParamValue::Integer(i) => signed_decimal(i as int),
        ParamValue::Boolean(b) => if b {
            "true"@
        } else {
            "false"@
        },
        ParamValue::Other(s) => s@,
    }
}

impl ParamValue {
    /// The value as text.
    pub fn to_text(&self) -> (r: String)
        ensures
            r@ == param_text(*self),
    {
        match self {
            ParamValue::Text(s) => s.clone(),
            ParamValue::Integer(i) => signed_decimal_string(*i),
            ParamValue::Boolean(b) => if *b {
                String::from_str("true")
            } else {
                String::from_str("false")
            },
            ParamValue::Other(s) => s.clone(),
        }
    }
}

/// The value of `k` among `entries`: the last entry under that key wins.
pub open spec fn lookup(entries: Seq<(Seq<char>, Seq<char>)>, k: Seq<char>) -> Option<Seq<char>>
    decreases entries.len(),
{
    if entries.len() == 0 {
        None
    } else if entries.last().0 == k {
        Some(entries.last().1)
    } else {
        lookup(entries.drop_last(), k)
    }
}

/// A string-keyed, string-valued parameter mapping.
#[derive(Clone, Debug)]
pub struct ParamMap {
    entries: Vec<(String, String)>,
}

impl View for ParamMap {
    type V = Seq<(Seq<char>, Seq<char>)>;

    closed spec fn view(&self) -> Seq<(Seq<char>, Seq<char>)> {
        self.entries@.map_values(|e: (String, String)| (e.0@, e.1@))
    }
}

impl ParamMap {
    /// The value given for `k`, if any.
    pub open spec fn value_of(&self, k: Seq<char>) -> Option<Seq<char>> {
        lookup(self@, k)
    }

    /// An empty mapping.
    pub fn new() -> (r: Self)
        ensures
            forall|k: Seq<char>| r.value_of(k) is None,
    {
        let r = ParamMap { entries: Vec::new() };
        assert(r@ =~= Seq::<(Seq<char>, Seq<char>)>::empty());
        r
    }

    /// Sets `key` to `value`, replacing what it held.
    pub fn insert(&mut self, key: String, value: String)
        ensures
            final(self).value_of(key@) == Some(value@),
            forall|k: Seq<char>| k != key@ ==> final(self).value_of(k) == old(self).value_of(k),
    {
        let ghost before = self@;
        self.entries.push((key, value));
        assert(self@ =~= before.push((key@, value@)));
        assert(self@.drop_last() =~= before);
    }

    /// The value given for `key`, if any.
    pub fn get(&self, key: &str) -> (r: Option<&String>)
        ensures
            r is Some <==> self.value_of(key@) is Some,
            r is Some ==> r->0@ == self.value_of(key@)->0,
    {
        let k = String::from_str(key);
        let mut i: usize = self.entries.len();
        assert(self@.subrange(0, i as int) =~= self@);
        while i > 0
            invariant
                i <= self.entries@.len(),
                k@ == key@,
                lookup(self@, key@) == lookup(self@.subrange(0, i as int), key@),
            decreases i,
        {
            let ghost pre = self@.subrange(0, i as int);
            assert(pre.last() == self@[i - 1]);
            assert(pre.drop_last() =~= self@.subrange(0, i - 1));
            if self.entries[i - 1].0 == k {
                return Some(&self.entries[i - 1].1);
            }
            i = i - 1;
        }
        None
    }

    /// The mapping of the given key/value pairs, each value coerced to text;
    /// a later pair overrides an earlier one with the same key.
    pub fn from_values(values: Vec<(String, ParamValue)>) -> (r: Self)
        ensures
            r@ == values@.map_values(|e: (String, ParamValue)| (e.0@, param_text(e.1))),
    {
        let mut entries: Vec<(String, String)> = Vec::new();
        let mut i: usize = 0;
        while i < values.len()
            invariant
                i <= values@.len(),
                entries@.map_values(|e: (String, String)| (e.0@, e.1@)) =~= values@.subrange(
                    0,
                    i as int,
                ).map_values(|e: (String, ParamValue)| (e.0@, param_text(e.1))),
            decreases values@.len() - i,
        {
            let key = values[i].0.clone();
            let text = values[i].1.to_text();
            let ghost before = entries@;
            entries.push((key, text));
            proof {
                let f = |e: (String, String)| (e.0@, e.1@);
                let g = |e: (String, ParamValue)| (e.0@, param_text(e.1));
                assert(entries@.map_values(f) =~= before.map_values(f).push(f((key, text))));
                assert(values@.subrange(0, i + 1).map_values(g) =~= values@.subrange(
                    0,
                    i as int,
                ).map_values(g).push(g(values@[i as int])));
            }
            i = i + 1;
        }
        assert(values@.subrange(0, values@.len() as int) =~= values@);
        ParamMap { entries }
    }
}

} // verus!
