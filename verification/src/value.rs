//! A transport-neutral value representation, and field access on
//! object-shaped values.
//!
//! Serialized models and messages, the channel object itself, and the
//! values found in the global namespace are all represented as [`Value`].
//! An object is an ordered list of key/value pairs with first-match
//! lookup, mirroring property access on an environment object.

use vstd::prelude::*;

verus! {

/// A transport-neutral value: what a serialized model or message, the
/// channel object, or any other value in the global namespace looks like
/// to this library.
pub enum Value {
    Null,
    Bool(bool),
    Int(i64),
    Str(String),
    Arr(Vec<Value>),
    Obj(Vec<(String, Value)>),
}

impl Value {
    /// An object-typed value, as opposed to a primitive or an array.
    pub open spec fn is_object(self) -> bool {
        self is Obj
    }
}

/// The value bound to `key` in a field list: the first pair whose key
/// matches, if any.
pub open spec fn lookup(fields: Seq<(String, Value)>, key: Seq<char>) -> Option<Value>
    decreases fields.len(),
{
    if fields.len() == 0 {
        None::<Value>
    } else if fields[0].0@ == key {
        Some(fields[0].1)
    } else {
        lookup(fields.drop_first(), key)
    }
}

/// The field list after binding `key` to `val`: the first pair whose key
/// matches is replaced in place; if none matches, the pair is appended.
pub open spec fn store(fields: Seq<(String, Value)>, key: String, val: Value) -> Seq<
    (String, Value),
>
    decreases fields.len(),
{
    if fields.len() == 0 {
        seq![(key, val)]
    } else if fields[0].0@ == key@ {
        seq![(key, val)] + fields.drop_first()
    } else {
        seq![fields[0]] + store(fields.drop_first(), key, val)
    }
}

/// Binding a key and then looking it up yields the bound value.
pub proof fn lemma_lookup_store_same(fields: Seq<(String, Value)>, key: String, val: Value)
    ensures
        lookup(store(fields, key, val), key@) == Some(val),
    decreases fields.len(),
{
    if fields.len() == 0 {
    } else if fields[0].0@ == key@ {
    } else {
        lemma_lookup_store_same(fields.drop_first(), key, val);
        assert((seq![fields[0]] + store(fields.drop_first(), key, val)).drop_first() == store(
            fields.drop_first(),
            key,
            val,
        ));
    }
}

/// Binding one key leaves every other key's binding unchanged.
pub proof fn lemma_lookup_store_other(
    fields: Seq<(String, Value)>,
    key: String,
    val: Value,
    other: Seq<char>,
)
    requires
        other != key@,
    ensures
        lookup(store(fields, key, val), other) == lookup(fields, other),
    decreases fields.len(),
{
    if fields.len() == 0 {
        let s = seq![(key, val)];
        assert(s[0] == (key, val));
        assert(s.drop_first() =~= Seq::<(String, Value)>::empty());
        assert(lookup(s, other) == lookup(s.drop_first(), other));
    } else if fields[0].0@ == key@ {
        let s = seq![(key, val)] + fields.drop_first();
        assert(s[0] == (key, val));
        assert(s.drop_first() =~= fields.drop_first());
        assert(lookup(s, other) == lookup(fields.drop_first(), other));
        assert(lookup(fields, other) == lookup(fields.drop_first(), other));
    } else {
        lemma_lookup_store_other(fields.drop_first(), key, val, other);
        let s = seq![fields[0]] + store(fields.drop_first(), key, val);
        assert(s[0] == fields[0]);
        assert(s.drop_first() =~= store(fields.drop_first(), key, val));
    }
}

/// A key that no pair carries is not bound.
pub proof fn lemma_lookup_none(fields: Seq<(String, Value)>, key: Seq<char>)
    requires
        forall|j: int| 0 <= j < fields.len() ==> fields[j].0@ != key,
    ensures
        lookup(fields, key) is None,
    decreases fields.len(),
{
    if fields.len() == 0 {
    } else {
        assert(fields[0].0@ != key);
        assert forall|j: int| 0 <= j < fields.drop_first().len() implies fields.drop_first()[j].0@
            != key by {
            assert(fields.drop_first()[j] == fields[j + 1]);
        }
        lemma_lookup_none(fields.drop_first(), key);
    }
}

/// Lookup finds the first pair whose key matches.
pub proof fn lemma_lookup_first_match(fields: Seq<(String, Value)>, key: Seq<char>, i: int)
    requires
        0 <= i < fields.len(),
        fields[i].0@ == key,
        forall|j: int| 0 <= j < i ==> fields[j].0@ != key,
    ensures
        lookup(fields, key) == Some(fields[i].1),
    decreases fields.len(),
{
    if i == 0 {
    } else {
        assert(fields[0].0@ != key);
        assert forall|j: int| 0 <= j < i - 1 implies fields.drop_first()[j].0@ != key by {
            assert(fields.drop_first()[j] == fields[j + 1]);
        }
        assert(fields.drop_first()[i - 1] == fields[i]);
        lemma_lookup_first_match(fields.drop_first(), key, i - 1);
    }
}

/// When the first pair carrying `key` stands at index `i`, storing
/// replaces exactly that pair in place.
pub proof fn lemma_store_first_match(fields: Seq<(String, Value)>, key: String, val: Value, i: int)
    requires
        0 <= i < fields.len(),
        fields[i].0@ == key@,
        forall|j: int| 0 <= j < i ==> fields[j].0@ != key@,
    ensures
        store(fields, key, val) =~= fields.update(i, (key, val)),
    decreases fields.len(),
{
    if i == 0 {
    } else {
        assert(fields[0].0@ != key@);
        assert forall|j: int| 0 <= j < i - 1 implies fields.drop_first()[j].0@ != key@ by {
            assert(fields.drop_first()[j] == fields[j + 1]);
        }
        assert(fields.drop_first()[i - 1] == fields[i]);
        lemma_store_first_match(fields.drop_first(), key, val, i - 1);
    }
}

/// When no pair carries `key`, storing appends the new pair.
pub proof fn lemma_store_append(fields: Seq<(String, Value)>, key: String, val: Value)
    requires
        forall|j: int| 0 <= j < fields.len() ==> fields[j].0@ != key@,
    ensures
        store(fields, key, val) =~= fields.push((key, val)),
    decreases fields.len(),
{
    if fields.len() == 0 {
    } else {
        assert(fields[0].0@ != key@);
        assert forall|j: int| 0 <= j < fields.drop_first().len() implies fields.drop_first()[j].0@
            != key@ by {
            assert(fields.drop_first()[j] == fields[j + 1]);
        }
        lemma_store_append(fields.drop_first(), key, val);
    }
}

/// Looks up `key` in a field list, returning a reference to the first
/// matching value.
pub fn get_field<'a>(fields: &'a Vec<(String, Value)>, key: &String) -> (r: Option<&'a Value>)
    ensures
        match r {
            Some(v) => lookup(fields@, key@) == Some(*v),
            None => lookup(fields@, key@) is None,
        },
{
    let mut i: usize = 0;
    assert(fields@.skip(0) =~= fields@);
    while i < fields.len()
        invariant
            i <= fields@.len(),
            lookup(fields@, key@) == lookup(fields@.skip(i as int), key@),
        decreases fields@.len() - i,
    {
        if fields[i].0 == *key {
            assert(fields@.skip(i as int)[0] == fields@[i as int]);
            return Some(&fields[i].1);
        }
        assert(fields@.skip(i as int).drop_first() == fields@.skip(i + 1));
        i = i + 1;
    }
    assert(fields@.skip(i as int).len() == 0);
    None
}

/// Binds `key` to `val` in a field list: the first pair whose key matches
/// is replaced in place; if none matches, the pair is appended.
pub fn set_field(fields: &mut Vec<(String, Value)>, key: String, val: Value)
    ensures
        final(fields)@ == store(old(fields)@, key, val),
{
    let mut i: usize = 0;
    while i < fields.len()
        invariant
            i <= fields@.len(),
            fields@ == old(fields)@,
            forall|j: int| 0 <= j < i ==> fields@[j].0@ != key@,
        decreases fields@.len() - i,
    {
        if fields[i].0 == key {
            let _replaced = fields.remove(i);
            fields.insert(i, (key, val));
            proof {
                lemma_store_first_match(old(fields)@, key, val, i as int);
                assert(fields@ =~= old(fields)@.update(i as int, (key, val)));
            }
            return ;
        }
        i = i + 1;
    }
    fields.push((key, val));
    proof {
        lemma_store_append(old(fields)@, key, val);
    }
}

/// Appends `item` to the array bound to `key`, if `key` is bound to an
/// array; otherwise changes nothing and reports failure. Every other
/// binding is left unchanged.
pub fn push_arr_field(fields: &mut Vec<(String, Value)>, key: &String, item: Value) -> (ok: bool)
    ensures
        ok == (lookup(old(fields)@, key@) matches Some(f) && f is Arr),
        !ok ==> final(fields)@ == old(fields)@,
        ok ==> ({
            &&& lookup(final(fields)@, key@) matches Some(nf)
            &&& nf is Arr
            &&& nf->Arr_0@ == (lookup(old(fields)@, key@)->Some_0)->Arr_0@.push(item)
            &&& forall|k: Seq<char>|
                k != key@ ==> lookup(final(fields)@, k) == lookup(old(fields)@, k)
        }),
{
    let mut i: usize = 0;
    while i < fields.len()
        invariant
            i <= fields@.len(),
            fields@ == old(fields)@,
            forall|j: int| 0 <= j < i ==> fields@[j].0@ != key@,
        decreases fields@.len() - i,
    {
        if fields[i].0 == *key {
            proof {
                lemma_lookup_first_match(fields@, key@, i as int);
            }
            let is_arr = match &fields[i].1 {
                Value::Arr(_) => true,
                _ => false,
            };
            if !is_arr {
                return false;
            }
            let pair = fields.remove(i);
            match pair.1 {
                Value::Arr(mut a) => {
                    a.push(item);
                    let nv = Value::Arr(a);
                    fields.insert(i, (pair.0, nv));
                    proof {
                        assert(fields@ =~= old(fields)@.update(i as int, (pair.0, nv)));
                        lemma_store_first_match(old(fields)@, pair.0, nv, i as int);
                        assert(fields@ == store(old(fields)@, pair.0, nv));
                        lemma_lookup_store_same(old(fields)@, pair.0, nv);
                        assert forall|k: Seq<char>| k != key@ implies lookup(fields@, k) == lookup(
                            old(fields)@,
                            k,
                        ) by {
                            lemma_lookup_store_other(old(fields)@, pair.0, nv, k);
                        }
                    }
                    return true;
                },
                other => {
                    // ruled out by the shape test above
                    proof {
                        assert(false);
                    }
                    fields.insert(i, (pair.0, other));
                    return false;
                },
            }
        }
        i = i + 1;
    }
    proof {
        lemma_lookup_none(fields@, key@);
    }
    false
}

} // verus!
