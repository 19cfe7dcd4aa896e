//! A model of the host environment's global namespace: the named slots of
//! the one global object on which the channel lives.
//!
//! The adapter never touches the real global object directly; it works on
//! a [`Globals`] snapshot, and the unverified binding around the library
//! mirrors that snapshot to and from the environment.

use vstd::prelude::*;
use crate::value::{Value, lookup, store, get_field, set_field, push_arr_field,
    lemma_lookup_store_same, lemma_lookup_store_other, lemma_lookup_none,
    lemma_lookup_first_match, lemma_store_first_match};

verus! {

/// `slot` holds an object whose `field_key` field is an array: the shape
/// an append to that field needs.
pub open spec fn obj_arr_shape(slot: Option<Value>, field_key: Seq<char>) -> bool {
    &&& slot matches Some(v)
    &&& v is Obj
    &&& lookup(v->Obj_0@, field_key) matches Some(f)
    &&& f is Arr
}

/// The global namespace: an ordered list of named slots, looked up by
/// first match, exactly as fields of an object-shaped [`Value`] are.
pub struct Globals {
    pub slots: Vec<(String, Value)>,
}

impl Globals {
    /// The value bound to `key` in the namespace, if any.
    pub open spec fn slot(self, key: Seq<char>) -> Option<Value> {
        lookup(self.slots@, key)
    }

    /// An empty namespace: no key is bound.
    pub fn new() -> (g: Globals)
        ensures
            g.slots@.len() == 0,
            forall|k: Seq<char>| g.slot(k) is None,
    {
        let g = Globals { slots: Vec::new() };
        proof {
            assert forall|k: Seq<char>| g.slot(k) is None by {
                lemma_lookup_none(g.slots@, k);
            }
        }
        g
    }

    /// Reads the value bound to `key`.
    pub fn get<'a>(&'a self, key: &String) -> (r: Option<&'a Value>)
        ensures
            match r {
                Some(v) => self.slot(key@) == Some(*v),
                None => self.slot(key@) is None,
            },
    {
        get_field(&self.slots, key)
    }

    /// Binds `key` to `val`, leaving every other binding unchanged.
    pub fn set(&mut self, key: String, val: Value)
        ensures
            final(self).slot(key@) == Some(val),
            forall|k: Seq<char>| k != key@ ==> final(self).slot(k) == old(self).slot(k),
    {
        set_field(&mut self.slots, key, val);
        proof {
            lemma_lookup_store_same(old(self).slots@, key, val);
            assert forall|k: Seq<char>| k != key@ implies lookup(self.slots@, k) == lookup(
                old(self).slots@,
                k,
            ) by {
                lemma_lookup_store_other(old(self).slots@, key, val, k);
            }
        }
    }

    /// Binds `field_key` to `val` inside the object bound to `slot_key`,
    /// if `slot_key` is bound to an object; otherwise changes nothing and
    /// reports failure. Every other slot, and every other field of the
    /// object, keeps its binding.
    pub fn set_obj_field(&mut self, slot_key: &String, field_key: String, val: Value) -> (ok: bool)
        ensures
            ok == (old(self).slot(slot_key@) matches Some(v) && v is Obj),
            !ok ==> final(self).slots@ == old(self).slots@,
            ok ==> ({
                &&& final(self).slot(slot_key@) matches Some(nv)
                &&& nv is Obj
                &&& lookup(nv->Obj_0@, field_key@) == Some(val)
                &&& forall|k: Seq<char>|
                    k != field_key@ ==> lookup(nv->Obj_0@, k) == lookup(
                        (old(self).slot(slot_key@)->Some_0)->Obj_0@,
                        k,
                    )
            }),
            forall|k: Seq<char>| k != slot_key@ ==> final(self).slot(k) == old(self).slot(k),
    {
        let mut i: usize = 0;
        while i < self.slots.len()
            invariant
                i <= self.slots@.len(),
                self.slots@ == old(self).slots@,
                forall|j: int| 0 <= j < i ==> self.slots@[j].0@ != slot_key@,
            decreases self.slots@.len() - i,
        {
            if self.slots[i].0 == *slot_key {
                proof {
                    lemma_lookup_first_match(self.slots@, slot_key@, i as int);
                }
                let pair = self.slots.remove(i);
                match pair.1 {
                    Value::Obj(mut fs) => {
                        set_field(&mut fs, field_key, val);
                        let nv = Value::Obj(fs);
                        self.slots.insert(i, (pair.0, nv));
                        proof {
                            assert(self.slots@ =~= old(self).slots@.update(
                                i as int,
                                (pair.0, nv),
                            ));
                            lemma_store_first_match(old(self).slots@, pair.0, nv, i as int);
                            assert(self.slots@ == store(old(self).slots@, pair.0, nv));
                            lemma_lookup_store_same(old(self).slots@, pair.0, nv);
                            assert forall|k: Seq<char>| k != slot_key@ implies lookup(
                                self.slots@,
                                k,
                            ) == lookup(old(self).slots@, k) by {
                                lemma_lookup_store_other(old(self).slots@, pair.0, nv, k);
                            }
                            lemma_lookup_store_same(pair.1->Obj_0@, field_key, val);
                            assert forall|k: Seq<char>| k != field_key@ implies lookup(
                                nv->Obj_0@,
                                k,
                            ) == lookup(pair.1->Obj_0@, k) by {
                                lemma_lookup_store_other(pair.1->Obj_0@, field_key, val, k);
                            }
                        }
                        return true;
                    },
                    other => {
                        self.slots.insert(i, (pair.0, other));
                        proof {
                            assert(self.slots@ =~= old(self).slots@);
                        }
                        return false;
                    },
                }
            }
            i = i + 1;
        }
        proof {
            lemma_lookup_none(self.slots@, slot_key@);
        }
        false
    }

    /// Appends `item` to the array bound to `field_key` inside the object
    /// bound to `slot_key`, if both shapes hold; otherwise changes nothing
    /// and reports failure. Every other slot, and every other field of the
    /// object, keeps its binding.
    pub fn push_obj_arr_field(&mut self, slot_key: &String, field_key: &String, item: Value) -> (ok:
        bool)
        ensures
            ok == obj_arr_shape(old(self).slot(slot_key@), field_key@),
            !ok ==> final(self).slots@ == old(self).slots@,
            ok ==> ({
                &&& final(self).slot(slot_key@) matches Some(nv)
                &&& nv is Obj
                &&& lookup(nv->Obj_0@, field_key@) matches Some(nf)
                &&& nf is Arr
                &&& nf->Arr_0@ == (lookup(
                    (old(self).slot(slot_key@)->Some_0)->Obj_0@,
                    field_key@,
                )->Some_0)->Arr_0@.push(item)
                &&& forall|k: Seq<char>|
                    k != field_key@ ==> lookup(nv->Obj_0@, k) == lookup(
                        (old(self).slot(slot_key@)->Some_0)->Obj_0@,
                        k,
                    )
            }),
            forall|k: Seq<char>| k != slot_key@ ==> final(self).slot(k) == old(self).slot(k),
    {
        let mut i: usize = 0;
        while i < self.slots.len()
            invariant
                i <= self.slots@.len(),
                self.slots@ == old(self).slots@,
                forall|j: int| 0 <= j < i ==> self.slots@[j].0@ != slot_key@,
            decreases self.slots@.len() - i,
        {
            if self.slots[i].0 == *slot_key {
                proof {
                    lemma_lookup_first_match(self.slots@, slot_key@, i as int);
                }
                let shape_ok = match &self.slots[i].1 {
                    Value::Obj(fs) => match get_field(fs, field_key) {
                        Some(f) => match f {
                            Value::Arr(_) => true,
                            _ => false,
                        },
                        None => false,
                    },
                    _ => false,
                };
                if !shape_ok {
                    return false;
                }
                let pair = self.slots.remove(i);
                match pair.1 {
                    Value::Obj(mut fs) => {
                        let inner_ok = push_arr_field(&mut fs, field_key, item);
                        assert(inner_ok);
                        let nv = Value::Obj(fs);
                        self.slots.insert(i, (pair.0, nv));
                        proof {
                            assert(self.slots@ =~= old(self).slots@.update(
                                i as int,
                                (pair.0, nv),
                            ));
                            lemma_store_first_match(old(self).slots@, pair.0, nv, i as int);
                            assert(self.slots@ == store(old(self).slots@, pair.0, nv));
                            lemma_lookup_store_same(old(self).slots@, pair.0, nv);
                            assert forall|k: Seq<char>| k != slot_key@ implies lookup(
                                self.slots@,
                                k,
                            ) == lookup(old(self).slots@, k) by {
                                lemma_lookup_store_other(old(self).slots@, pair.0, nv, k);
                            }
                        }
                        return true;
                    },
                    other => {
                        // ruled out by the shape test above
                        proof {
                            assert(false);
                        }
                        self.slots.insert(i, (pair.0, other));
                        return false;
                    },
                }
            }
            i = i + 1;
        }
        proof {
            lemma_lookup_none(self.slots@, slot_key@);
        }
        false
    }
}

} // verus!
