//! The structured payload model: every command payload, filter object and
//! bridge reply is a `Value`, a tree of plain data. The transport converts
//! its wire format to and from this type at the boundary; all logic in this
//! crate reads and builds `Value`s directly.

use vstd::prelude::*;
use crate::strutil::str_eq;

verus! {

/// An untyped structured value: the payload vocabulary of every command.
pub enum Value {
    Null,
    Bool(bool),
    UInt(u64),
    Str(String),
    Arr(Vec<Value>),
    Obj(Vec<(String, Value)>),
}

/// The value bound to `key` in an object's field list: the first binding wins.
pub open spec fn obj_get(fields: Seq<(String, Value)>, key: Seq<char>) -> Option<Value>
    decreases fields.len(),
{
    if fields.len() == 0 {
        None
    } else if fields[0].0@ == key {
        Some(fields[0].1)
    } else {
        obj_get(fields.drop_first(), key)
    }
}

proof fn lemma_obj_get_step(fields: Seq<(String, Value)>, key: Seq<char>, i: int)
    requires
        0 <= i < fields.len(),
        fields[i].0@ != key,
    ensures
        obj_get(fields.skip(i), key) == obj_get(fields.skip(i + 1), key),
{
    assert(fields.skip(i).len() > 0);
    assert(fields.skip(i)[0] == fields[i]);
    assert(fields.skip(i).drop_first() =~= fields.skip(i + 1));
}

proof fn lemma_obj_get_found(fields: Seq<(String, Value)>, key: Seq<char>, i: int)
    requires
        0 <= i < fields.len(),
        fields[i].0@ == key,
    ensures
        obj_get(fields.skip(i), key) == Some(fields[i].1),
{
    assert(fields.skip(i).len() > 0);
    assert(fields.skip(i)[0] == fields[i]);
}

/// The binding a lookup returns is the first one whose key matches.
pub proof fn lemma_obj_get_at(fields: Seq<(String, Value)>, i: int, key: Seq<char>)
    requires
        0 <= i < fields.len(),
        fields[i].0@ == key,
        forall|j: int| 0 <= j < i ==> #[trigger] fields[j].0@ != key,
    ensures
        obj_get(fields, key) == Some(fields[i].1),
    decreases i,
{
    if i == 0 {
    } else {
        assert(fields.drop_first() =~= fields.skip(1));
        assert forall|j: int| 0 <= j < i - 1 implies #[trigger] fields.skip(1)[j].0@ != key by {
            assert(fields.skip(1)[j] == fields[j + 1]);
        }
        assert(fields.skip(1)[i - 1] == fields[i]);
        lemma_obj_get_at(fields.skip(1), i - 1, key);
    }
}

/// A lookup misses exactly when no binding's key matches.
pub proof fn lemma_obj_get_absent(fields: Seq<(String, Value)>, key: Seq<char>)
    requires
        forall|j: int| 0 <= j < fields.len() ==> #[trigger] fields[j].0@ != key,
    ensures
        obj_get(fields, key) is None,
    decreases fields.len(),
{
    if fields.len() > 0 {
        assert(fields.drop_first() =~= fields.skip(1));
        assert forall|j: int|
            0 <= j < fields.skip(1).len() implies #[trigger] fields.skip(1)[j].0@ != key by {
            assert(fields.skip(1)[j] == fields[j + 1]);
        }
        lemma_obj_get_absent(fields.skip(1), key);
    }
}

impl Value {
    /// The field bound to `key` if this is an object that has one.
    pub open spec fn spec_get(&self, key: Seq<char>) -> Option<Value> {
        match self {
            Value::Obj(fields) => obj_get(fields@, key),
            _ => None,
        }
    }

    /// Looks a field up by key; `None` unless this is an object with that key.
    pub fn get<'a>(&'a self, key: &str) -> (r: Option<&'a Value>)
        ensures
            match r {
                Some(v) => self.spec_get(key@) == Some(*v),
                None => self.spec_get(key@) is None,
            },
    {
        match self {
            Value::Obj(fields) => {
                let n = fields.len();
                let mut i: usize = 0;
                proof {
                    assert(fields@.skip(0) =~= fields@);
                }
                while i < n
                    invariant
                        self is Obj,
                        self->Obj_0 == *fields,
                        n == fields@.len(),
                        i <= n,
                        obj_get(fields@, key@) == obj_get(fields@.skip(i as int), key@),
                    decreases n - i,
                {
                    if str_eq(fields[i].0.as_str(), key) {
                        proof {
                            lemma_obj_get_found(fields@, key@, i as int);
                        }
                        return Some(&fields[i].1);
                    }
                    proof {
                        lemma_obj_get_step(fields@, key@, i as int);
                    }
                    i = i + 1;
                }
                proof {
                    assert(fields@.skip(n as int) =~= Seq::<(String, Value)>::empty());
                }
                None
            },
            _ => None,
        }
    }

    /// Extracts the field bound to `key`, consuming the value.
    pub fn take(self, key: &str) -> (r: Option<Value>)
        ensures
            match r {
                Some(v) => self.spec_get(key@) == Some(v),
                None => self.spec_get(key@) is None,
            },
    {
        match self {
            Value::Obj(mut fields) => {
                let n = fields.len();
                let mut i: usize = 0;
                proof {
                    assert(fields@.skip(0) =~= fields@);
                }
                while i < n
                    invariant
                        self is Obj,
                        self->Obj_0 == fields,
                        n == fields@.len(),
                        i <= n,
                        obj_get(fields@, key@) == obj_get(fields@.skip(i as int), key@),
                    decreases n - i,
                {
                    if str_eq(fields[i].0.as_str(), key) {
                        proof {
                            lemma_obj_get_found(fields@, key@, i as int);
                        }
                        let pair = fields.remove(i);
                        return Some(pair.1);
                    }
                    proof {
                        lemma_obj_get_step(fields@, key@, i as int);
                    }
                    i = i + 1;
                }
                proof {
                    assert(fields@.skip(n as int) =~= Seq::<(String, Value)>::empty());
                }
                None
            },
            _ => None,
        }
    }

    /// The carried integer, if this is an unsigned integer value.
    pub open spec fn spec_u64(&self) -> Option<u64> {
        match self {
            Value::UInt(n) => Some(*n),
            _ => None,
        }
    }

    pub fn as_u64(&self) -> (r: Option<u64>)
        ensures
            r == self.spec_u64(),
    {
        match self {
            Value::UInt(n) => Some(*n),
            _ => None,
        }
    }

    /// The carried truth value, if this is a boolean.
    pub open spec fn spec_bool(&self) -> Option<bool> {
        match self {
            Value::Bool(b) => Some(*b),
            _ => None,
        }
    }

    pub fn as_bool(&self) -> (r: Option<bool>)
        ensures
            r == self.spec_bool(),
    {
        match self {
            Value::Bool(b) => Some(*b),
            _ => None,
        }
    }

    /// The carried string, if this is a string value.
    pub open spec fn spec_str(&self) -> Option<String> {
        match self {
            Value::Str(s) => Some(*s),
            _ => None,
        }
    }

    pub fn as_str<'a>(&'a self) -> (r: Option<&'a String>)
        ensures
            match r {
                Some(s) => self.spec_str() == Some(*s),
                None => self.spec_str() is None,
            },
    {
        match self {
            Value::Str(s) => Some(s),
            _ => None,
        }
    }

    /// The carried items, if this is an array value.
    pub fn as_arr<'a>(&'a self) -> (r: Option<&'a Vec<Value>>)
        ensures
            match r {
                Some(items) => *self == Value::Arr(*items),
                None => !(self is Arr),
            },
    {
        match self {
            Value::Arr(items) => Some(items),
            _ => None,
        }
    }

    /// Whether this is the null value.
    pub fn is_null(&self) -> (r: bool)
        ensures
            r == (self is Null),
    {
        match self {
            Value::Null => true,
            _ => false,
        }
    }
}

} // verus!
