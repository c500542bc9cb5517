use vstd::prelude::*;

verus! {

/// The mathematical form of a generic value: what crosses the boundary to
/// the remote object.
#[verifier::ext_equal]
pub enum Json {
    Null,
    Str(Seq<char>),
    Num(int),
    Array(Seq<Json>),
    /// Keys and values of the entries, in the order in which they were
    /// inserted.
    Object(Seq<Seq<char>>, Seq<Json>),
}

/// A loosely typed value: null, a string, an integral number, an ordered
/// array, or an object of string-keyed entries.
#[derive(Debug, PartialEq)]
pub enum Value {
    Null,
    Str(String),
    Num(i64),
    Array(Vec<Value>),
    Object(Vec<Entry>),
}

/// One key of an object and the value under it.
#[derive(Debug, PartialEq)]
pub struct Entry {
    pub key: String,
    pub value: Value,
}

impl View for Value {
    type V = Json;

    open spec fn view(&self) -> Json
        decreases self,
    {
        match self {
            Value::Null => Json::Null,
            Value::Str(s) => Json::Str(s@),
            Value::Num(n) => Json::Num(*n as int),
            Value::Array(a) => Json::Array(
                Seq::new(
                    a@.len(),
                    |i: int|
                        if 0 <= i < a@.len() {
                            a@[i].view()
                        } else {
                            Json::Null
                        },
                ),
            ),
            Value::Object(o) => Json::Object(
                Seq::new(o@.len(), |i: int| o@[i].key@),
                Seq::new(
                    o@.len(),
                    |i: int|
                        if 0 <= i < o@.len() {
                            o@[i].value.view()
                        } else {
                            Json::Null
                        },
                ),
            ),
        }
    }
}

/// The value of the first entry under `key`, given the keys and the values
/// of an object.
pub open spec fn field_of(keys: Seq<Seq<char>>, vals: Seq<Json>, key: Seq<char>) -> Option<Json>
    decreases keys.len(),
{
    if keys.len() == 0 || vals.len() == 0 {
        None
    } else if keys[0] == key {
        Some(vals[0])
    } else {
        field_of(keys.drop_first(), vals.drop_first(), key)
    }
}

/// A value does not have the shape that the target type requires.
#[derive(Clone, Copy, Debug, PartialEq, Eq, Structural)]
pub struct ShapeMismatch;

impl Clone for Value {
    fn clone(&self) -> (r: Value)
        ensures
            r@ == self@,
        decreases self,
    {
        match self {
            Value::Null => Value::Null,
            Value::Str(s) => Value::Str(s.clone()),
            Value::Num(n) => Value::Num(*n),
            Value::Array(a) => {
                let mut out: Vec<Value> = Vec::new();
                let mut i: usize = 0;
                while i < a.len()
                    invariant
                        *self == Value::Array(*a),
                        i <= a@.len(),
                        out@.len() == i,
                        forall|j: int| 0 <= j < i ==> #[trigger] out@[j]@ == a@[j]@,
                    decreases a@.len() - i,
                {
                    proof {
                        assert(decreases_to!(*self => self->Array_0));
                        assert(decreases_to!(*a => a@));
                        assert(decreases_to!(a@ => a@[i as int]));
                    }
                    out.push(a[i].clone());
                    i = i + 1;
                }
                let r = Value::Array(out);
                assert forall|j: int| 0 <= j < a@.len() implies r@->Array_0[j] == self@->Array_0[j] by {
                    assert(out@[j]@ == a@[j]@);
                }
                assert(r@->Array_0 =~= self@->Array_0);
                r
            },
            Value::Object(o) => {
                let mut out: Vec<Entry> = Vec::new();
                let mut i: usize = 0;
                while i < o.len()
                    invariant
                        *self == Value::Object(*o),
                        i <= o@.len(),
                        out@.len() == i,
                        forall|j: int|
                            0 <= j < i ==> (#[trigger] out@[j]).key@ == o@[j].key@ && out@[j].value@ == o@[j].value@,
                    decreases o@.len() - i,
                {
                    proof {
                        assert(decreases_to!(*self => self->Object_0));
                        assert(decreases_to!(*o => o@));
                        assert(decreases_to!(o@ => o@[i as int]));
                        assert(decreases_to!(o@[i as int] => o@[i as int].value));
                    }
                    out.push(Entry { key: o[i].key.clone(), value: o[i].value.clone() });
                    i = i + 1;
                }
                let r = Value::Object(out);
                assert forall|j: int| 0 <= j < o@.len() implies r@->Object_1[j] == self@->Object_1[j] && r@->Object_0[j] == self@->Object_0[j] by {
                    assert(out@[j].key@ == o@[j].key@ && out@[j].value@ == o@[j].value@);
                }
                assert(r@->Object_0 =~= self@->Object_0);
                assert(r@->Object_1 =~= self@->Object_1);
                r
            },
        }
    }
}

/// The keys of entries, in order.
pub open spec fn entries_keys(entries: Seq<Entry>) -> Seq<Seq<char>> {
    Seq::new(entries.len(), |i: int| entries[i].key@)
}

/// The views of the values of entries, in order.
pub open spec fn entries_values(entries: Seq<Entry>) -> Seq<Json> {
    Seq::new(entries.len(), |i: int| entries[i].value@)
}

/// A copy of the value of the first entry of `entries` under `key`, if any.
pub fn get_field(entries: &Vec<Entry>, key: &str) -> (r: Option<Value>)
    ensures
        r is None ==> field_of(entries_keys(entries@), entries_values(entries@), key@) is None,
        r is Some ==> field_of(entries_keys(entries@), entries_values(entries@), key@) == Some(
            r->0@,
        ),
{
    let ghost ks = entries_keys(entries@);
    let ghost vs = entries_values(entries@);
    let k = String::from_str(key);
    assert(ks.skip(0) =~= ks);
    assert(vs.skip(0) =~= vs);
    let mut i: usize = 0;
    while i < entries.len()
        invariant
            i <= entries@.len(),
            ks == entries_keys(entries@),
            vs == entries_values(entries@),
            k@ == key@,
            field_of(ks, vs, key@) == field_of(ks.skip(i as int), vs.skip(i as int), key@),
        decreases entries@.len() - i,
    {
        if entries[i].key == k {
            assert(ks.skip(i as int)[0] == ks[i as int]);
            assert(vs.skip(i as int)[0] == vs[i as int]);
            let r = entries[i].value.clone();
            return Some(r);
        }
        assert(ks.skip(i as int).drop_first() =~= ks.skip(i + 1));
        assert(vs.skip(i as int).drop_first() =~= vs.skip(i + 1));
        i = i + 1;
    }
    None
}

/// The view of an object, stated through its entries.
pub proof fn lemma_object_view(entries: Vec<Entry>)
    ensures
        Value::Object(entries)@ == Json::Object(entries_keys(entries@), entries_values(entries@)),
{
    let v = Value::Object(entries);
    assert(v@->Object_0 =~= entries_keys(entries@));
    assert(v@->Object_1 =~= entries_values(entries@));
}

/// An object with one entry.
pub fn object1(k0: &str, v0: Value) -> (r: Value)
    ensures
        r@ == Json::Object(seq![k0@], seq![v0@]),
{
    let mut entries: Vec<Entry> = Vec::new();
    entries.push(Entry { key: String::from_str(k0), value: v0 });
    proof {
        lemma_object_view(entries);
    }
    let r = Value::Object(entries);
    assert(r@->Object_0 =~= seq![k0@]);
    assert(r@->Object_1 =~= seq![v0@]);
    r
}

/// An object with two entries, in the order given.
pub fn object2(k0: &str, v0: Value, k1: &str, v1: Value) -> (r: Value)
    ensures
        r@ == Json::Object(seq![k0@, k1@], seq![v0@, v1@]),
{
    let mut entries: Vec<Entry> = Vec::new();
    entries.push(Entry { key: String::from_str(k0), value: v0 });
    entries.push(Entry { key: String::from_str(k1), value: v1 });
    proof {
        lemma_object_view(entries);
    }
    let r = Value::Object(entries);
    assert(r@->Object_0 =~= seq![k0@, k1@]);
    assert(r@->Object_1 =~= seq![v0@, v1@]);
    r
}

/// An object with three entries, in the order given.
pub fn object3(k0: &str, v0: Value, k1: &str, v1: Value, k2: &str, v2: Value) -> (r: Value)
    ensures
        r@ == Json::Object(seq![k0@, k1@, k2@], seq![v0@, v1@, v2@]),
{
    let mut entries: Vec<Entry> = Vec::new();
    entries.push(Entry { key: String::from_str(k0), value: v0 });
    entries.push(Entry { key: String::from_str(k1), value: v1 });
    entries.push(Entry { key: String::from_str(k2), value: v2 });
    proof {
        lemma_object_view(entries);
    }
    let r = Value::Object(entries);
    assert(r@->Object_0 =~= seq![k0@, k1@, k2@]);
    assert(r@->Object_1 =~= seq![v0@, v1@, v2@]);
    r
}

} // verus!
