use vstd::prelude::*;

use crate::value::{Json, ShapeMismatch, Value};

verus! {

/// A type whose values convert to generic values.
pub trait ToValue {
    /// The mathematical form of a value of the type.
    type Model;

    spec fn model(&self) -> Self::Model;

    /// The generic value that a value of the given form becomes.
    spec fn encode(m: Self::Model) -> Json;

    fn to_value(&self) -> (r: Value)
        ensures
            r@ == Self::encode(self.model()),
    ;
}

/// A type whose values can be read back from generic values.
pub trait FromValue: ToValue + Sized {
    /// The form read from `j`, or `None` where `j` does not have the shape
    /// that the type requires.
    spec fn decode(j: Json) -> Option<Self::Model>;

    fn from_value(v: &Value) -> (r: Result<Self, ShapeMismatch>)
        ensures
            r is Ok <==> Self::decode(v@) is Some,
            r is Ok ==> Self::decode(v@) == Some(r->Ok_0.model()),
    ;

    /// Reading back what a value became gives that value again.
    proof fn lemma_round_trip(m: Self::Model)
        ensures
            Self::decode(Self::encode(m)) == Some(m),
    ;
}

impl ToValue for Value {
    type Model = Json;

    open spec fn model(&self) -> Json {
        self@
    }

    open spec fn encode(m: Json) -> Json {
        m
    }

    fn to_value(&self) -> (r: Value) {
        self.clone()
    }
}

impl FromValue for Value {
    open spec fn decode(j: Json) -> Option<Json> {
        Some(j)
    }

    fn from_value(v: &Value) -> (r: Result<Value, ShapeMismatch>) {
        Ok(v.clone())
    }

    proof fn lemma_round_trip(m: Json) {
    }
}

impl ToValue for u16 {
    type Model = int;

    open spec fn model(&self) -> int {
        *self as int
    }

    open spec fn encode(m: int) -> Json {
        Json::Num(m)
    }

    fn to_value(&self) -> (r: Value) {
        Value::Num(*self as i64)
    }
}

impl ToValue for String {
    type Model = Seq<char>;

    open spec fn model(&self) -> Seq<char> {
        self@
    }

    open spec fn encode(m: Seq<char>) -> Json {
        Json::Str(m)
    }

    fn to_value(&self) -> (r: Value) {
        Value::Str(self.clone())
    }
}

impl FromValue for String {
    open spec fn decode(j: Json) -> Option<Seq<char>> {
        match j {
            Json::Str(s) => Some(s),
            _ => None,
        }
    }

    fn from_value(v: &Value) -> (r: Result<String, ShapeMismatch>) {
        match v {
            Value::Str(s) => Ok(s.clone()),
            _ => Err(ShapeMismatch),
        }
    }

    proof fn lemma_round_trip(m: Seq<char>) {
    }
}

impl<T: ToValue> ToValue for Option<T> {
    type Model = Option<T::Model>;

    open spec fn model(&self) -> Option<T::Model> {
        match self {
            Some(x) => Some(x.model()),
            None => None,
        }
    }

    open spec fn encode(m: Option<T::Model>) -> Json {
        match m {
            Some(x) => T::encode(x),
            None => Json::Null,
        }
    }

    fn to_value(&self) -> (r: Value) {
        match self {
            Some(x) => x.to_value(),
            None => Value::Null,
        }
    }
}

impl<A: ToValue, B: ToValue> ToValue for (A, B) {
    type Model = (A::Model, B::Model);

    open spec fn model(&self) -> (A::Model, B::Model) {
        (self.0.model(), self.1.model())
    }

    open spec fn encode(m: (A::Model, B::Model)) -> Json {
        Json::Array(seq![A::encode(m.0), B::encode(m.1)])
    }

    fn to_value(&self) -> (r: Value) {
        let mut items: Vec<Value> = Vec::new();
        items.push(self.0.to_value());
        items.push(self.1.to_value());
        let r = Value::Array(items);
        assert(r@->Array_0 =~= seq![A::encode(self.0.model()), B::encode(self.1.model())]);
        r
    }
}

impl<A: FromValue, B: FromValue> FromValue for (A, B) {
    open spec fn decode(j: Json) -> Option<(A::Model, B::Model)> {
        match j {
            Json::Array(s) => if s.len() >= 2 {
                match (A::decode(s[0]), B::decode(s[1])) {
                    (Some(a), Some(b)) => Some((a, b)),
                    _ => None,
                }
            } else {
                None
            },
            _ => None,
        }
    }

    fn from_value(v: &Value) -> (r: Result<(A, B), ShapeMismatch>) {
        match v {
            Value::Array(items) => {
                if items.len() < 2 {
                    return Err(ShapeMismatch);
                }
                let a = A::from_value(&items[0])?;
                let b = B::from_value(&items[1])?;
                Ok((a, b))
            },
            _ => Err(ShapeMismatch),
        }
    }

    proof fn lemma_round_trip(m: (A::Model, B::Model)) {
        A::lemma_round_trip(m.0);
        B::lemma_round_trip(m.1);
    }
}

/// A pair is read from an array of at least two items, each position by
/// its own type; a shorter array, or any other value, does not have the
/// shape of a pair.
pub proof fn lemma_pair_shape<A: FromValue, B: FromValue>(a: Json, b: Json)
    ensures
        <(A, B)>::decode(Json::Array(seq![a, b])) == match (A::decode(a), B::decode(b)) {
            (Some(x), Some(y)) => Some((x, y)),
            _ => None,
        },
        <(A, B)>::decode(Json::Array(seq![a])) is None,
        <(A, B)>::decode(Json::Array(Seq::empty())) is None,
        <(A, B)>::decode(Json::Null) is None,
        <(A, B)>::decode(Json::Str(Seq::empty())) is None,
{
}

/// The forms of the items of `v`, in order.
pub open spec fn models_of<T: ToValue>(v: Seq<T>) -> Seq<T::Model> {
    Seq::new(v.len(), |i: int| v[i].model())
}

/// What each of the forms in `m` becomes, in order.
pub open spec fn encode_all<T: ToValue>(m: Seq<T::Model>) -> Seq<Json> {
    Seq::new(m.len(), |i: int| T::encode(m[i]))
}

/// The forms read from each item of `s`, in order, or `None` where one of
/// them does not have the required shape.
pub open spec fn decode_all<T: FromValue>(s: Seq<Json>) -> Option<Seq<T::Model>>
    decreases s.len(),
{
    if s.len() == 0 {
        Some(Seq::empty())
    } else {
        match (decode_all::<T>(s.drop_last()), T::decode(s.last())) {
            (Some(p), Some(x)) => Some(p.push(x)),
            _ => None,
        }
    }
}

/// Where a sequence can be read, so can each of its prefixes.
pub proof fn lemma_decode_all_prefix<T: FromValue>(s: Seq<Json>, k: int)
    requires
        0 <= k <= s.len(),
        decode_all::<T>(s) is Some,
    ensures
        decode_all::<T>(s.take(k)) is Some,
    decreases s.len(),
{
    if k == s.len() {
        assert(s.take(k) =~= s);
    } else {
        lemma_decode_all_prefix::<T>(s.drop_last(), k);
        assert(s.drop_last().take(k) =~= s.take(k));
    }
}

/// Reading back a sequence of encoded forms gives the forms, in order.
pub proof fn lemma_decode_all_encode_all<T: FromValue>(m: Seq<T::Model>)
    ensures
        decode_all::<T>(encode_all::<T>(m)) == Some(m),
    decreases m.len(),
{
    if m.len() > 0 {
        let e = encode_all::<T>(m);
        assert(e.drop_last() =~= encode_all::<T>(m.drop_last()));
        lemma_decode_all_encode_all::<T>(m.drop_last());
        T::lemma_round_trip(m.last());
        assert(m.drop_last().push(m.last()) =~= m);
    } else {
        assert(m =~= Seq::empty());
    }
}

impl<T: ToValue> ToValue for Vec<T> {
    type Model = Seq<T::Model>;

    open spec fn model(&self) -> Seq<T::Model> {
        models_of(self@)
    }

    open spec fn encode(m: Seq<T::Model>) -> Json {
        Json::Array(encode_all::<T>(m))
    }

    fn to_value(&self) -> (r: Value) {
        let mut items: Vec<Value> = Vec::new();
        let mut i: usize = 0;
        while i < self.len()
            invariant
                i <= self@.len(),
                items@.len() == i,
                forall|j: int| 0 <= j < i ==> #[trigger] items@[j]@ == T::encode(self@[j].model()),
            decreases self@.len() - i,
        {
            items.push(self[i].to_value());
            i = i + 1;
        }
        let r = Value::Array(items);
        assert forall|j: int| 0 <= j < self@.len() implies r@->Array_0[j] == encode_all::<T>(
            models_of(self@),
        )[j] by {
            assert(items@[j]@ == T::encode(self@[j].model()));
        }
        assert(r@->Array_0 =~= encode_all::<T>(models_of(self@)));
        r
    }
}

impl<T: FromValue> FromValue for Vec<T> {
    open spec fn decode(j: Json) -> Option<Seq<T::Model>> {
        match j {
            Json::Array(s) => decode_all::<T>(s),
            _ => None,
        }
    }

    fn from_value(v: &Value) -> (r: Result<Vec<T>, ShapeMismatch>) {
        match v {
            Value::Array(items) => {
                let ghost s = v@->Array_0;
                let mut out: Vec<T> = Vec::new();
                let mut i: usize = 0;
                assert(s.take(0) =~= Seq::<Json>::empty());
                assert(models_of(out@) =~= Seq::<T::Model>::empty());
                while i < items.len()
                    invariant
                        i <= items@.len(),
                        s == v@->Array_0,
                        *v == Value::Array(*items),
                        s.len() == items@.len(),
                        forall|j: int| 0 <= j < items@.len() ==> #[trigger] s[j] == items@[j]@,
                        decode_all::<T>(s.take(i as int)) == Some(models_of(out@)),
                    decreases items@.len() - i,
                {
                    let x = T::from_value(&items[i]);
                    assert(s.take(i + 1).drop_last() =~= s.take(i as int));
                    assert(s.take(i + 1).last() == s[i as int]);
                    match x {
                        Ok(x) => {
                            let ghost before = out@;
                            out.push(x);
                            assert(models_of(out@) =~= models_of(before).push(x.model()));
                        },
                        Err(e) => {
                            proof {
                                if decode_all::<T>(s) is Some {
                                    lemma_decode_all_prefix::<T>(s, i + 1);
                                }
                            }
                            return Err(e);
                        },
                    }
                    i = i + 1;
                }
                assert(s.take(i as int) =~= s);
                Ok(out)
            },
            _ => Err(ShapeMismatch),
        }
    }

    proof fn lemma_round_trip(m: Seq<T::Model>) {
        lemma_decode_all_encode_all::<T>(m);
    }
}

} // verus!
