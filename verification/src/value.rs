//! The typed column values a row is made of: opaque blobs and textual keys.
use vstd::prelude::*;

verus! {

/// The mathematical content of a column value.
pub enum ValueModel {
    Blob(Seq<u8>),
    Text(Seq<char>),
}

/// A column value: an opaque byte blob, or a textual value such as a
/// hex-encoded partition key.
#[derive(Clone, Debug, PartialEq, Eq)]
pub enum Value {
    Blob(Vec<u8>),
    Text(String),
}

impl View for Value {
    type V = ValueModel;

    open spec fn view(&self) -> ValueModel {
        match self {
            Value::Blob(b) => ValueModel::Blob(b@),
            Value::Text(s) => ValueModel::Text(s@),
        }
    }
}

impl Value {
    /// Clones the value.
    pub fn duplicate(&self) -> (r: Value)
        ensures
            r@ == self@,
    {
        match self {
            Value::Blob(b) => {
                let mut copy: Vec<u8> = Vec::new();
                let mut i: usize = 0;
                while i < b.len()
                    invariant
                        0 <= i <= b@.len(),
                        copy@ =~= b@.take(i as int),
                    decreases b@.len() - i,
                {
                    copy.push(b[i]);
                    i += 1;
                }
                assert(copy@ =~= b@);
                Value::Blob(copy)
            },
            Value::Text(s) => Value::Text(s.clone()),
        }
    }
}

/// The mathematical content of a row: its values' models, in order.
pub open spec fn row_model(r: Seq<Value>) -> Seq<ValueModel> {
    r.map_values(|v: Value| v@)
}

/// Whether two byte strings hold the same bytes.
pub fn bytes_eq(a: &Vec<u8>, b: &Vec<u8>) -> (r: bool)
    ensures
        r == (a@ == b@),
{
    if a.len() != b.len() {
        assert(a@ != b@) by {
            assert(a@.len() != b@.len());
        }
        return false;
    }
    let mut i: usize = 0;
    while i < a.len()
        invariant
            a@.len() == b@.len(),
            0 <= i <= a@.len(),
            forall|j: int| 0 <= j < i ==> a@[j] == b@[j],
        decreases a@.len() - i,
    {
        if a[i] != b[i] {
            return false;
        }
        i += 1;
    }
    assert(a@ =~= b@);
    true
}

/// Whether two column values are equal, position for position.
pub fn value_eq(a: &Value, b: &Value) -> (r: bool)
    ensures
        r == (a@ == b@),
{
    match (a, b) {
        (Value::Blob(x), Value::Blob(y)) => bytes_eq(x, y),
        (Value::Text(x), Value::Text(y)) => {
            let r = *x == *y;
            assert(r == (a@ == b@));
            r
        },
        (Value::Blob(_), Value::Text(_)) => false,
        (Value::Text(_), Value::Blob(_)) => false,
    }
}

} // verus!
