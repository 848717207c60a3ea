//! Plain values that records are made of.

use vstd::prelude::*;

verus! {

/// A point in time: milliseconds since the start of 1970, UTC.
pub type Timestamp = i64;

/// A decimal quantity (an amount of money, a rate, a number of hours),
/// held as the sixty-four bits of its binary representation. The library
/// stores and returns such quantities; it never computes with them.
#[derive(Clone, Copy, Debug, PartialEq, Eq, Structural)]
pub struct Number {
    pub bits: u64,
}

impl Number {
    /// The quantity zero.
    pub fn zero() -> (n: Number)
        ensures
            n == (Number { bits: 0 }),
    {
        Number { bits: 0 }
    }
}

/// A copy of an optional text.
pub fn copy_text(text: &Option<String>) -> (copy: Option<String>)
    ensures
        copy == *text,
{
    match text {
        Some(t) => Some(t.clone()),
        None => None,
    }
}

/// A copy of a list of texts.
pub fn copy_texts(texts: &Vec<String>) -> (copy: Vec<String>)
    ensures
        copy@ == texts@,
{
    let mut out: Vec<String> = Vec::new();
    let mut i: usize = 0;
    while i < texts.len()
        invariant
            i <= texts.len(),
            out@ == texts@.take(i as int),
        decreases texts.len() - i,
    {
        out.push(texts[i].clone());
        assert(out@ =~= texts@.take(i + 1));
        i += 1;
    }
    assert(texts@.take(i as int) =~= texts@);
    out
}

/// The new value of a field under a partial update: what was sent, or
/// else what the field held.
pub open spec fn set_or_keep<A>(sent: Option<A>, held: A) -> A {
    match sent {
        Some(a) => a,
        None => held,
    }
}

/// The new value of an optional field under a partial update. A field
/// that was not sent is kept; no update can clear a field.
pub open spec fn fill_or_keep<A>(sent: Option<A>, held: Option<A>) -> Option<A> {
    match sent {
        Some(a) => Some(a),
        None => held,
    }
}

/// The change that a field of a request asks for: one change where the
/// field was sent, none where it was not.
pub open spec fn sent<A, C>(field: Option<A>, change: spec_fn(A) -> C) -> Seq<C> {
    match field {
        Some(a) => seq![change(a)],
        None => Seq::empty(),
    }
}

} // verus!
