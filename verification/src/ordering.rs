//! Positions of entries inside a music list. A position is a fractional
//! index: a byte string ending in the terminator byte 128, compared
//! lexicographically, between any two of which another one can be made.
use vstd::prelude::*;
use fractional_index::FractionalIndex;

verus! {

/// The terminator byte that every position ends with.
pub const TERMINATOR: u8 = 128;

/// A byte string is a well-formed position when it ends with the terminator.
pub open spec fn terminated(b: Seq<u8>) -> bool {
    b.len() > 0 && b.last() == TERMINATOR
}

/// Lexicographic order on byte strings, the order in which positions sort
/// (both in the database and as `Vec<u8>` in Rust): `a` sorts before `b`
/// when it is a proper prefix of `b`, or when the first differing byte of
/// `a` is the smaller one.
pub open spec fn bytes_lt(a: Seq<u8>, b: Seq<u8>) -> bool {
    exists|k: int|
        #![trigger a.take(k), b.take(k)]
        0 <= k <= a.len() && k <= b.len() && a.take(k) =~= b.take(k) && (
        (k == a.len() && k < b.len()) || (k < a.len() && k < b.len() && a[k] < b[k]))
}

/// Positions sort strictly: no position sorts before itself, and sorting
/// before is transitive, so entries appended one after another, or each
/// placed between its neighbours, stay in one increasing order.
pub proof fn lemma_bytes_lt_strict_order(a: Seq<u8>, b: Seq<u8>, c: Seq<u8>)
    ensures
        !bytes_lt(a, a),
        bytes_lt(a, b) && bytes_lt(b, c) ==> bytes_lt(a, c),
        bytes_lt(a, b) ==> !bytes_lt(b, a),
{
    if bytes_lt(a, b) && bytes_lt(b, c) {
        let k1 = choose|k: int|
            #![trigger a.take(k), b.take(k)]
            0 <= k <= a.len() && k <= b.len() && a.take(k) =~= b.take(k) && ((k == a.len() && k < b.len()) || (k
                < a.len() && k < b.len() && a[k] < b[k]));
        let k2 = choose|k: int|
            #![trigger b.take(k), c.take(k)]
            0 <= k <= b.len() && k <= c.len() && b.take(k) =~= c.take(k) && ((k == b.len() && k < c.len()) || (k
                < b.len() && k < c.len() && b[k] < c[k]));
        if k1 < k2 {
            assert(a.take(k1) =~= c.take(k1)) by {
                assert forall|i: int| 0 <= i < k1 implies a.take(k1)[i] == c.take(k1)[i] by {
                    assert(a.take(k1)[i] == b.take(k1)[i]);
                    assert(b.take(k2)[i] == c.take(k2)[i]);
                }
            }
            if k1 < a.len() {
                assert(b.take(k2)[k1] == c.take(k2)[k1]);
            }
            assert(a.take(k1) =~= c.take(k1) && ((k1 == a.len() && k1 < c.len()) || (k1 < a.len() && k1 < c.len()
                && a[k1] < c[k1])));
        } else if k1 == k2 {
            assert(a.take(k1) =~= c.take(k1)) by {
                assert forall|i: int| 0 <= i < k1 implies a.take(k1)[i] == c.take(k1)[i] by {
                    assert(a.take(k1)[i] == b.take(k1)[i]);
                    assert(b.take(k2)[i] == c.take(k2)[i]);
                }
            }
            assert(a.take(k1) =~= c.take(k1) && ((k1 == a.len() && k1 < c.len()) || (k1 < a.len() && k1 < c.len()
                && a[k1] < c[k1])));
        } else {
            assert(a.take(k2) =~= c.take(k2)) by {
                assert forall|i: int| 0 <= i < k2 implies a.take(k2)[i] == c.take(k2)[i] by {
                    assert(a.take(k1)[i] == b.take(k1)[i]);
                    assert(b.take(k2)[i] == c.take(k2)[i]);
                }
            }
            assert(a.take(k1)[k2] == b.take(k1)[k2]);
            assert(a.take(k2) =~= c.take(k2) && k2 < a.len() && k2 < c.len() && a[k2] < c[k2]);
        }
    }
    if bytes_lt(a, b) && bytes_lt(b, a) {
        let k1 = choose|k: int|
            #![trigger a.take(k), b.take(k)]
            0 <= k <= a.len() && k <= b.len() && a.take(k) =~= b.take(k) && ((k == a.len() && k < b.len()) || (k
                < a.len() && k < b.len() && a[k] < b[k]));
        let k2 = choose|k: int|
            #![trigger b.take(k), a.take(k)]
            0 <= k <= b.len() && k <= a.len() && b.take(k) =~= a.take(k) && ((k == b.len() && k < a.len()) || (k
                < b.len() && k < a.len() && b[k] < a[k]));
        if k1 < k2 {
            assert(b.take(k2)[k1] == a.take(k2)[k1]);
        } else if k2 < k1 {
            assert(a.take(k1)[k2] == b.take(k1)[k2]);
        }
    }
}

/// The inputs on which `FractionalIndex::new_between` stops with an
/// arithmetic overflow: while scanning the common prefix it subtracts one
/// from each byte of the right bound, and panics on the first such byte that
/// is zero.
pub open spec fn between_overflows(l: Seq<u8>, r: Seq<u8>) -> bool {
    exists|i: int|
        #![trigger r[i]]
        0 <= i && i + 1 < l.len() && i + 1 < r.len() && r[i] == 0 && l.take(i) =~= r.take(i)
}

/// The message `FractionalIndex::from_bytes` reports for a byte string that
/// does not end with the terminator.
pub open spec fn missing_terminator_message() -> Seq<char> {
    "Attempted to decode a corrupt fractional index (missing terminator)."@
}

/// What a `FractionalIndex` holds: its bytes, terminator included.
pub uninterp spec fn fractional_bytes(index: FractionalIndex) -> Seq<u8>;

/// The bytes of `FractionalIndex::new_after` applied to an index with these bytes.
pub uninterp spec fn index_after_bytes(b: Seq<u8>) -> Seq<u8>;

/// The bytes of `FractionalIndex::new_before` applied to an index with these bytes.
pub uninterp spec fn index_before_bytes(b: Seq<u8>) -> Seq<u8>;

/// The bytes of `FractionalIndex::new_between` applied to indexes with these
/// bytes, `None` where it returns `None`.
pub uninterp spec fn index_between_bytes(l: Seq<u8>, r: Seq<u8>) -> Option<Seq<u8>>;

#[verifier::external_type_specification]
#[verifier::external_body]
pub struct ExFractionalIndex(FractionalIndex);

/// `FractionalIndex::default`: the index holding the terminator alone.
#[verifier::external_body]
fn default_index() -> (r: FractionalIndex)
    ensures
        fractional_bytes(r) == seq![TERMINATOR],
{
    FractionalIndex::default()
}

/// `FractionalIndex::from_bytes`: accepts exactly the byte strings whose
/// last byte is the terminator and keeps them unchanged; otherwise it fails
/// with `DecodeError::MissingTerminator`, whose display text is returned.
#[verifier::external_body]
fn index_from_bytes(bytes: Vec<u8>) -> (r: Result<FractionalIndex, String>)
    ensures
        r is Ok <==> terminated(bytes@),
        r matches Ok(ix) ==> fractional_bytes(ix) == bytes@,
        r matches Err(msg) ==> msg@ == missing_terminator_message(),
{
    FractionalIndex::from_bytes(bytes).map_err(|e| e.to_string())
}

/// `FractionalIndex::as_bytes`, copied into a vector.
#[verifier::external_body]
fn index_as_bytes(index: &FractionalIndex) -> (r: Vec<u8>)
    ensures
        r@ == fractional_bytes(*index),
{
    index.as_bytes().to_vec()
}

/// `FractionalIndex::new_after`: a terminated index that sorts after the
/// given one. It cannot fail on a terminated index, since the terminator is
/// a byte below 255.
#[verifier::external_body]
fn index_after(index: &FractionalIndex) -> (r: FractionalIndex)
    requires
        terminated(fractional_bytes(*index)),
    ensures
        fractional_bytes(r) == index_after_bytes(fractional_bytes(*index)),
        terminated(fractional_bytes(r)),
        bytes_lt(fractional_bytes(*index), fractional_bytes(r)),
{
    FractionalIndex::new_after(index)
}

/// `FractionalIndex::new_before`: a terminated index that sorts before the
/// given one. It cannot fail on a terminated index, since the terminator is
/// a byte above 0.
#[verifier::external_body]
fn index_before(index: &FractionalIndex) -> (r: FractionalIndex)
    requires
        terminated(fractional_bytes(*index)),
    ensures
        fractional_bytes(r) == index_before_bytes(fractional_bytes(*index)),
        terminated(fractional_bytes(r)),
        bytes_lt(fractional_bytes(r), fractional_bytes(*index)),
{
    FractionalIndex::new_before(index)
}

/// `FractionalIndex::new_between`: `None` exactly when the bounds are not in
/// strictly increasing order; otherwise a terminated index strictly between
/// them.
#[verifier::external_body]
fn index_between(left: &FractionalIndex, right: &FractionalIndex) -> (r: Option<FractionalIndex>)
    requires
        terminated(fractional_bytes(*left)),
        terminated(fractional_bytes(*right)),
        !between_overflows(fractional_bytes(*left), fractional_bytes(*right)),
    ensures
        r is None <==> !bytes_lt(fractional_bytes(*left), fractional_bytes(*right)),
        index_between_bytes(fractional_bytes(*left), fractional_bytes(*right)) == (match r {
            Some(c) => Some(fractional_bytes(c)),
            None => None::<Seq<u8>>,
        }),
        r matches Some(c) ==> {
            &&& terminated(fractional_bytes(c))
            &&& bytes_lt(fractional_bytes(*left), fractional_bytes(c))
            &&& bytes_lt(fractional_bytes(c), fractional_bytes(*right))
        },
{
    FractionalIndex::new_between(left, right)
}

/// Whether making a position between `left` and `right` would overflow
/// (see `between_overflows`).
pub fn between_would_overflow(left: &Vec<u8>, right: &Vec<u8>) -> (r: bool)
    ensures
        r == between_overflows(left@, right@),
{
    let n = if left.len() < right.len() { left.len() } else { right.len() };
    if n == 0 {
        return false;
    }
    let mut i: usize = 0;
    while i + 1 < n
        invariant
            n <= left.len(),
            n <= right.len(),
            n == left.len() || n == right.len(),
            0 <= i < n,
            left@.take(i as int) =~= right@.take(i as int),
            forall|j: int| 0 <= j < i ==> right@[j] != 0,
        decreases n - i,
    {
        if right[i] == 0 {
            assert(right@[i as int] == 0);
            return true;
        }
        if left[i] != right[i] {
            assert forall|j: int|
                0 <= j && j + 1 < left@.len() && j + 1 < right@.len() && right@[j] == 0
                    && left@.take(j) =~= right@.take(j) implies false by {
                if j > i {
                    assert(left@.take(j)[i as int] == right@.take(j)[i as int]);
                }
            }
            return false;
        }
        assert(left@.take(i + 1) =~= right@.take(i + 1));
        i = i + 1;
    }
    assert forall|j: int|
        0 <= j && j + 1 < left@.len() && j + 1 < right@.len() && right@[j] == 0
            && left@.take(j) =~= right@.take(j) implies false by {
        assert(j < i);
    }
    false
}

/// Why no position could be made between two neighbours.
#[derive(Debug)]
pub enum ReorderError {
    /// A neighbour's position does not end with the terminator; the message
    /// is the one the decoder reports.
    Decode(String),
    /// The neighbours are not in increasing order, so nothing fits between.
    NoRoomBetween,
}

/// The kinds of `ReorderError`, for stating outcomes.
pub enum ReorderFailure {
    Decode,
    NoRoomBetween,
}

pub open spec fn failure_of(e: ReorderError) -> ReorderFailure {
    match e {
        ReorderError::Decode(_) => ReorderFailure::Decode,
        ReorderError::NoRoomBetween => ReorderFailure::NoRoomBetween,
    }
}

/// The position of an entry appended after the list's current last entry.
/// An empty `last_order` means the list is empty, and the first entry gets
/// the initial position `[128]`. Otherwise `last_order` must be a
/// well-formed position, and the new one sorts after it.
pub fn order_after_last(last_order: Vec<u8>) -> (r: Result<Vec<u8>, String>)
    ensures
        last_order@.len() == 0 ==> (r matches Ok(o) && o@ == seq![TERMINATOR]),
        last_order@.len() > 0 && !terminated(last_order@) ==> (r matches Err(msg) && msg@
            == missing_terminator_message()),
        terminated(last_order@) ==> (r matches Ok(o) && o@ == index_after_bytes(last_order@)
            && terminated(o@) && bytes_lt(last_order@, o@)),
{
    if last_order.len() == 0 {
        let ix = default_index();
        Ok(index_as_bytes(&ix))
    } else {
        let last = match index_from_bytes(last_order) {
            Ok(ix) => ix,
            Err(msg) => return Err(msg),
        };
        let next = index_after(&last);
        Ok(index_as_bytes(&next))
    }
}

/// The outcome of placing an entry between the positions of its new
/// neighbours.
pub open spec fn reorder_outcome(prev: Option<Seq<u8>>, next: Option<Seq<u8>>) -> Result<Seq<u8>, ReorderFailure> {
    match (prev, next) {
        (None, None) => Ok(seq![TERMINATOR]),
        (None, Some(n)) => if terminated(n) { Ok(index_before_bytes(n)) } else { Err(ReorderFailure::Decode) },
        (Some(p), None) => if terminated(p) { Ok(index_after_bytes(p)) } else { Err(ReorderFailure::Decode) },
        (Some(p), Some(n)) => if !terminated(p) || !terminated(n) {
            Err(ReorderFailure::Decode)
        } else {
            match index_between_bytes(p, n) {
                Some(c) => Ok(c),
                None => Err(ReorderFailure::NoRoomBetween),
            }
        },
    }
}

pub open spec fn opt_bytes(v: Option<Vec<u8>>) -> Option<Seq<u8>> {
    match v {
        Some(v) => Some(v@),
        None => None,
    }
}

/// The neighbours of a move, when both exist, must not make
/// `FractionalIndex::new_between` overflow.
pub open spec fn reorder_defined(prev: Option<Seq<u8>>, next: Option<Seq<u8>>) -> bool {
    match (prev, next) {
        (Some(p), Some(n)) => terminated(p) && terminated(n) ==> !between_overflows(p, n),
        _ => true,
    }
}

/// The position of an entry moved between `prev` (the entry it now
/// follows; `None` at the top) and `next` (the entry it now precedes;
/// `None` at the bottom). The new position sorts after `prev` and before
/// `next`; with no neighbours at all it is the initial position.
pub fn order_between_neighbours(prev: Option<Vec<u8>>, next: Option<Vec<u8>>) -> (r: Result<Vec<u8>, ReorderError>)
    requires
        reorder_defined(opt_bytes(prev), opt_bytes(next)),
    ensures
        match r {
            Ok(o) => reorder_outcome(opt_bytes(prev), opt_bytes(next)) == Ok::<Seq<u8>, ReorderFailure>(o@),
            Err(e) => reorder_outcome(opt_bytes(prev), opt_bytes(next)) == Err::<Seq<u8>, ReorderFailure>(failure_of(e)),
        },
        r matches Err(ReorderError::Decode(msg)) ==> msg@ == missing_terminator_message(),
        r matches Ok(o) ==> {
            &&& terminated(o@)
            &&& (prev matches Some(p) ==> bytes_lt(p@, o@))
            &&& (next matches Some(n) ==> bytes_lt(o@, n@))
        },
        r == Err::<Vec<u8>, ReorderError>(ReorderError::NoRoomBetween) <==> (prev matches Some(p) && next matches Some(n)
            && terminated(p@) && terminated(n@) && !bytes_lt(p@, n@)),
{
    match (prev, next) {
        (None, None) => {
            let ix = default_index();
            Ok(index_as_bytes(&ix))
        },
        (None, Some(n)) => {
            let next_ix = match index_from_bytes(n) {
                Ok(ix) => ix,
                Err(msg) => return Err(ReorderError::Decode(msg)),
            };
            Ok(index_as_bytes(&index_before(&next_ix)))
        },
        (Some(p), None) => {
            let prev_ix = match index_from_bytes(p) {
                Ok(ix) => ix,
                Err(msg) => return Err(ReorderError::Decode(msg)),
            };
            Ok(index_as_bytes(&index_after(&prev_ix)))
        },
        (Some(p), Some(n)) => {
            let prev_ix = match index_from_bytes(p) {
                Ok(ix) => ix,
                Err(msg) => return Err(ReorderError::Decode(msg)),
            };
            let next_ix = match index_from_bytes(n) {
                Ok(ix) => ix,
                Err(msg) => return Err(ReorderError::Decode(msg)),
            };
            match index_between(&prev_ix, &next_ix) {
                Some(c) => Ok(index_as_bytes(&c)),
                None => Err(ReorderError::NoRoomBetween),
            }
        },
    }
}

} // verus!
