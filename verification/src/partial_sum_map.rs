//! Partial sum maps.
//!
//! A partial sum map stores runs of a repeated value compactly. The locals of
//! a WebAssembly function are a typical example: `10` locals of one type
//! followed by `5` of another are stored as two entries, each keyed by the
//! index of the last element of its run. Looking up an index is a binary
//! search over those keys.

use vstd::prelude::*;

verus! {

/// Errors that occur when using a [`PartialSumMap`].
#[derive(Debug, PartialEq, Eq, Structural, Clone, Copy)]
pub enum Error {
    /// The partial sum has overflowed.
    Overflow,
}

impl Error {
    /// The message that describes this error.
    pub fn message(&self) -> (s: &'static str)
        ensures
            s@ == "partial sum overflow"@,
    {
        "partial sum overflow"
    }
}

/// An integer type that can key a [`PartialSumMap`].
pub trait PartialSumKey: Copy {
    /// The number this key stands for.
    spec fn index(self) -> nat;

    /// The largest number a key can stand for.
    spec fn limit() -> nat;

    /// No key exceeds the limit.
    proof fn index_within_limit(self)
        ensures
            self.index() <= Self::limit(),
    ;

    /// Whether this key is zero.
    fn is_zero(self) -> (zero: bool)
        ensures
            zero == (self.index() == 0),
    ;

    /// The key `count` past this one, or an overflow.
    fn step(self, count: Self) -> (next: Result<Self, Error>)
        ensures
            next is Ok <==> self.index() + count.index() <= Self::limit(),
            next matches Ok(k) ==> k.index() == self.index() + count.index(),
    ;

    /// The index of the last of `self` elements counted from zero.
    fn first_index(self) -> (last: Self)
        requires
            self.index() > 0,
        ensures
            last.index() == self.index() - 1,
    ;

    /// Whether this key comes strictly before `other`.
    fn precedes(self, other: Self) -> (before: bool)
        ensures
            before == (self.index() < other.index()),
    ;
}

impl PartialSumKey for u32 {
    open spec fn index(self) -> nat {
        self as nat
    }

    open spec fn limit() -> nat {
        u32::MAX as nat
    }

    proof fn index_within_limit(self) {
    }

    fn is_zero(self) -> (zero: bool) {
        self == 0
    }

    fn step(self, count: Self) -> (next: Result<Self, Error>) {
        match self.checked_add(count) {
            Some(k) => Ok(k),
            None => Err(Error::Overflow),
        }
    }

    fn first_index(self) -> (last: Self) {
        self - 1
    }

    fn precedes(self, other: Self) -> (before: bool) {
        self < other
    }
}

/// How many of `keys` are strictly below `i`.
pub open spec fn keys_below<K: PartialSumKey>(keys: Seq<K>, i: nat) -> nat
    decreases keys.len(),
{
    if keys.len() == 0 {
        0
    } else {
        keys_below(keys.drop_last(), i) + if keys.last().index() < i {
            1nat
        } else {
            0nat
        }
    }
}

/// Each key is strictly greater than the one before it.
pub open spec fn strictly_increasing<K: PartialSumKey>(keys: Seq<K>) -> bool {
    forall|a: int, b: int| 0 <= a < b < keys.len() ==> keys[a].index() < keys[b].index()
}

proof fn lemma_keys_below_bounds<K: PartialSumKey>(keys: Seq<K>, i: nat)
    ensures
        keys_below(keys, i) <= keys.len(),
    decreases keys.len(),
{
    if keys.len() > 0 {
        lemma_keys_below_bounds(keys.drop_last(), i);
    }
}

/// In a strictly increasing sequence, the keys below `i` are exactly those
/// before the first key that reaches `i`.
proof fn lemma_keys_below_position<K: PartialSumKey>(keys: Seq<K>, i: nat, j: int)
    requires
        strictly_increasing(keys),
        0 <= j <= keys.len(),
        j > 0 ==> keys[j - 1].index() < i,
        j < keys.len() ==> i <= keys[j].index(),
    ensures
        keys_below(keys, i) == j,
    decreases keys.len(),
{
    if keys.len() > 0 {
        let front = keys.drop_last();
        if j == keys.len() {
            lemma_keys_below_position(front, i, j - 1);
        } else {
            lemma_keys_below_position(front, i, j);
        }
    }
}

/// A map from indices to values that stores runs of a repeated value once.
///
/// This map can only be appended to.
#[derive(Debug)]
pub struct PartialSumMap<K, V> {
    keys: Vec<K>,
    values: Vec<V>,
}

impl<K: PartialSumKey, V> PartialSumMap<K, V> {
    /// One value per run, and the runs end at strictly increasing indices.
    pub closed spec fn wf(&self) -> bool {
        &&& self.keys@.len() == self.values@.len()
        &&& strictly_increasing(self.keys@)
    }

    /// How many indices the map covers.
    pub closed spec fn spec_len(&self) -> nat {
        if self.keys@.len() == 0 {
            0
        } else {
            self.keys@.last().index() + 1
        }
    }

    /// The map written out in full: the value found at each index.
    pub closed spec fn view(&self) -> Seq<V> {
        Seq::new(self.spec_len(), |i: int| self.values@[keys_below(self.keys@, i as nat) as int])
    }

    /// The view has one element for each index covered.
    pub proof fn lemma_view_len(&self)
        ensures
            self@.len() == self.spec_len(),
            self.wf() ==> self.spec_len() <= K::limit() + 1,
    {
        if self.keys@.len() > 0 {
            self.keys@.last().index_within_limit();
        }
    }

    /// Create a new `PartialSumMap`.
    ///
    /// Does not allocate.
    pub fn new() -> (map: Self)
        ensures
            map.wf(),
            map@ == Seq::<V>::empty(),
    {
        let map = Self { keys: Vec::new(), values: Vec::new() };
        map
    }

    /// Push `count` number of `value`s.
    ///
    /// `O(1)` amortized. Pushing no values changes nothing; pushing more than
    /// the key type can index fails and changes nothing.
    pub fn push(&mut self, count: K, value: V) -> (pushed: Result<(), Error>)
        requires
            old(self).wf(),
        ensures
            final(self).wf(),
            pushed is Ok <==> (count.index() == 0 || old(self)@.len() + count.index()
                <= K::limit() + 1),
            pushed is Ok ==> final(self)@ == old(self)@ + Seq::new(
                count.index(),
                |i: int| value,
            ),
            pushed is Err ==> pushed == Err::<(), Error>(Error::Overflow) && final(self)@ == old(
                self,
            )@,
    {
        proof {
            count.index_within_limit();
        }
        if count.is_zero() {
            return Ok(());
        }
        let key = match self.max_index() {
            None => count.first_index(),
            Some(k) => match k.step(count) {
                Ok(next) => next,
                Err(_) => {
                    return Err(Error::Overflow);
                },
            },
        };
        let ghost before = *self;
        self.keys.push(key);
        self.values.push(value);
        proof {
            let old_keys = before.keys@;
            let new_keys = self.keys@;
            assert(new_keys.drop_last() =~= old_keys);
            let grown = before@ + Seq::new(count.index(), |i: int| value);
            assert forall|i: int| 0 <= i < grown.len() implies self@[i] == grown[i] by {
                if i < before@.len() {
                    lemma_keys_below_bounds(old_keys.drop_last(), i as nat);
                } else {
                    lemma_keys_below_position(old_keys, i as nat, old_keys.len() as int);
                }
            }
        }
        Ok(())
    }

    /// Get the current maximum index that can be used with `find` for this map.
    ///
    /// Will return `None` if there are no elements in this map yet.
    ///
    /// `O(1)`
    pub fn max_index(&self) -> (max: Option<K>)
        requires
            self.wf(),
        ensures
            max is None <==> self@.len() == 0,
            max matches Some(k) ==> k.index() + 1 == self@.len(),
    {
        let n = self.keys.len();
        if n == 0 {
            None
        } else {
            Some(self.keys[n - 1])
        }
    }

    /// Find the value by the index.
    ///
    /// This is a `O(log n)` operation.
    pub fn find(&self, index: K) -> (found: Option<&V>)
        requires
            self.wf(),
        ensures
            found is Some <==> index.index() < self@.len(),
            found matches Some(v) ==> *v == self@[index.index() as int],
    {
        let n = self.keys.len();
        let mut lo: usize = 0;
        let mut hi: usize = n;
        while lo < hi
            invariant
                self.wf(),
                n == self.keys@.len(),
                0 <= lo <= hi <= n,
                lo > 0 ==> self.keys@[lo - 1].index() < index.index(),
                hi < n ==> index.index() <= self.keys@[hi as int].index(),
            decreases hi - lo,
        {
            let mid = lo + (hi - lo) / 2;
            if self.keys[mid].precedes(index) {
                lo = mid + 1;
            } else {
                hi = mid;
            }
        }
        proof {
            lemma_keys_below_position(self.keys@, index.index(), lo as int);
        }
        if lo < n {
            Some(&self.values[lo])
        } else {
            None
        }
    }
}

} // verus!
