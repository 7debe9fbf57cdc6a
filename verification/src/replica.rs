//! Values that can be copied and compared by what they hold.
//!
//! `Clone` and `==` on a type with a `Vec` field say nothing about the elements
//! of the copy. The configuration model needs to know that a copy carries the
//! same settings, so its types implement [`Replica`] instead: `same` is equality
//! of contents, field by field, down to the characters of each string.

use vstd::prelude::*;

verus! {

/// A value with an equality of contents.
pub trait Replica: Sized {
    /// Whether `self` and `other` hold the same contents.
    spec fn same(self, other: Self) -> bool;

    /// A copy with the same contents.
    fn replicate(&self) -> (r: Self)
        ensures
            self.same(r),
    ;

    /// Decides [`Replica::same`].
    fn agrees(&self, other: &Self) -> (b: bool)
        ensures
            b == self.same(*other),
    ;

    /// A value holds the same contents as itself.
    proof fn same_as_itself(self)
        ensures
            self.same(self),
    ;

    /// Two values that hold the same contents as a third hold the same contents.
    proof fn same_through(self, middle: Self, other: Self)
        requires
            self.same(middle),
            middle.same(other),
        ensures
            self.same(other),
    ;
}

impl Replica for String {
    open spec fn same(self, other: Self) -> bool {
        self@ == other@
    }

    fn replicate(&self) -> (r: Self)
        ensures
            r == *self,
    {
        self.clone()
    }

    fn agrees(&self, other: &Self) -> (b: bool) {
        *self == *other
    }

    proof fn same_as_itself(self) {
    }

    proof fn same_through(self, middle: Self, other: Self) {
    }
}

impl Replica for bool {
    open spec fn same(self, other: Self) -> bool {
        self == other
    }

    fn replicate(&self) -> (r: Self) {
        *self
    }

    fn agrees(&self, other: &Self) -> (b: bool) {
        *self == *other
    }

    proof fn same_as_itself(self) {
    }

    proof fn same_through(self, middle: Self, other: Self) {
    }
}

impl Replica for u32 {
    open spec fn same(self, other: Self) -> bool {
        self == other
    }

    fn replicate(&self) -> (r: Self) {
        *self
    }

    fn agrees(&self, other: &Self) -> (b: bool) {
        *self == *other
    }

    proof fn same_as_itself(self) {
    }

    proof fn same_through(self, middle: Self, other: Self) {
    }
}

impl Replica for u64 {
    open spec fn same(self, other: Self) -> bool {
        self == other
    }

    fn replicate(&self) -> (r: Self) {
        *self
    }

    fn agrees(&self, other: &Self) -> (b: bool) {
        *self == *other
    }

    proof fn same_as_itself(self) {
    }

    proof fn same_through(self, middle: Self, other: Self) {
    }
}

impl Replica for usize {
    open spec fn same(self, other: Self) -> bool {
        self == other
    }

    fn replicate(&self) -> (r: Self) {
        *self
    }

    fn agrees(&self, other: &Self) -> (b: bool) {
        *self == *other
    }

    proof fn same_as_itself(self) {
    }

    proof fn same_through(self, middle: Self, other: Self) {
    }
}

impl<T: Replica> Replica for Option<T> {
    open spec fn same(self, other: Self) -> bool {
        match (self, other) {
            (Some(a), Some(b)) => a.same(b),
            (None, None) => true,
            _ => false,
        }
    }

    fn replicate(&self) -> (r: Self) {
        match self {
            Some(a) => Some(a.replicate()),
            None => None,
        }
    }

    fn agrees(&self, other: &Self) -> (b: bool) {
        match (self, other) {
            (Some(a), Some(b)) => a.agrees(b),
            (None, None) => true,
            _ => false,
        }
    }

    proof fn same_as_itself(self) {
        if let Some(a) = self {
            a.same_as_itself();
        }
    }

    proof fn same_through(self, middle: Self, other: Self) {
        if let (Some(a), Some(b), Some(c)) = (self, middle, other) {
            a.same_through(b, c);
        }
    }
}

impl<T: Replica> Replica for Vec<T> {
    open spec fn same(self, other: Self) -> bool {
        &&& self@.len() == other@.len()
        &&& forall|i: int| 0 <= i < self@.len() ==> (#[trigger] self@[i]).same(other@[i])
    }

    fn replicate(&self) -> (r: Self) {
        let mut out: Vec<T> = Vec::new();
        let mut i: usize = 0;
        while i < self.len()
            invariant
                i <= self.len(),
                out@.len() == i,
                forall|j: int| 0 <= j < i ==> (#[trigger] self@[j]).same(out@[j]),
            decreases self.len() - i,
        {
            out.push(self[i].replicate());
            i = i + 1;
        }
        out
    }

    fn agrees(&self, other: &Self) -> (b: bool) {
        if self.len() != other.len() {
            return false;
        }
        let mut i: usize = 0;
        while i < self.len()
            invariant
                i <= self.len(),
                self@.len() == other@.len(),
                forall|j: int| 0 <= j < i ==> (#[trigger] self@[j]).same(other@[j]),
            decreases self.len() - i,
        {
            if !self[i].agrees(&other[i]) {
                return false;
            }
            i = i + 1;
        }
        true
    }

    proof fn same_as_itself(self) {
        assert forall|i: int| 0 <= i < self@.len() implies (#[trigger] self@[i]).same(self@[i]) by {
            self@[i].same_as_itself();
        }
    }

    proof fn same_through(self, middle: Self, other: Self) {
        assert forall|i: int| 0 <= i < self@.len() implies (#[trigger] self@[i]).same(other@[i]) by {
            assert(self@[i].same(middle@[i]));
            assert(middle@[i].same(other@[i]));
            self@[i].same_through(middle@[i], other@[i]);
        }
    }
}

/// The characters of an optional string.
pub open spec fn opt_text(o: Option<String>) -> Option<Seq<char>> {
    match o {
        Some(s) => Some(s@),
        None => None,
    }
}

/// The first of two optional values that is present.
pub open spec fn first_of<T>(first: Option<T>, second: Option<T>) -> Option<T> {
    match first {
        Some(v) => Some(v),
        None => second,
    }
}

/// Of three optional values the first that is present, in either grouping.
pub proof fn lemma_first_of_associates<T>(a: Option<T>, b: Option<T>, c: Option<T>)
    ensures
        first_of(a, first_of(b, c)) == first_of(first_of(a, b), c),
{
}

/// `first` when it is present, else `second`.
pub fn or_else<T>(first: Option<T>, second: Option<T>) -> (r: Option<T>)
    ensures
        r == first_of(first, second),
{
    match first {
        Some(v) => Some(v),
        None => second,
    }
}

} // verus!
