//! A value that is either borrowed or owned.

use vstd::prelude::*;

verus! {

/// Either a shared borrow of a `T` or a `T` on the heap. Both read the same way.
#[derive(Debug)]
pub enum RefOrBox<'a, T: ?Sized> {
    Refed(&'a T),
    Boxed(Box<T>),
}

impl<'a, T: ?Sized> RefOrBox<'a, T> {
    pub fn from_ref(value: &'a T) -> (r: Self)
        ensures
            r == RefOrBox::Refed(value),
    {
        RefOrBox::Refed(value)
    }

    pub fn from_box(value: Box<T>) -> (r: Self)
        ensures
            r == RefOrBox::<'a, T>::Boxed(value),
    {
        RefOrBox::Boxed(value)
    }

    pub fn is_ref(&self) -> (b: bool)
        ensures
            b == (self is Refed),
    {
        match self {
            RefOrBox::Refed(_) => true,
            RefOrBox::Boxed(_) => false,
        }
    }

    pub fn is_box(&self) -> (b: bool)
        ensures
            b == (self is Boxed),
    {
        match self {
            RefOrBox::Refed(_) => false,
            RefOrBox::Boxed(_) => true,
        }
    }

    /// The value, wherever it lives.
    pub open spec fn target(&self) -> &T {
        match self {
            RefOrBox::Refed(x) => x,
            RefOrBox::Boxed(x) => &**x,
        }
    }

    /// Borrows the value, wherever it lives.
    pub fn get(&self) -> (r: &T)
        ensures
            r == self.target(),
    {
        match self {
            RefOrBox::Refed(x) => x,
            RefOrBox::Boxed(x) => x,
        }
    }
}

impl<'a, T: ?Sized> std::ops::Deref for RefOrBox<'a, T> {
    type Target = T;

    fn deref(&self) -> (r: &T)
        ensures
            r == self.target(),
    {
        self.get()
    }
}

impl<'a, T: ?Sized> From<&'a T> for RefOrBox<'a, T> {
    fn from(value: &'a T) -> (r: Self) {
        RefOrBox::Refed(value)
    }
}

impl<'a, T: ?Sized> vstd::std_specs::convert::FromSpecImpl<&'a T> for RefOrBox<'a, T> {
    open spec fn obeys_from_spec() -> bool {
        true
    }

    open spec fn from_spec(value: &'a T) -> Self {
        RefOrBox::Refed(value)
    }
}

impl<'a, T: ?Sized> From<Box<T>> for RefOrBox<'a, T> {
    fn from(value: Box<T>) -> (r: Self) {
        RefOrBox::Boxed(value)
    }
}

impl<'a, T: ?Sized> vstd::std_specs::convert::FromSpecImpl<Box<T>> for RefOrBox<'a, T> {
    open spec fn obeys_from_spec() -> bool {
        true
    }

    open spec fn from_spec(value: Box<T>) -> Self {
        RefOrBox::Boxed(value)
    }
}

/// `Vec::into_boxed_slice` of std: the box holds the vector's items, in order.
#[verifier::external_body]
fn boxed_slice(words: Vec<u32>) -> (b: Box<[u32]>)
    ensures
        b@ == words@,
{
    words.into_boxed_slice()
}

impl<'a> RefOrBox<'a, [u32]> {
    /// The words that the value holds.
    pub open spec fn words(&self) -> Seq<u32> {
        self.target()@
    }

    /// Owns the words of `words`.
    pub fn from_words(words: Vec<u32>) -> (r: Self)
        ensures
            r is Boxed,
            r.words() == words@,
    {
        RefOrBox::Boxed(boxed_slice(words))
    }
}

impl<'a> PartialEq for RefOrBox<'a, [u32]> {
    /// Two values are equal when they hold the same words, borrowed or owned.
    fn eq(&self, other: &Self) -> (r: bool) {
        let a = self.get();
        let b = other.get();
        if a.len() != b.len() {
            return false;
        }
        let mut i: usize = 0;
        while i < a.len()
            invariant
                a@ == self.words(),
                b@ == other.words(),
                a@.len() == b@.len(),
                i <= a@.len(),
                forall|j: int| 0 <= j < i ==> a@[j] == b@[j],
            decreases a@.len() - i,
        {
            if a[i] != b[i] {
                return false;
            }
            i = i + 1;
        }
        assert(a@ =~= b@);
        true
    }
}

impl<'a> vstd::std_specs::cmp::PartialEqSpecImpl for RefOrBox<'a, [u32]> {
    open spec fn obeys_eq_spec() -> bool {
        true
    }

    open spec fn eq_spec(&self, other: &Self) -> bool {
        self.words() == other.words()
    }
}

} // verus!
