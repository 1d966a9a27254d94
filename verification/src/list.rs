//! An immutable singly linked list, used for the sequences held in syntax
//! trees.  Unlike `Vec`, a list value can be written down in specifications,
//! so a parser's result can be stated exactly.
use vstd::prelude::*;

verus! {

/// A finite sequence, as a chain of cells.
#[derive(Debug, PartialEq, Eq)]
pub enum List<T> {
    Nil,
    Cons(Box<T>, Box<List<T>>),
}

impl<T> List<T> {
    /// The list whose elements are `s`, in order, followed by those of `tail`.
    pub open spec fn prepend(s: Seq<T>, tail: List<T>) -> List<T>
        decreases s.len(),
    {
        if s.len() == 0 {
            tail
        } else {
            List::Cons(Box::new(s[0]), Box::new(List::prepend(s.drop_first(), tail)))
        }
    }

    /// The list whose elements are those of `s`, in order.
    pub open spec fn from_seq(s: Seq<T>) -> List<T> {
        List::prepend(s, List::Nil)
    }

    /// The elements of the list, in order.
    pub open spec fn elems(self) -> Seq<T>
        decreases self,
    {
        match self {
            List::Nil => Seq::empty(),
            List::Cons(x, rest) => seq![*x] + rest.elems(),
        }
    }

    /// Moving the last element of `s` to the front of `tail` does not change
    /// the list.
    pub proof fn lemma_prepend_last(s: Seq<T>, tail: List<T>)
        requires
            s.len() > 0,
        ensures
            List::prepend(s, tail) == List::prepend(
                s.drop_last(),
                List::Cons(Box::new(s.last()), Box::new(tail)),
            ),
        decreases s.len(),
    {
        if s.len() > 1 {
            List::lemma_prepend_last(s.drop_first(), tail);
            assert(s.drop_first().drop_last() =~= s.drop_last().drop_first());
            assert(s.drop_last()[0] == s[0]);
            assert(s.drop_first().last() == s.last());
        } else {
            assert(s.drop_last() =~= Seq::<T>::empty());
            assert(s.drop_first() =~= Seq::<T>::empty());
            assert(List::prepend(s.drop_first(), tail) == tail);
            assert(List::prepend(s.drop_last(), List::Cons(Box::new(s.last()), Box::new(tail)))
                == List::Cons(Box::new(s.last()), Box::new(tail)));
        }
    }

    /// Reading back a list built from a sequence gives that sequence.
    pub proof fn lemma_elems_from_seq(s: Seq<T>)
        ensures
            List::from_seq(s).elems() == s,
        decreases s.len(),
    {
        if s.len() > 0 {
            List::lemma_elems_from_seq(s.drop_first());
            assert(seq![s[0]] + s.drop_first() =~= s);
        }
    }

    /// Builds the list of the elements of `v`, in order.
    pub fn from_vec(v: Vec<T>) -> (l: List<T>)
        ensures
            l == List::from_seq(v@),
    {
        let ghost orig = v@;
        let mut v = v;
        let mut l = List::Nil;
        while v.len() > 0
            invariant
                List::prepend(v@, l) == List::from_seq(orig),
            decreases v.len(),
        {
            let ghost before = v@;
            let x = v.pop().unwrap();
            proof {
                List::lemma_prepend_last(before, l);
            }
            l = List::Cons(Box::new(x), Box::new(l));
        }
        l
    }

    /// The elements of the list, in order, in a vector.
    pub fn into_vec(self) -> (v: Vec<T>)
        ensures
            v@ == self.elems(),
    {
        let ghost all = self.elems();
        let mut v: Vec<T> = Vec::new();
        let mut cur = self;
        loop
            invariant
                v@ + cur.elems() == all,
                all == self.elems(),
            decreases cur,
        {
            match cur {
                List::Nil => {
                    assert(v@ =~= all);
                    return v;
                },
                List::Cons(x, rest) => {
                    let ghost before = v@;
                    v.push(*x);
                    proof {
                        assert(before + (seq![*x] + rest.elems()) =~= v@ + rest.elems());
                    }
                    cur = *rest;
                },
            }
        }
    }

    /// The number of elements.
    pub fn len(&self) -> (n: usize)
        requires
            self.elems().len() <= usize::MAX,
        ensures
            n == self.elems().len(),
        decreases self,
    {
        match self {
            List::Nil => 0,
            List::Cons(_, rest) => 1 + rest.len(),
        }
    }

    /// The element at index `i`, if there is one.
    pub fn get(&self, i: usize) -> (r: Option<&T>)
        ensures
            i < self.elems().len() ==> r == Some(&self.elems()[i as int]),
            i >= self.elems().len() ==> r is None,
        decreases self,
    {
        match self {
            List::Nil => None,
            List::Cons(x, rest) => {
                if i == 0 {
                    Some(&**x)
                } else {
                    rest.get(i - 1)
                }
            },
        }
    }
}

} // verus!
