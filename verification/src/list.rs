//! A structurally recursive list.
//!
//! The lowering pass builds trees whose equality must be plain structural
//! equality in specifications, so child sequences are kept as cons lists
//! rather than vectors: two lists are equal exactly when their elements are.

use vstd::prelude::*;

verus! {

#[derive(PartialEq, Eq)]
pub enum List<T> {
    Nil,
    Cons(T, Box<List<T>>),
}

impl<T> List<T> {
    pub open spec fn len(self) -> nat
        decreases self,
    {
        match self {
            List::Nil => 0,
            List::Cons(_, t) => 1 + t.len(),
        }
    }

}

/// Looks a key up in an association list; the first matching entry wins.
pub open spec fn s_assoc<V>(l: List<(u64, V)>, k: u64) -> Option<V>
    decreases l,
{
    match l {
        List::Nil => None,
        List::Cons(p, t) => if p.0 == k {
            Some(p.1)
        } else {
            s_assoc(*t, k)
        },
    }
}

pub fn assoc<'a, V>(l: &'a List<(u64, V)>, k: u64) -> (r: Option<&'a V>)
    ensures
        match r {
            Some(v) => s_assoc(*l, k) == Some(*v),
            None => s_assoc(*l, k) is None,
        },
    decreases *l,
{
    match l {
        List::Nil => None,
        List::Cons(p, t) => if p.0 == k {
            Some(&p.1)
        } else {
            assoc(&**t, k)
        },
    }
}

/// The element at a position, if the list is that long.
pub open spec fn s_nth<T>(l: List<T>, i: nat) -> Option<T>
    decreases l,
{
    match l {
        List::Nil => None,
        List::Cons(h, t) => if i == 0 {
            Some(h)
        } else {
            s_nth(*t, (i - 1) as nat)
        },
    }
}

pub fn nth<'a, T>(l: &'a List<T>, i: usize) -> (r: Option<&'a T>)
    ensures
        match r {
            Some(v) => s_nth(*l, i as nat) == Some(*v),
            None => s_nth(*l, i as nat) is None,
        },
    decreases *l,
{
    match l {
        List::Nil => None,
        List::Cons(h, t) => if i == 0 {
            Some(h)
        } else {
            nth(&**t, i - 1)
        },
    }
}

/// The last element, if any.
pub open spec fn s_last<T>(l: List<T>) -> Option<T>
    decreases l,
{
    match l {
        List::Nil => None,
        List::Cons(h, t) => if *t is Nil {
            Some(h)
        } else {
            s_last(*t)
        },
    }
}

pub fn last<'a, T>(l: &'a List<T>) -> (r: Option<&'a T>)
    ensures
        match r {
            Some(v) => s_last(*l) == Some(*v),
            None => s_last(*l) is None,
        },
    decreases *l,
{
    match l {
        List::Nil => None,
        List::Cons(h, t) => match &**t {
            List::Nil => Some(h),
            List::Cons(_, _) => last(&**t),
        },
    }
}

/// A nonempty list has a last element.
pub proof fn lemma_last_some<T>(l: List<T>)
    requires
        l is Cons,
    ensures
        s_last(l) is Some,
    decreases l,
{
    match l {
        List::Nil => {}
        List::Cons(_, t) => {
            if *t is Cons {
                lemma_last_some(*t);
            }
        }
    }
}

/// Membership in a list of node identities.
pub open spec fn s_contains(l: List<u64>, k: u64) -> bool
    decreases l,
{
    match l {
        List::Nil => false,
        List::Cons(h, t) => h == k || s_contains(*t, k),
    }
}

pub fn contains(l: &List<u64>, k: u64) -> (r: bool)
    ensures
        r == s_contains(*l, k),
    decreases *l,
{
    match l {
        List::Nil => false,
        List::Cons(h, t) => *h == k || contains(&**t, k),
    }
}

} // verus!
