//! A lazy, forward-only walk over a singly linked list.
//!
//! A list is given by its head (`None` for the empty list), a projector that
//! maps a node to its successor (`None` at the end), and a constructor that
//! maps a node to the view handed to the caller.

use vstd::prelude::*;

verus! {

/// Walks a linked list node by node, yielding one view per node.
///
/// `T` is a handle on a node (cheap to copy, like a reference), `W` the view
/// built from it, `N` the projector and `C` the constructor.
#[verifier::reject_recursive_types(T)]
#[verifier::reject_recursive_types(W)]
pub struct BindIterator<T, W, N, C> where N: Fn(T) -> Option<T>, C: Fn(T) -> W {
    pub(crate) current: Option<T>,
    pub(crate) get_next: N,
    pub(crate) ctor: C,
}

impl<T: Copy, W, N: Fn(T) -> Option<T>, C: Fn(T) -> W> BindIterator<T, W, N, C> {
    /// The node that the next call of `next` will yield, if any.
    pub closed spec fn current(&self) -> Option<T> {
        self.current
    }

    /// The function that maps a node to its successor.
    pub closed spec fn projector(&self) -> N {
        self.get_next
    }

    /// The function that maps a node to its view.
    pub closed spec fn constructor(&self) -> C {
        self.ctor
    }

    /// `chain` is the list that is left to walk: it starts at the current
    /// node, the projector may be called on each of its nodes and leads from
    /// each to the one after it, and from the last to the end; the constructor
    /// may be called on each of its nodes.
    pub open spec fn is_chain(&self, chain: Seq<T>) -> bool {
        &&& self.current() == (if chain.len() == 0 {
            None
        } else {
            Some(chain[0])
        })
        &&& forall|i: int|
            0 <= i < chain.len() ==> #[trigger] self.projector().requires((chain[i],))
        &&& forall|i: int|
            0 <= i < chain.len() ==> #[trigger] self.constructor().requires((chain[i],))
        &&& forall|i: int, r: Option<T>|
            0 <= i < chain.len() && #[trigger] self.projector().ensures((chain[i],), r) ==> r == (if i
                + 1 < chain.len() {
                Some(chain[i + 1])
            } else {
                None
            })
    }

    /// `views` holds, in order, one view of each node of `chain`.
    pub open spec fn views_of(&self, chain: Seq<T>, views: Seq<W>) -> bool {
        &&& views.len() == chain.len()
        &&& forall|i: int|
            0 <= i < chain.len() ==> #[trigger] self.constructor().ensures((chain[i],), views[i])
    }

    /// The same projector and constructor as `other`.
    pub open spec fn same_functions(&self, other: &Self) -> bool {
        &&& self.projector() == other.projector()
        &&& self.constructor() == other.constructor()
    }

    /// An iterator over the list that starts at `head`.
    pub fn new(head: Option<T>, get_next: N, ctor: C) -> (it: Self)
        ensures
            it.current() == head,
            it.projector() == get_next,
            it.constructor() == ctor,
    {
        BindIterator { current: head, get_next, ctor }
    }

    /// Yields the view of the current node and moves on to its successor, or
    /// yields `None`, and stays where it is, once the list is exhausted.
    pub fn next(&mut self) -> (r: Option<W>)
        requires
            old(self).current() matches Some(cur) ==> old(self).projector().requires((cur,))
                && old(self).constructor().requires((cur,)),
        ensures
            final(self).same_functions(old(self)),
            match old(self).current() {
                None => r is None && final(self).current() is None,
                Some(cur) => {
                    &&& r matches Some(w) && old(self).constructor().ensures((cur,), w)
                    &&& old(self).projector().ensures((cur,), final(self).current())
                },
            },
            forall|chain: Seq<T>| #[trigger]
                old(self).is_chain(chain) ==> if chain.len() == 0 {
                    r is None && final(self).is_chain(chain)
                } else {
                    &&& r matches Some(w) && old(self).constructor().ensures((chain[0],), w)
                    &&& final(self).is_chain(chain.skip(1))
                },
    {
        match self.current {
            None => None,
            Some(cur) => {
                let succ = (self.get_next)(cur);
                let view = (self.ctor)(cur);
                self.current = succ;
                proof {
                    assert forall|chain: Seq<T>| #[trigger] old(self).is_chain(chain) implies {
                        &&& chain.len() > 0
                        &&& old(self).constructor().ensures((chain[0],), view)
                        &&& self.is_chain(chain.skip(1))
                    } by {
                        assert(chain.len() > 0);
                        assert(chain[0] == cur);
                        let rest = chain.skip(1);
                        assert(old(self).projector().ensures((chain[0],), succ));
                        assert forall|i: int| 0 <= i < rest.len() implies #[trigger] self.projector().requires(
                            (rest[i],),
                        ) by {
                            assert(rest[i] == chain[i + 1]);
                            assert(old(self).projector().requires((chain[i + 1],)));
                        }
                        assert forall|i: int| 0 <= i < rest.len() implies #[trigger] self.constructor().requires(
                            (rest[i],),
                        ) by {
                            assert(rest[i] == chain[i + 1]);
                            assert(old(self).constructor().requires((chain[i + 1],)));
                        }
                        assert forall|i: int, r: Option<T>|
                            0 <= i < rest.len() && #[trigger] self.projector().ensures(
                                (rest[i],),
                                r,
                            ) implies r == (if i + 1 < rest.len() {
                            Some(rest[i + 1])
                        } else {
                            None
                        }) by {
                            assert(rest[i] == chain[i + 1]);
                            assert(old(self).projector().ensures((chain[i + 1],), r));
                            if i + 1 < rest.len() {
                                assert(rest[i + 1] == chain[i + 2]);
                            }
                        }
                    }
                }
                Some(view)
            },
        }
    }

    /// Walks the rest of the list and gathers the views in list order: one
    /// view for each node that is left, none for an exhausted list.
    pub fn collect(self) -> (views: Vec<W>)
        requires
            exists|chain: Seq<T>| self.is_chain(chain),
        ensures
            forall|chain: Seq<T>| #[trigger] self.is_chain(chain) ==> self.views_of(chain, views@),
    {
        let mut it = self;
        let mut views: Vec<W> = Vec::new();
        let ghost whole: Seq<T> = choose|chain: Seq<T>| self.is_chain(chain);
        let ghost mut done: int = 0;
        loop
            invariant
                it.same_functions(&self),
                0 <= done <= whole.len(),
                views@.len() == done,
                forall|chain: Seq<T>| #[trigger]
                    self.is_chain(chain) ==> {
                        &&& done <= chain.len()
                        &&& it.is_chain(chain.skip(done))
                        &&& self.views_of(chain.take(done), views@)
                    },
                self.is_chain(whole),
            decreases whole.len() - done,
        {
            proof {
                assert(it.is_chain(whole.skip(done)));
                if whole.skip(done).len() > 0 {
                    assert(it.projector().requires((whole.skip(done)[0],)));
                    assert(it.constructor().requires((whole.skip(done)[0],)));
                }
            }
            let ghost before = it;
            match it.next() {
                None => {
                    proof {
                        assert forall|chain: Seq<T>| #[trigger]
                            self.is_chain(chain) implies self.views_of(chain, views@) by {
                            assert(before.is_chain(chain.skip(done)));
                            assert(chain.skip(done).len() == 0);
                            assert(chain.take(done) =~= chain);
                        }
                    }
                    return views;
                },
                Some(view) => {
                    let ghost prior = views@;
                    views.push(view);
                    proof {
                        assert(before.is_chain(whole.skip(done)));
                        assert(whole.skip(done).len() > 0);
                        assert forall|chain: Seq<T>| #[trigger] self.is_chain(chain) implies {
                            &&& done + 1 <= chain.len()
                            &&& it.is_chain(chain.skip(done + 1))
                            &&& self.views_of(chain.take(done + 1), views@)
                        } by {
                            let rest = chain.skip(done);
                            assert(before.is_chain(rest));
                            assert(rest.len() > 0);
                            assert(rest[0] == chain[done]);
                            assert(rest.skip(1) =~= chain.skip(done + 1));
                            assert(self.views_of(chain.take(done), prior));
                            let upto = chain.take(done + 1);
                            assert forall|i: int| 0 <= i < upto.len() implies #[trigger] self.constructor().ensures(
                                (upto[i],),
                                views@[i],
                            ) by {
                                if i < done {
                                    assert(upto[i] == chain.take(done)[i]);
                                    assert(views@[i] == prior[i]);
                                    assert(self.constructor().ensures((chain.take(done)[i],), prior[i]));
                                } else {
                                    assert(upto[i] == chain[done]);
                                    assert(views@[i] == view);
                                }
                            }
                        }
                        done = done + 1;
                    }
                },
            }
        }
    }
}

} // verus!
