//! The registry that makes numeric handles safe.
//!
//! Native values handed across the host boundary are kept in an [`Arena`]
//! and stood for by the index they were inserted at. Decoding a handle
//! removes the value from its slot and returns it, so a handle is a
//! single-use capability: decoding it twice, or decoding a number that
//! never named a value, fails loudly with a decode error instead of
//! aliasing anything.

use vstd::prelude::*;

use crate::error::PlError;

verus! {

/// An arena of native values keyed by opaque indexes.
pub struct Arena<T> {
    slots: Vec<Option<T>>,
}

impl<T> View for Arena<T> {
    type V = Seq<Option<T>>;

    closed spec fn view(&self) -> Seq<Option<T>> {
        self.slots@
    }
}

/// True when the handles can all be decoded against the slots: each names
/// a live slot and none repeats an earlier handle.
pub open spec fn decodable<T>(slots: Seq<Option<T>>, handles: Seq<u32>) -> bool {
    forall|i: int|
        0 <= i < handles.len() ==> {
            &&& (#[trigger] handles[i]) < slots.len()
            &&& slots[handles[i] as int] is Some
            &&& forall|j: int| 0 <= j < i ==> handles[j] != handles[i]
        }
}

impl<T> Arena<T> {
    /// An empty arena.
    pub fn new() -> (r: Arena<T>)
        ensures
            r@ == Seq::<Option<T>>::empty(),
    {
        Arena { slots: Vec::new() }
    }

    /// How many slots the arena has issued so far, spent ones included.
    pub fn len(&self) -> (r: usize)
        ensures
            r == self@.len(),
    {
        self.slots.len()
    }

    /// Store a value and hand out the index that now stands for it.
    pub fn insert(&mut self, value: T) -> (h: u32)
        requires
            old(self)@.len() < 0x1_0000_0000,
        ensures
            final(self)@ == old(self)@.push(Some(value)),
            h == old(self)@.len(),
    {
        let h = self.slots.len();
        self.slots.push(Some(value));
        h as u32
    }

    /// Remove and return the value a handle stands for. A handle that was
    /// never issued, or was decoded before, names no value and is
    /// rejected; the arena is then left unchanged.
    pub fn take(&mut self, handle: u32) -> (r: Result<T, PlError>)
        ensures
            (handle < old(self)@.len() && old(self)@[handle as int] is Some) ==> {
                &&& r matches Ok(v) && Some(v) == old(self)@[handle as int]
                &&& final(self)@ == old(self)@.update(handle as int, None::<T>)
            },
            (handle >= old(self)@.len() || old(self)@[handle as int] is None) ==> {
                &&& r matches Err(e) && e is Decode
                &&& final(self)@ == old(self)@
            },
    {
        let h = handle as usize;
        if h >= self.slots.len() {
            return Err(PlError::Decode { message: "the handle does not name a value".to_owned() });
        }
        let mut slot: Option<T> = None;
        self.slots.set_and_swap(h, &mut slot);
        match slot {
            Some(v) => Ok(v),
            None => {
                proof {
                    assert(self.slots@ =~= old(self)@);
                }
                Err(
                    PlError::Decode {
                        message: "the handle was already decoded once".to_owned(),
                    },
                )
            },
        }
    }

    /// Decode an ordered collection of handles into the values they stand
    /// for, in the same order; every decoded slot is spent. An empty
    /// collection decodes to an empty sequence. The first handle that
    /// names no live value stops the decoding with a decode error.
    pub fn decode(&mut self, handles: &Vec<u32>) -> (r: Result<Vec<T>, PlError>)
        ensures
            decodable(old(self)@, handles@) ==> (r matches Ok(vs) && {
                &&& vs@.len() == handles@.len()
                &&& forall|i: int|
                    0 <= i < handles@.len() ==> Some(#[trigger] vs@[i])
                        == old(self)@[handles@[i] as int]
                &&& forall|i: int|
                    0 <= i < handles@.len() ==> final(self)@[#[trigger] handles@[i] as int] is None
                &&& forall|k: int|
                    0 <= k < old(self)@.len() && !handles@.contains(k as u32)
                        ==> final(self)@[k] == old(self)@[k]
            }),
            !decodable(old(self)@, handles@) ==> (r matches Err(e) && e is Decode),
            final(self)@.len() == old(self)@.len(),
    {
        let ghost orig = self@;
        let mut vs: Vec<T> = Vec::new();
        let mut i: usize = 0;
        while i < handles.len()
            invariant
                orig == old(self)@,
                i <= handles@.len(),
                vs@.len() == i,
                self@.len() == orig.len(),
                decodable(orig, handles@.take(i as int)),
                forall|j: int|
                    0 <= j < i ==> Some(#[trigger] vs@[j]) == orig[handles@[j] as int],
                forall|j: int| 0 <= j < i ==> self@[#[trigger] handles@[j] as int] is None,
                forall|k: int|
                    0 <= k < orig.len() && !(#[trigger] handles@.take(i as int).contains(
                        k as u32,
                    )) ==> self@[k] == orig[k],
            decreases handles@.len() - i,
        {
            let h = handles[i];
            let ghost before = self@;
            proof {
                assert(handles@.take(i as int).contains(h) ==> before[h as int] is None) by {
                    if handles@.take(i as int).contains(h) {
                        let j = choose|j: int|
                            0 <= j < i && #[trigger] handles@.take(i as int)[j] == h;
                        assert(handles@[j] == h);
                        assert(before[handles@[j] as int] is None);
                    }
                }
            }
            let v = match self.take(h) {
                Ok(v) => v,
                Err(e) => {
                    proof {
                        // The slot named no live value now; were the whole
                        // list decodable, this very slot would still hold
                        // its original live value.
                        assert(h >= before.len() || before[h as int] is None);
                        assert(self@ == before);
                        if decodable(orig, handles@) {
                            assert(handles@[i as int] < orig.len());
                            assert(orig[handles@[i as int] as int] is Some);
                            assert(!handles@.take(i as int).contains(h)) by {
                                if handles@.take(i as int).contains(h) {
                                    let j = choose|j: int|
                                        0 <= j < i && #[trigger] handles@.take(i as int)[j]
                                            == h;
                                    assert(handles@[j] == handles@[i as int]);
                                    assert(false);
                                }
                            }
                            let ghost k = h as int;
                            assert((k as u32) == h);
                            assert(!handles@.take(i as int).contains(k as u32));
                            assert(before[k] == orig[k]);
                            assert(false);
                        }
                        assert(!decodable(orig, handles@));
                    }
                    return Err(e);
                },
            };
            proof {
                // The decode succeeded, so the slot was live: the handle is
                // in range, was not decoded before, and its slot still held
                // the original value.
                assert(h < before.len() && before[h as int] is Some);
                assert(self@ == before.update(h as int, None::<T>));
                assert(!handles@.take(i as int).contains(h));
                let ghost k = h as int;
                assert((k as u32) == h);
                assert(!handles@.take(i as int).contains(k as u32));
                assert(before[k] == orig[k]);
                assert(decodable(orig, handles@.take(i + 1))) by {
                    let p = handles@.take(i + 1);
                    assert(forall|j: int| 0 <= j <= i ==> p[j] == handles@[j]);
                    assert(p[i as int] == h);
                    assert forall|j: int| 0 <= j < i implies handles@[j] != h by {
                        if handles@[j] == h {
                            assert(handles@.take(i as int)[j] == h);
                            assert(handles@.take(i as int).contains(h));
                        }
                    }
                }
            }
            vs.push(v);
            proof {
                assert forall|j: int|
                    0 <= j <= i as int implies self@[#[trigger] handles@[j] as int] is None by {
                    if j < i as int {
                        assert(handles@.take(i as int)[j] == handles@[j]);
                        assert(handles@[j] < orig.len());
                        assert(before[handles@[j] as int] is None);
                    } else {
                        assert(handles@[j] == h);
                    }
                }
                assert forall|j: int|
                    0 <= j <= i as int implies Some(#[trigger] vs@[j]) == orig[handles@[j] as int] by {
                }
            }
            i = i + 1;
            proof {
                assert forall|k: int|
                    0 <= k < orig.len() && !(#[trigger] handles@.take(i as int).contains(
                        k as u32,
                    )) implies self@[k] == orig[k] by {
                    assert(!handles@.take(i as int - 1).contains(k as u32)) by {
                        if handles@.take(i as int - 1).contains(k as u32) {
                            let j = choose|j: int|
                                0 <= j < i - 1 && #[trigger] handles@.take(i as int - 1)[j]
                                    == k as u32;
                            assert(handles@.take(i as int)[j] == k as u32);
                            assert(handles@.take(i as int).contains(k as u32));
                        }
                    }
                    assert(h != k as u32) by {
                        if h == k as u32 {
                            assert(handles@.take(i as int)[i as int - 1] == k as u32);
                            assert(handles@.take(i as int).contains(k as u32));
                        }
                    }
                    assert(self@[k] == before[k]);
                    assert(before[k] == orig[k]);
                }
            }
        }
        proof {
            assert(handles@.take(handles@.len() as int) =~= handles@);
        }
        Ok(vs)
    }
}

} // verus!
