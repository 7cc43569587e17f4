//! A list that holds either exactly one element or many elements.
//!
//! Call sites that almost always produce a single value can return
//! [`MaybeList::One`] and avoid allocating a vector in the common case,
//! while still being able to return arbitrarily many values through
//! [`MaybeList::Many`].

use vstd::prelude::*;

verus! {

/// A list that holds either exactly one element, stored inline, or many
/// elements, stored in a heap-allocated vector.
///
/// The two variants are distinguished by representation, not by
/// cardinality: a `Many` may legitimately hold zero or one elements.
#[derive(Debug)]
pub enum MaybeList<T> {
    /// A single element.
    One(T),
    /// Multiple elements (heap allocated).
    Many(Vec<T>),
}

impl<T> View for MaybeList<T> {
    type V = Seq<T>;

    open spec fn view(&self) -> Seq<T> {
        match self {
            MaybeList::One(item) => seq![*item],
            MaybeList::Many(list) => list@,
        }
    }
}

impl<T> MaybeList<T> {
    /// Whether the list holds no elements, as a mathematical statement.
    pub open spec fn spec_is_empty(&self) -> bool {
        self@.len() == 0
    }

    /// A MaybeList of one element.
    pub fn one(item: T) -> (r: Self)
        ensures
            r == MaybeList::One(item),
            r@ == seq![item],
    {
        MaybeList::One(item)
    }

    /// A MaybeList of many elements, in the order of the given vector.
    pub fn many(list: Vec<T>) -> (r: Self)
        ensures
            r == MaybeList::Many(list),
            r@ == list@,
    {
        MaybeList::Many(list)
    }

    /// Returns the length of this list.
    pub fn len(&self) -> (r: usize)
        ensures
            r == self@.len(),
    {
        match self {
            MaybeList::One(..) => 1,
            MaybeList::Many(list) => list.len(),
        }
    }

    /// Returns whether this list is empty; true only for a `Many` that
    /// holds no elements.
    pub fn is_empty(&self) -> (r: bool)
        ensures
            r == self.spec_is_empty(),
    {
        self.len() == 0
    }

    /// Collects an already-drained source into a list. The result is
    /// always the `Many` variant, whatever the element count, and keeps
    /// the source's order.
    pub fn from_iter(list: Vec<T>) -> (r: Self)
        ensures
            r == MaybeList::Many(list),
            r is Many,
            r@ == list@,
    {
        MaybeList::Many(list)
    }

    /// The elements in the order consuming iteration yields them: a
    /// `One` yields its single element, and a `Many` yields its
    /// elements in reverse insertion order.
    pub open spec fn iteration_order(&self) -> Seq<T> {
        self@.reverse()
    }

    /// Consumes this list into an iterator that yields each element
    /// exactly once, in `iteration_order`.
    pub fn into_iter(self) -> (r: MaybeListIter<T>)
        ensures
            r@ == self.iteration_order(),
    {
        let ghost elements = self@;
        let item = match self {
            MaybeList::Many(list) => PartialMaybeList::Many(list),
            MaybeList::One(item) => PartialMaybeList::One(Some(item)),
        };
        proof {
            if elements.len() == 1 {
                assert(elements.reverse() =~= elements);
            }
        }
        MaybeListIter { item }
    }
}

/// The remains of a `MaybeList` while it is being consumed: either the
/// not-yet-yielded tail of a `Many`, popped from the end, or the single
/// element of a `One`, present until taken.
enum PartialMaybeList<T> {
    Many(Vec<T>),
    One(Option<T>),
}

impl<T> PartialMaybeList<T> {
    /// The elements not yet yielded, in the order they will come out.
    spec fn remaining(&self) -> Seq<T> {
        match self {
            PartialMaybeList::Many(list) => list@.reverse(),
            PartialMaybeList::One(item) => match item {
                Some(x) => seq![*x],
                None => Seq::empty(),
            },
        }
    }

    fn len(&self) -> (r: usize)
        ensures
            r == self.remaining().len(),
    {
        match self {
            PartialMaybeList::Many(list) => list.len(),
            PartialMaybeList::One(Some(..)) => 1,
            _ => 0,
        }
    }
}

/// An iterator over a MaybeList: a finite, non-restartable forward
/// sequence of owned elements.
pub struct MaybeListIter<T> {
    item: PartialMaybeList<T>,
}

impl<T> View for MaybeListIter<T> {
    type V = Seq<T>;

    /// The elements not yet yielded, in the order they will come out.
    closed spec fn view(&self) -> Seq<T> {
        self.item.remaining()
    }
}

impl<T> MaybeListIter<T> {
    /// Yields the next element, or `None` once every element has been
    /// yielded; after the first `None`, every further call returns
    /// `None` again and leaves the iterator unchanged.
    pub fn next(&mut self) -> (r: Option<T>)
        ensures
            old(self)@.len() == 0 ==> r is None && final(self)@ == old(self)@,
            old(self)@.len() > 0 ==> r == Some(old(self)@[0]) && final(self)@ == old(self)@.drop_first(),
    {
        match &mut self.item {
            PartialMaybeList::Many(list) => {
                let ghost before = list@;
                let r = list.pop();
                proof {
                    if before.len() > 0 {
                        assert(list@ =~= before.drop_last());
                        lemma_reverse_drop_last(before);
                    }
                }
                r
            },
            PartialMaybeList::One(item) => {
                let ghost before = *item;
                let r = item.take();
                proof {
                    if before is Some {
                        assert(seq![before->0].drop_first() =~= Seq::<T>::empty());
                    }
                }
                r
            },
        }
    }

    /// Returns the exact number of elements not yet yielded.
    pub fn len(&self) -> (r: usize)
        ensures
            r == self@.len(),
    {
        self.item.len()
    }
}

impl<T> From<T> for MaybeList<T> {
    /// Wraps a single value; equivalent to `MaybeList::one`.
    fn from(item: T) -> (r: Self)
        ensures
            r == MaybeList::One(item),
    {
        MaybeList::One(item)
    }
}

impl<T> vstd::std_specs::convert::FromSpecImpl<T> for MaybeList<T> {
    open spec fn obeys_from_spec() -> bool {
        true
    }

    open spec fn from_spec(item: T) -> Self {
        MaybeList::One(item)
    }
}

impl<T> From<Vec<T>> for MaybeList<T> {
    /// Wraps an already-materialized vector without copying it;
    /// equivalent to `MaybeList::many`.
    fn from(list: Vec<T>) -> (r: Self)
        ensures
            r == MaybeList::Many(list),
    {
        MaybeList::Many(list)
    }
}

impl<T> vstd::std_specs::convert::FromSpecImpl<Vec<T>> for MaybeList<T> {
    open spec fn obeys_from_spec() -> bool {
        true
    }

    open spec fn from_spec(list: Vec<T>) -> Self {
        MaybeList::Many(list)
    }
}

/// A list of one element has length 1 and is never empty.
pub proof fn lemma_one_is_singleton<T>(item: T)
    ensures
        MaybeList::One(item)@.len() == 1,
        !MaybeList::One(item).spec_is_empty(),
{
}

/// A list of many elements has the length of the sequence it was built
/// from; in particular, one built from an empty sequence is empty.
pub proof fn lemma_many_len<T>(list: Vec<T>)
    ensures
        MaybeList::Many(list)@.len() == list@.len(),
        MaybeList::Many(list).spec_is_empty() <==> list@.len() == 0,
{
}

/// A list is empty exactly when its length is 0, so `is_empty` and a
/// `len() == 0` check agree for every constructed instance.
pub proof fn lemma_is_empty_iff_len_zero<T>(m: &MaybeList<T>)
    ensures
        m.spec_is_empty() <==> m@.len() == 0,
{
}

/// Only a `Many` that holds no elements can be empty: an empty list is
/// never the `One` variant.
pub proof fn lemma_empty_is_many<T>(m: &MaybeList<T>)
    requires
        m.spec_is_empty(),
    ensures
        m is Many,
{
}

/// Round trip: consuming a list built from a single value yields
/// exactly that one value.
pub proof fn lemma_one_round_trip<T>(item: T)
    ensures
        MaybeList::One(item).iteration_order() =~= seq![item],
{
    assert(seq![item].reverse() =~= seq![item]);
}

/// Reversal law: consuming a list built from an ordered vector yields
/// its elements in exactly reversed order.
pub proof fn lemma_many_reversal<T>(list: Vec<T>)
    ensures
        MaybeList::Many(list).iteration_order().len() == list@.len(),
        forall|i: int|
            0 <= i < list@.len() ==> #[trigger] MaybeList::Many(list).iteration_order()[i]
                == list@[list@.len() - 1 - i],
{
}

/// Dropping the last element before reversing a sequence is the same as
/// reversing it and then dropping the first element.
proof fn lemma_reverse_drop_last<T>(s: Seq<T>)
    requires
        s.len() > 0,
    ensures
        s.drop_last().reverse() =~= s.reverse().drop_first(),
{
    assert forall|i: int| 0 <= i < s.len() - 1 implies s.drop_last().reverse()[i] == s.reverse().drop_first()[i] by {
        assert(s.drop_last().reverse()[i] == s[s.len() - 2 - i]);
        assert(s.reverse().drop_first()[i] == s.reverse()[i + 1]);
    }
}

} // verus!
