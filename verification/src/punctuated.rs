//! Sequences whose items are each followed by a punctuation mark, as the
//! parameters between `<` and `>` or the fields between `{` and `}` are.

use crate::token::{fresh_punct, Punct, Spacing};
use vstd::prelude::*;

verus! {

/// An ordered run of items, each stored with the mark that follows it.
///
/// The mark after the last item is stored like the others; `skip_last` says
/// that it was not written in the source and is not to be written out.
#[derive(Clone, Debug)]
pub struct Punctuated<T> {
    pub inner: Vec<(T, Punct)>,
    pub skip_last: bool,
}

/// What a [`Punctuated`] stands for: the pairs of item and mark, in order.
pub struct PunctuatedModel<M> {
    pub pairs: Seq<(M, Punct)>,
    pub skip_last: bool,
}

impl<M> PunctuatedModel<M> {
    /// The run with no item.
    pub open spec fn empty() -> Self {
        PunctuatedModel { pairs: Seq::empty(), skip_last: false }
    }

    /// The number of items.
    pub open spec fn len(self) -> nat {
        self.pairs.len()
    }

    /// The items without their marks, in order.
    pub open spec fn items(self) -> Seq<M> {
        Seq::new(self.pairs.len(), |i: int| self.pairs[i].0)
    }

    /// The run with `item` and the mark `sep` added at the end.
    pub open spec fn push(self, item: M, sep: Punct, skip_last: bool) -> Self {
        PunctuatedModel { pairs: self.pairs.push((item, sep)), skip_last }
    }

    /// The run with `item` and the mark `sep` put in before the item that
    /// stood at `at`. Put in at the end, the item decides by `skip_last`
    /// whether the last mark is written; elsewhere that stays as it was.
    pub open spec fn insert(self, at: int, item: M, sep: Punct, skip_last: bool) -> Self {
        if at == self.pairs.len() {
            self.push(item, sep, skip_last)
        } else {
            PunctuatedModel { pairs: self.pairs.insert(at, (item, sep)), skip_last: self.skip_last }
        }
    }
}

impl<T: View> View for Punctuated<T> {
    type V = PunctuatedModel<T::V>;

    open spec fn view(&self) -> PunctuatedModel<T::V> {
        PunctuatedModel {
            pairs: Seq::new(self.inner@.len(), |i: int| (self.inner@[i].0@, self.inner@[i].1)),
            skip_last: self.skip_last,
        }
    }
}

impl<T: View> Punctuated<T> {
    /// A run with no item.
    pub fn new() -> (r: Self)
        ensures
            r@ == PunctuatedModel::<T::V>::empty(),
    {
        let r = Punctuated { inner: Vec::new(), skip_last: false };
        assert(r@.pairs =~= Seq::empty());
        r
    }

    /// The number of items.
    pub fn len(&self) -> (n: usize)
        ensures
            n == self@.len(),
    {
        self.inner.len()
    }

    /// The item at position `i`.
    pub fn get(&self, i: usize) -> (item: &T)
        requires
            i < self@.len(),
        ensures
            *item == self.inner@[i as int].0,
            item@ == self@.items()[i as int],
    {
        &self.inner[i].0
    }

    /// Adds `value` at the end. With `punct` given, that mark follows it;
    /// without, a comma is made that is not written out.
    pub fn push(&mut self, value: T, punct: Option<Punct>)
        ensures
            final(self)@ == old(self)@.push(
                value@,
                final(self)@.pairs.last().1,
                punct is None,
            ),
            match punct {
                Some(p) => final(self)@.pairs.last().1 == p,
                None => final(self)@.pairs.last().1.is_comma(),
            },
    {
        let skip_last = punct.is_none();
        let sep = match punct {
            Some(p) => p,
            None => fresh_punct(',', Spacing::Alone),
        };
        self.inner.push((value, sep));
        self.skip_last = skip_last;
        assert(self@.pairs =~= old(self)@.pairs.push((value@, sep)));
    }

    /// Puts `value` in before the item at `index`; at `index == len()` this
    /// is [`Punctuated::push`]. Without `punct`, a comma is made.
    pub fn insert(&mut self, index: usize, value: T, punct: Option<Punct>)
        requires
            index <= old(self)@.len(),
        ensures
            final(self)@ == old(self)@.insert(
                index as int,
                value@,
                final(self)@.pairs[index as int].1,
                punct is None,
            ),
            match punct {
                Some(p) => final(self)@.pairs[index as int].1 == p,
                None => final(self)@.pairs[index as int].1.is_comma(),
            },
    {
        if index == self.inner.len() {
            self.push(value, punct);
        } else {
            let sep = match punct {
                Some(p) => p,
                None => fresh_punct(',', Spacing::Alone),
            };
            self.inner.insert(index, (value, sep));
            assert(self@.pairs =~= old(self)@.pairs.insert(index as int, (value@, sep)));
        }
    }
}

} // verus!
