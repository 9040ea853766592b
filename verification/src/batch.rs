//! Groups a stream of items into fixed-size batches, flushing a final,
//! possibly undersized batch when the stream ends.

use vstd::arithmetic::div_mod::lemma_fundamental_div_mod_converse;
use vstd::prelude::*;

verus! {

/// One group of items produced by a `BatchBuilder`.
pub struct Batch<T> {
    pub items: Vec<T>,
}

impl<T> View for Batch<T> {
    type V = Seq<T>;

    open spec fn view(&self) -> Seq<T> {
        self.items@
    }
}

/// Accumulates pushed items into an in-progress group and moves the group
/// into the completed-batches list each time it reaches `batch_size`.
pub struct BatchBuilder<T> {
    batches: Vec<Batch<T>>,
    incomplete_batch: Vec<T>,
    batch_size: usize,
}

impl<T> BatchBuilder<T> {
    /// The completed batches, in push order.
    pub closed spec fn spec_batches(&self) -> Seq<Seq<T>> {
        self.batches@.map(|i: int, b: Batch<T>| b@)
    }

    /// The in-progress group that has not reached `batch_size` yet.
    pub closed spec fn spec_incomplete(&self) -> Seq<T> {
        self.incomplete_batch@
    }

    /// The configured batch size.
    pub closed spec fn spec_batch_size(&self) -> usize {
        self.batch_size
    }

    pub open spec fn wf(&self) -> bool {
        &&& self.spec_batch_size() > 0
        &&& self.spec_incomplete().len() < self.spec_batch_size()
    }

    /// A builder in a state reachable from `new` by `push` calls alone:
    /// every completed batch is exactly full.
    pub open spec fn canonical(&self) -> bool {
        &&& self.wf()
        &&& forall|i: int|
            0 <= i < self.spec_batches().len() ==> (#[trigger] self.spec_batches()[i]).len()
                == self.spec_batch_size()
    }

    /// How many items have been pushed into a canonical builder.
    pub open spec fn pushed_count(&self) -> int {
        self.spec_batches().len() * self.spec_batch_size() + self.spec_incomplete().len()
    }

    /// How one `push` call changes the builder.
    pub open spec fn push_transition(pre: Self, post: Self, item: T) -> bool {
        &&& post.spec_batch_size() == pre.spec_batch_size()
        &&& if pre.spec_incomplete().len() + 1 == pre.spec_batch_size() {
            &&& post.spec_batches() == pre.spec_batches().push(pre.spec_incomplete().push(item))
            &&& post.spec_incomplete() == Seq::<T>::empty()
        } else {
            &&& post.spec_batches() == pre.spec_batches()
            &&& post.spec_incomplete() == pre.spec_incomplete().push(item)
        }
    }

    /// What `get` returns: the completed batches, with the in-progress group
    /// appended as a final batch when it is non-empty.
    pub open spec fn finished(&self) -> Seq<Seq<T>> {
        if self.spec_incomplete().len() > 0 {
            self.spec_batches().push(self.spec_incomplete())
        } else {
            self.spec_batches()
        }
    }

    pub fn new(batch_size: usize) -> (r: Self)
        requires
            batch_size > 0,
        ensures
            r.wf(),
            r.spec_batches() == Seq::<Seq<T>>::empty(),
            r.spec_incomplete() == Seq::<T>::empty(),
            r.spec_batch_size() == batch_size,
            r.canonical(),
            r.pushed_count() == 0,
    {
        let r = Self {
            batches: Vec::new(),
            incomplete_batch: Vec::with_capacity(batch_size),
            batch_size,
        };
        proof {
            assert(r.spec_batches() =~= Seq::<Seq<T>>::empty());
        }
        r
    }

    pub fn push(&mut self, new_item: T)
        requires
            old(self).wf(),
        ensures
            final(self).wf(),
            Self::push_transition(*old(self), *final(self), new_item),
    {
        self.incomplete_batch.push(new_item);
        if self.incomplete_batch.len() == self.batch_size {
            self.flush_batch();
        }
    }

    /// Moves the in-progress group, full or not, into the completed-batches
    /// list and starts a fresh empty group.
    pub fn flush_batch(&mut self)
        ensures
            final(self).spec_batches() == old(self).spec_batches().push(
                old(self).spec_incomplete(),
            ),
            final(self).spec_incomplete() == Seq::<T>::empty(),
            final(self).spec_batch_size() == old(self).spec_batch_size(),
    {
        let mut items: Vec<T> = Vec::with_capacity(self.batch_size);
        core::mem::swap(&mut items, &mut self.incomplete_batch);
        let batch = Batch { items };
        self.batches.push(batch);
        proof {
            assert(self.spec_batches() =~= old(self).spec_batches().push(
                old(self).spec_incomplete(),
            ));
        }
    }

    pub fn get(self) -> (r: Vec<Batch<T>>)
        ensures
            r@.map(|i: int, b: Batch<T>| b@) == self.finished(),
    {
        let ghost start = self;
        let mut builder = self;
        if !builder.incomplete_batch.is_empty() {
            builder.flush_batch();
            proof {
                assert(builder.spec_batches() =~= start.finished());
            }
        }
        builder.batches
    }

    /// Pushing an item into a builder that pushes alone have filled keeps
    /// every completed batch exactly full and raises the item count by one.
    pub proof fn lemma_push_preserves_canonical(pre: Self, post: Self, item: T)
        requires
            pre.canonical(),
            Self::push_transition(pre, post, item),
        ensures
            post.canonical(),
            post.pushed_count() == pre.pushed_count() + 1,
    {
        if pre.spec_incomplete().len() + 1 == pre.spec_batch_size() {
            assert(post.spec_batches().last().len() == post.spec_batch_size());
            assert(post.pushed_count() == pre.pushed_count() + 1) by (nonlinear_arith)
                requires
                    post.spec_batches().len() == pre.spec_batches().len() + 1,
                    post.spec_batch_size() == pre.spec_batch_size(),
                    post.spec_incomplete().len() == 0,
                    pre.spec_incomplete().len() + 1 == pre.spec_batch_size(),
                    post.pushed_count() == post.spec_batches().len() * post.spec_batch_size()
                        + post.spec_incomplete().len(),
                    pre.pushed_count() == pre.spec_batches().len() * pre.spec_batch_size()
                        + pre.spec_incomplete().len(),
            ;
        }
    }

    /// Pushing `n` items with batch size `c` yields exactly `(n + c - 1) / c`
    /// batches: every batch except possibly the last is exactly full, the last
    /// is never empty, and zero pushed items yield zero batches.
    pub proof fn lemma_batch_count(b: Self)
        requires
            b.canonical(),
        ensures
            b.finished().len() == (b.pushed_count() + b.spec_batch_size() - 1) / (
            b.spec_batch_size() as int),
            forall|i: int|
                0 <= i < b.finished().len() - 1 ==> (#[trigger] b.finished()[i]).len()
                    == b.spec_batch_size(),
            b.finished().len() > 0 ==> 1 <= b.finished().last().len() <= b.spec_batch_size(),
            b.pushed_count() == 0 ==> b.finished().len() == 0,
    {
        let c = b.spec_batch_size() as int;
        let k = b.spec_batches().len() as int;
        let m = b.spec_incomplete().len() as int;
        if m == 0 {
            lemma_fundamental_div_mod_converse(k * c + c - 1, c, k, c - 1);
        } else {
            assert(k * c + m + c - 1 == (k + 1) * c + (m - 1)) by (nonlinear_arith);
            lemma_fundamental_div_mod_converse(k * c + m + c - 1, c, k + 1, m - 1);
        }
        if b.pushed_count() == 0 {
            assert(k * c >= 0 ==> k == 0 || k * c >= c) by (nonlinear_arith)
                requires
                    c > 0,
                    k >= 0,
            ;
        }
    }
}

} // verus!
