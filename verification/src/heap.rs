//! Reference-counted shared ownership with weak back-references.
//!
//! A [`Heap`] owns a region of allocation blocks.  Each block carries a
//! payload together with a strong counter, a weak counter, and a record of
//! how often its finalizer has run.  [`SharedPointer`] handles own the
//! payload jointly: the payload is live exactly while the strong count is
//! positive.  [`WeakRef`] handles observe a block without owning it; they
//! keep the block itself (but not the payload) around, so that a stale
//! observer can detect "payload gone" instead of reading freed memory.
//!
//! All releases are explicit: a handle is a move-only value that is consumed
//! by the operation that gives it up ([`Heap::drop_pointer`],
//! [`Heap::drop_weak`]).  Because a handle can be spent only once, a double
//! release — and with it a double finalization — is ruled out by
//! construction, not detected at run time.  The finalizer protocol is the
//! bookkeeping at the strong-count-to-zero transition: the payload is taken
//! out of the block and handed back to the releasing owner for transitive
//! teardown, and the block's finalizer counter moves from zero to one.

use vstd::prelude::*;

verus! {

/// One allocation block: a payload plus its strong and weak counters.
pub struct Block<T> {
    /// The payload; present exactly while the strong count is positive.
    pub payload: Option<T>,
    /// How many strong (owning) handles point at this block.
    pub strong: usize,
    /// How many weak (observing) handles point at this block.
    pub weak: usize,
    /// How often the payload's finalizer has run; never more than once.
    pub finalizer_runs: usize,
}

/// The per-block invariant: the payload is live exactly while the strong
/// count is positive, and the finalizer has run exactly once as soon as —
/// and only when — the strong count has reached zero.
pub open spec fn block_inv<T>(b: Block<T>) -> bool {
    &&& b.payload is Some <==> b.strong > 0
    &&& b.finalizer_runs == if b.strong == 0 { 1usize } else { 0usize }
}

/// A block whose payload has been finalized and whose observers are gone:
/// the point at which the block's memory itself is given back.
pub open spec fn block_freed<T>(b: Block<T>) -> bool {
    b.strong == 0 && b.weak == 0
}

/// A strong, owning handle to one block of a [`Heap`].  Move-only: cloning
/// goes through [`Heap::clone_pointer`], release through
/// [`Heap::drop_pointer`].
pub struct SharedPointer {
    index: usize,
}

impl SharedPointer {
    /// The index of the block this handle owns.
    pub closed spec fn id(&self) -> int {
        self.index as int
    }

    /// Reads the block index, for introspection after the handle is spent.
    pub fn index(&self) -> (i: usize)
        ensures
            i == self.id(),
    {
        self.index
    }
}

/// A weak, non-owning handle to one block of a [`Heap`].  It does not keep
/// the payload alive; upgrading yields a strong handle only while other
/// strong handles exist.
pub struct WeakRef {
    index: usize,
}

impl WeakRef {
    /// The index of the block this handle observes.
    pub closed spec fn id(&self) -> int {
        self.index as int
    }

    /// Reads the block index, for introspection after the handle is spent.
    pub fn index(&self) -> (i: usize)
        ensures
            i == self.id(),
    {
        self.index
    }
}

/// The effect of one strong clone (or weak upgrade) on a region: the strong
/// count of block `i` rises by one and nothing else changes.
pub open spec fn clone_effect<T>(s: Seq<Block<T>>, i: int) -> Seq<Block<T>> {
    s.update(i, Block { strong: (s[i].strong + 1) as usize, ..s[i] })
}

/// The effect of releasing one strong handle to block `i`: the strong count
/// falls by one, and at the transition to zero the payload is taken out and
/// the finalizer runs.
pub open spec fn drop_effect<T>(s: Seq<Block<T>>, i: int) -> Seq<Block<T>> {
    if s[i].strong > 1 {
        s.update(i, Block { strong: (s[i].strong - 1) as usize, ..s[i] })
    } else {
        s.update(
            i,
            Block {
                payload: None,
                strong: 0,
                weak: s[i].weak,
                finalizer_runs: (s[i].finalizer_runs + 1) as usize,
            },
        )
    }
}

/// The effect of downgrading a strong handle to block `i`: the weak count
/// rises by one and nothing else changes.
pub open spec fn downgrade_effect<T>(s: Seq<Block<T>>, i: int) -> Seq<Block<T>> {
    s.update(i, Block { weak: (s[i].weak + 1) as usize, ..s[i] })
}

/// The effect of releasing one weak handle to block `i`: the weak count
/// falls by one and nothing else changes.
pub open spec fn drop_weak_effect<T>(s: Seq<Block<T>>, i: int) -> Seq<Block<T>> {
    s.update(i, Block { weak: (s[i].weak - 1) as usize, ..s[i] })
}

/// A region of allocation blocks, the backing store of all [`SharedPointer`]
/// and [`WeakRef`] handles derived from it.  Beside the blocks it keeps the
/// finalization log: the indices of the blocks whose finalizer has run, in
/// the order the finalizers ran.
pub struct Heap<T> {
    blocks: Vec<Block<T>>,
    finalized: Vec<usize>,
}

impl<T> View for Heap<T> {
    type V = Seq<Block<T>>;

    closed spec fn view(&self) -> Seq<Block<T>> {
        self.blocks@
    }
}

impl<T> Heap<T> {
    /// The finalization log: which block was finalized when.
    pub closed spec fn finalization_order(&self) -> Seq<usize> {
        self.finalized@
    }

    /// Every block of the region satisfies the per-block invariant, and the
    /// finalization log names each block whose finalizer has run — exactly
    /// the blocks whose strong count has reached zero — exactly once.
    pub open spec fn wf(&self) -> bool {
        &&& forall|i: int| 0 <= i < self@.len() ==> block_inv(#[trigger] self@[i])
        &&& self.finalization_order().no_duplicates()
        &&& forall|k: int|
            0 <= k < self.finalization_order().len()
                ==> #[trigger] self.finalization_order()[k] < self@.len()
        &&& forall|i: int|
            0 <= i < self@.len() ==> ((#[trigger] self@[i]).strong == 0
                <==> self.finalization_order().contains(i as usize))
    }

    /// `h` is a live strong handle into this region.
    pub open spec fn valid_strong(&self, h: SharedPointer) -> bool {
        0 <= h.id() < self@.len() && self@[h.id()].strong > 0
    }

    /// `w` is a live weak handle into this region.
    pub open spec fn valid_weak(&self, w: WeakRef) -> bool {
        0 <= w.id() < self@.len() && self@[w.id()].weak > 0
    }

    /// An empty region with no blocks and an empty finalization log.
    pub fn new() -> (r: Heap<T>)
        ensures
            r@.len() == 0,
            r.finalization_order().len() == 0,
            r.wf(),
    {
        Heap { blocks: Vec::new(), finalized: Vec::new() }
    }

    /// Places `value` in a fresh block with strong count 1 and weak count 0,
    /// and returns the first strong handle to it.
    pub fn allocate(&mut self, value: T) -> (h: SharedPointer)
        requires
            old(self).wf(),
            old(self)@.len() < usize::MAX,
        ensures
            final(self).wf(),
            h.id() == old(self)@.len(),
            final(self)@.len() == old(self)@.len() + 1,
            forall|j: int| 0 <= j < old(self)@.len() ==> final(self)@[j] == old(self)@[j],
            final(self)@[h.id()].payload == Some(value),
            final(self)@[h.id()].strong == 1,
            final(self)@[h.id()].weak == 0,
            final(self)@[h.id()].finalizer_runs == 0,
            final(self).valid_strong(h),
            final(self).finalization_order() == old(self).finalization_order(),
    {
        let index = self.blocks.len();
        self.blocks.push(Block { payload: Some(value), strong: 1, weak: 0, finalizer_runs: 0 });
        SharedPointer { index }
    }

    /// Creates one more strong handle to the block of `h`, raising its
    /// strong count by one.  The payload is never copied.
    pub fn clone_pointer(&mut self, h: &SharedPointer) -> (r: SharedPointer)
        requires
            old(self).wf(),
            old(self).valid_strong(*h),
            old(self)@[h.id()].strong < usize::MAX,
        ensures
            final(self).wf(),
            r.id() == h.id(),
            final(self)@ == clone_effect(old(self)@, h.id()),
            final(self)@[h.id()].strong == old(self)@[h.id()].strong + 1,
            final(self).valid_strong(*h),
            final(self).valid_strong(r),
            final(self).finalization_order() == old(self).finalization_order(),
    {
        let i = h.index;
        let b = &mut self.blocks[i];
        b.strong = b.strong + 1;
        proof {
            assert(final(self)@ =~= clone_effect(old(self)@, h.id()));
        }
        SharedPointer { index: i }
    }

    /// Gives up the strong handle `h`, lowering the strong count by one.  At
    /// the transition to zero the payload's finalizer runs — exactly here,
    /// exactly once — and the payload is handed back to the caller so that
    /// anything it owned can be torn down in turn.  The block itself stays
    /// until the weak count also reaches zero.
    pub fn drop_pointer(&mut self, h: SharedPointer) -> (r: Option<T>)
        requires
            old(self).wf(),
            old(self).valid_strong(h),
        ensures
            final(self).wf(),
            final(self)@ == drop_effect(old(self)@, h.id()),
            r is Some <==> old(self)@[h.id()].strong == 1,
            old(self)@[h.id()].strong == 1 ==> r == old(self)@[h.id()].payload
                && final(self)@[h.id()].finalizer_runs == old(self)@[h.id()].finalizer_runs + 1,
            old(self)@[h.id()].strong > 1 ==> final(self)@[h.id()].strong == old(self)@[
                h.id()
            ].strong - 1 && final(self)@[h.id()].payload == old(self)@[h.id()].payload,
            final(self)@[h.id()].weak == old(self)@[h.id()].weak,
            old(self)@[h.id()].strong == 1 ==> final(self).finalization_order() == old(
                self,
            ).finalization_order().push((h.id()) as usize),
            old(self)@[h.id()].strong > 1 ==> final(self).finalization_order() == old(
                self,
            ).finalization_order(),
    {
        let i = h.index;
        let b = &mut self.blocks[i];
        if b.strong == 1 {
            b.strong = 0;
            b.finalizer_runs = b.finalizer_runs + 1;
            let payload = b.payload.take();
            self.finalized.push(i);
            proof {
                assert(self@ =~= drop_effect(old(self)@, h.id()));
                lemma_log_extends(old(self).finalization_order(), i);
                assert forall|j: int|
                    0 <= j < self@.len() implies ((#[trigger] self@[j]).strong == 0
                    <==> self.finalization_order().contains(j as usize)) by {
                    vstd::std_specs::vec::axiom_spec_len(&self.blocks);
                    let log = old(self).finalization_order();
                    vstd::seq_lib::lemma_seq_contains_after_push(log, i, j as usize);
                    if j == h.id() {
                        assert(self.finalization_order().contains(i));
                    } else {
                        assert(self@[j] == old(self)@[j]);
                        assert(old(self)@[j].strong == 0 <==> log.contains(j as usize));
                    }
                }
            }
            payload
        } else {
            b.strong = b.strong - 1;
            proof {
                assert(final(self)@ =~= drop_effect(old(self)@, h.id()));
            }
            None
        }
    }

    /// Creates a weak handle to the block of `h`, raising its weak count by
    /// one.  The strong count — and so the payload's lifetime — is untouched.
    pub fn downgrade(&mut self, h: &SharedPointer) -> (w: WeakRef)
        requires
            old(self).wf(),
            old(self).valid_strong(*h),
            old(self)@[h.id()].weak < usize::MAX,
        ensures
            final(self).wf(),
            w.id() == h.id(),
            final(self)@ == downgrade_effect(old(self)@, h.id()),
            final(self)@[h.id()].weak == old(self)@[h.id()].weak + 1,
            final(self).valid_strong(*h),
            final(self).valid_weak(w),
            final(self).finalization_order() == old(self).finalization_order(),
    {
        let i = h.index;
        let b = &mut self.blocks[i];
        b.weak = b.weak + 1;
        proof {
            assert(final(self)@ =~= downgrade_effect(old(self)@, h.id()));
        }
        WeakRef { index: i }
    }

    /// Tries to turn the weak handle into a strong one.  While the payload
    /// is still live this succeeds and raises the strong count by one;
    /// once the payload has been finalized it yields `None` — a defined,
    /// expected outcome, never a crash.
    pub fn upgrade(&mut self, w: &WeakRef) -> (r: Option<SharedPointer>)
        requires
            old(self).wf(),
            old(self).valid_weak(*w),
            old(self)@[w.id()].strong < usize::MAX,
        ensures
            final(self).wf(),
            r is Some <==> old(self)@[w.id()].strong > 0,
            old(self)@[w.id()].strong == 0 ==> final(self)@ == old(self)@,
            r matches Some(h) ==> h.id() == w.id() && final(self)@ == clone_effect(
                old(self)@,
                w.id(),
            ) && final(self).valid_strong(h),
            final(self).valid_weak(*w),
            final(self).finalization_order() == old(self).finalization_order(),
    {
        let i = w.index;
        let b = &mut self.blocks[i];
        if b.strong == 0 {
            proof {
                assert(final(self)@ =~= old(self)@);
            }
            None
        } else {
            b.strong = b.strong + 1;
            proof {
                assert(final(self)@ =~= clone_effect(old(self)@, w.id()));
            }
            Some(SharedPointer { index: i })
        }
    }

    /// Gives up the weak handle `w`, lowering the weak count by one.  Once
    /// both counts are zero the block is freed.
    pub fn drop_weak(&mut self, w: WeakRef)
        requires
            old(self).wf(),
            old(self).valid_weak(w),
        ensures
            final(self).wf(),
            final(self)@ == drop_weak_effect(old(self)@, w.id()),
            final(self)@[w.id()].weak == old(self)@[w.id()].weak - 1,
            final(self).finalization_order() == old(self).finalization_order(),
    {
        let i = w.index;
        let b = &mut self.blocks[i];
        b.weak = b.weak - 1;
        proof {
            assert(final(self)@ =~= drop_weak_effect(old(self)@, w.id()));
        }
    }

    /// Reads the payload behind a live strong handle.
    pub fn read(&self, h: &SharedPointer) -> (r: &T)
        requires
            self.wf(),
            self.valid_strong(*h),
        ensures
            Some(*r) == self@[h.id()].payload,
    {
        match &self.blocks[h.index].payload {
            Some(v) => v,
            None => vstd::pervasive::unreached(),
        }
    }

    /// Replaces the payload behind a live strong handle, returning the old
    /// payload.  The counters are untouched.  All payload mutation flows
    /// through the region's single `&mut` owner, so the aliasing that would
    /// call for an interior-mutability cell cannot arise here.
    pub fn replace(&mut self, h: &SharedPointer, value: T) -> (r: T)
        requires
            old(self).wf(),
            old(self).valid_strong(*h),
        ensures
            final(self).wf(),
            Some(r) == old(self)@[h.id()].payload,
            final(self)@ == old(self)@.update(
                h.id(),
                (Block { payload: Some(value), ..old(self)@[h.id()] }),
            ),
            final(self).valid_strong(*h),
            final(self).finalization_order() == old(self).finalization_order(),
    {
        let i = h.index;
        let b = &mut self.blocks[i];
        let mut slot = Some(value);
        core::mem::swap(&mut b.payload, &mut slot);
        proof {
            assert(final(self)@ =~= old(self)@.update(
                h.id(),
                (Block { payload: Some(value), ..old(self)@[h.id()] }),
            ));
        }
        match slot {
            Some(v) => v,
            None => vstd::pervasive::unreached(),
        }
    }

    /// The exact strong count of the block of `h`, immediately consistent
    /// after every clone, drop, downgrade and upgrade.
    pub fn strong_count(&self, h: &SharedPointer) -> (r: usize)
        requires
            self.valid_strong(*h),
        ensures
            r == self@[h.id()].strong,
    {
        self.blocks[h.index].strong
    }

    /// The exact weak count of the block of `h`.
    pub fn weak_count(&self, h: &SharedPointer) -> (r: usize)
        requires
            self.valid_strong(*h),
        ensures
            r == self@[h.id()].weak,
    {
        self.blocks[h.index].weak
    }

    /// How many blocks the region holds, freed ones included.
    pub fn block_count(&self) -> (r: usize)
        ensures
            r == self@.len(),
    {
        self.blocks.len()
    }

    /// The strong count of the block at `index`, usable for introspection
    /// even after every handle to the block has been spent.
    pub fn strong_count_at(&self, index: usize) -> (r: usize)
        requires
            index < self@.len(),
        ensures
            r == self@[index as int].strong,
    {
        self.blocks[index].strong
    }

    /// The weak count of the block at `index`.
    pub fn weak_count_at(&self, index: usize) -> (r: usize)
        requires
            index < self@.len(),
        ensures
            r == self@[index as int].weak,
    {
        self.blocks[index].weak
    }

    /// How often the finalizer of the block at `index` has run.
    pub fn finalizer_runs_at(&self, index: usize) -> (r: usize)
        requires
            index < self@.len(),
        ensures
            r == self@[index as int].finalizer_runs,
    {
        self.blocks[index].finalizer_runs
    }

    /// The finalization log: the indices of the blocks whose finalizer has
    /// run, in the order the finalizers ran.
    pub fn finalization_log(&self) -> (r: &Vec<usize>)
        ensures
            r@ == self.finalization_order(),
    {
        &self.finalized
    }

    /// Whether the block at `index` has been freed: payload finalized and
    /// all observers gone.
    pub fn is_freed_at(&self, index: usize) -> (r: bool)
        requires
            index < self@.len(),
        ensures
            r == block_freed(self@[index as int]),
    {
        self.blocks[index].strong == 0 && self.blocks[index].weak == 0
    }
}

/// Extending the finalization log by an index it does not yet hold keeps it
/// duplicate-free.
proof fn lemma_log_extends(log: Seq<usize>, i: usize)
    requires
        log.no_duplicates(),
        !log.contains(i),
    ensures
        log.push(i).no_duplicates(),
{
    let extended = log.push(i);
    assert forall|p: int, q: int|
        0 <= p < extended.len() && 0 <= q < extended.len() && p != q implies extended[p]
        != extended[q] by {
        if p < log.len() && q < log.len() {
            assert(extended[p] == log[p]);
            assert(extended[q] == log[q]);
        } else if q == log.len() {
            assert(extended[q] == i);
            assert(extended[p] == log[p]);
            if log[p] == i {
                assert(log.contains(i));
            }
        } else {
            assert(extended[p] == i);
            assert(extended[q] == log[q]);
            if log[q] == i {
                assert(log.contains(i));
            }
        }
    }
}

/// The region after `n` successive strong clones of block `i`.
pub open spec fn clone_n<T>(s: Seq<Block<T>>, i: int, n: nat) -> Seq<Block<T>>
    decreases n,
{
    if n == 0 {
        s
    } else {
        clone_effect(clone_n(s, i, (n - 1) as nat), i)
    }
}

/// The region after `n` successive strong releases of block `i`.
pub open spec fn drop_n<T>(s: Seq<Block<T>>, i: int, n: nat) -> Seq<Block<T>>
    decreases n,
{
    if n == 0 {
        s
    } else {
        drop_n(drop_effect(s, i), i, (n - 1) as nat)
    }
}

/// After `n` clones, the strong count of block `i` has risen by exactly `n`
/// and nothing else in the region has changed.
pub proof fn lemma_clone_n_strong<T>(s: Seq<Block<T>>, i: int, n: nat)
    requires
        0 <= i < s.len(),
        s[i].strong + n <= usize::MAX,
    ensures
        clone_n(s, i, n).len() == s.len(),
        clone_n(s, i, n)[i].strong == s[i].strong + n,
        clone_n(s, i, n)[i].payload == s[i].payload,
        clone_n(s, i, n)[i].weak == s[i].weak,
        clone_n(s, i, n)[i].finalizer_runs == s[i].finalizer_runs,
        forall|j: int| 0 <= j < s.len() && j != i ==> clone_n(s, i, n)[j] == s[j],
    decreases n,
{
    if n > 0 {
        lemma_clone_n_strong(s, i, (n - 1) as nat);
    }
}

/// Law: cloning a shared pointer `n` times and then giving those `n` handles
/// back returns the region — strong count included — to exactly the state it
/// had before the first clone.  The counts cannot go negative along the way:
/// every intermediate strong count stays at or above its starting value.
pub proof fn lemma_clone_drop_round_trip<T>(s: Seq<Block<T>>, i: int, n: nat)
    requires
        0 <= i < s.len(),
        s[i].strong >= 1,
        s[i].strong + n <= usize::MAX,
    ensures
        drop_n(clone_n(s, i, n), i, n) == s,
    decreases n,
{
    if n > 0 {
        let prev = clone_n(s, i, (n - 1) as nat);
        lemma_clone_n_strong(s, i, (n - 1) as nat);
        assert(drop_effect(clone_effect(prev, i), i) =~= prev);
        lemma_drop_after_clones_commutes(s, i, (n - 1) as nat);
        lemma_clone_drop_round_trip(s, i, (n - 1) as nat);
    }
}

/// Dropping the handle made by the latest of `n + 1` clones undoes exactly
/// that clone: the drop commutes past the earlier clones.
proof fn lemma_drop_after_clones_commutes<T>(s: Seq<Block<T>>, i: int, n: nat)
    requires
        0 <= i < s.len(),
        s[i].strong >= 1,
        s[i].strong + n + 1 <= usize::MAX,
    ensures
        drop_n(clone_effect(clone_n(s, i, n), i), i, n + 1) == drop_n(clone_n(s, i, n), i, n),
    decreases n,
{
    lemma_clone_n_strong(s, i, n);
    let c = clone_n(s, i, n);
    assert(drop_effect(clone_effect(c, i), i) =~= c);
    assert(drop_n(clone_effect(c, i), i, n + 1) == drop_n(c, i, n));
}

/// Law: giving back every strong handle of a block — and no more than
/// exist — finalizes the payload exactly once: the strong count reaches
/// zero, the payload is gone, the finalizer counter has risen by exactly
/// one, and the weak count is untouched.
pub proof fn lemma_drop_all_strong_finalizes<T>(s: Seq<Block<T>>, i: int)
    requires
        0 <= i < s.len(),
        s[i].strong >= 1,
        s[i].finalizer_runs < usize::MAX,
    ensures
        drop_n(s, i, s[i].strong as nat).len() == s.len(),
        drop_n(s, i, s[i].strong as nat)[i].strong == 0,
        drop_n(s, i, s[i].strong as nat)[i].payload is None,
        drop_n(s, i, s[i].strong as nat)[i].finalizer_runs == s[i].finalizer_runs + 1,
        drop_n(s, i, s[i].strong as nat)[i].weak == s[i].weak,
        forall|j: int|
            0 <= j < s.len() && j != i ==> drop_n(s, i, s[i].strong as nat)[j] == s[j],
    decreases s[i].strong,
{
    if s[i].strong == 1 {
        assert(drop_n(s, i, 1) == drop_n(drop_effect(s, i), i, 0));
        assert(drop_n(drop_effect(s, i), i, 0) == drop_effect(s, i));
        assert(forall|j: int|
            0 <= j < s.len() && j != i ==> drop_effect(s, i)[j] == s[j]);
    } else {
        assert(drop_n(s, i, s[i].strong as nat) == drop_n(
            drop_effect(s, i),
            i,
            (s[i].strong - 1) as nat,
        ));
        lemma_drop_all_strong_finalizes(drop_effect(s, i), i);
    }
}

/// Law: while the region is well-formed, the finalizer of any block has run
/// at most once, and it has run exactly once precisely when the block's
/// strong count has reached zero.  Every operation of [`Heap`] preserves
/// well-formedness, so a double finalization is unreachable through the
/// public contract.
pub proof fn lemma_finalizer_exactly_once<T>(h: &Heap<T>, i: int)
    requires
        h.wf(),
        0 <= i < h@.len(),
    ensures
        h@[i].finalizer_runs <= 1,
        h@[i].finalizer_runs == 1 <==> h@[i].strong == 0,
{
}

} // verus!
