use vstd::prelude::*;

verus! {

/// A fixed-capacity circular sequence over storage handed in at creation.
///
/// The logical elements occupy the slots from `first` (inclusive) to `last`
/// (exclusive), wrapping around the end of the storage; `first == last` means
/// empty unless `full` is set.
pub struct RingBuffer<T> {
    buffer: Vec<T>,
    first: usize,
    last: usize,
    full: bool,
}

/// The slot that holds logical position `i` of a buffer whose first element
/// sits in slot `first`, for a storage of `cap` slots.
pub open spec fn slot_of(first: int, i: int, cap: int) -> int {
    if first + i < cap {
        first + i
    } else {
        first + i - cap
    }
}

impl<T> RingBuffer<T> {
    /// Number of slots of the storage.
    pub closed spec fn capacity(&self) -> nat {
        self.buffer@.len()
    }

    /// Number of logical elements.
    pub closed spec fn spec_len(&self) -> nat {
        if self.full {
            self.buffer@.len()
        } else if self.first <= self.last {
            (self.last - self.first) as nat
        } else {
            (self.buffer@.len() - self.first + self.last) as nat
        }
    }

    /// The storage and indices are consistent.
    pub closed spec fn wf(&self) -> bool {
        &&& self.buffer@.len() > 0
        &&& self.first < self.buffer@.len()
        &&& self.last < self.buffer@.len()
        &&& self.full ==> self.first == self.last
    }
}

impl<T> View for RingBuffer<T> {
    type V = Seq<T>;

    /// The logical elements, first to last.
    closed spec fn view(&self) -> Seq<T> {
        Seq::new(
            self.spec_len(),
            |i: int| self.buffer@[slot_of(self.first as int, i, self.buffer@.len() as int)],
        )
    }
}

impl<T: Copy> RingBuffer<T> {
    /// Create an empty ring buffer that uses `buffer` as its storage; its
    /// capacity is the length of `buffer`.
    pub fn new(buffer: Vec<T>) -> (r: Self)
        requires
            buffer@.len() > 0,
        ensures
            r.wf(),
            r@ == Seq::<T>::empty(),
            r.capacity() == buffer@.len(),
    {
        let r = RingBuffer { buffer, first: 0, last: 0, full: false };
        assert(r@ =~= Seq::<T>::empty());
        r
    }

    /// Whether the buffer holds no element.
    pub fn is_empty(&self) -> (r: bool)
        requires
            self.wf(),
        ensures
            r == (self@.len() == 0),
    {
        self.first == self.last && !self.full
    }

    /// Whether every slot of the storage holds an element.
    pub fn is_full(&self) -> (r: bool)
        requires
            self.wf(),
        ensures
            r == (self@.len() == self.capacity()),
    {
        self.first == self.last && self.full
    }

    /// A well-formed buffer holds at most as many elements as it has slots.
    pub proof fn lemma_len_bound(&self)
        requires
            self.wf(),
        ensures
            self@.len() <= self.capacity(),
    {
    }

    /// Number of elements held.
    pub fn len(&self) -> (r: usize)
        requires
            self.wf(),
        ensures
            r == self@.len(),
    {
        if self.full {
            self.buffer.len()
        } else if self.first <= self.last {
            self.last - self.first
        } else {
            self.buffer.len() - self.first + self.last
        }
    }

    /// Number of slots of the storage.
    pub fn capacity_of(&self) -> (r: usize)
        requires
            self.wf(),
        ensures
            r == self.capacity(),
    {
        self.buffer.len()
    }

    /// Put `element` after the last element.
    pub fn append(&mut self, element: T)
        requires
            old(self).wf(),
            old(self)@.len() < old(self).capacity(),
        ensures
            final(self).wf(),
            final(self).capacity() == old(self).capacity(),
            final(self)@ == old(self)@.push(element),
    {
        let cap: usize = self.buffer.len();
        let pos: usize = self.last;
        self.buffer.set(pos, element);
        let new_last: usize = if pos + 1 == cap { 0 } else { pos + 1 };
        self.last = new_last;
        if new_last == self.first {
            self.full = true;
        }
        assert(self@ =~= old(self)@.push(element));
    }

    /// Put `element` before the first element.
    pub fn prepend(&mut self, element: T)
        requires
            old(self).wf(),
            old(self)@.len() < old(self).capacity(),
        ensures
            final(self).wf(),
            final(self).capacity() == old(self).capacity(),
            final(self)@ == seq![element] + old(self)@,
    {
        let cap: usize = self.buffer.len();
        let new_first: usize = if self.first == 0 { cap - 1 } else { self.first - 1 };
        self.buffer.set(new_first, element);
        self.first = new_first;
        if new_first == self.last {
            self.full = true;
        }
        assert(self@ =~= seq![element] + old(self)@);
    }

    /// The first element.
    pub fn peek_first(&self) -> (r: &T)
        requires
            self.wf(),
            self@.len() > 0,
        ensures
            *r == self@[0],
    {
        &self.buffer[self.first]
    }

    /// The last element.
    pub fn peek_last(&self) -> (r: &T)
        requires
            self.wf(),
            self@.len() > 0,
        ensures
            *r == self@.last(),
    {
        let pos: usize = if self.last == 0 { self.buffer.len() - 1 } else { self.last - 1 };
        &self.buffer[pos]
    }

    /// The element at logical position `i`. Positions past the last element
    /// name a slot that holds no element; the caller keeps `i` below the
    /// length to get an element.
    pub fn peek_ith(&self, i: usize) -> (r: &T)
        requires
            self.wf(),
            self@.len() > 0,
            i < self.capacity(),
        ensures
            i < self@.len() ==> *r == self@[i as int],
    {
        let cap: usize = self.buffer.len();
        let pos: usize = if i < cap - self.first { self.first + i } else { i - (cap - self.first) };
        &self.buffer[pos]
    }

    /// Remove the first element and return it.
    pub fn pop_first(&mut self) -> (r: T)
        requires
            old(self).wf(),
            old(self)@.len() > 0,
        ensures
            final(self).wf(),
            final(self).capacity() == old(self).capacity(),
            r == old(self)@[0],
            final(self)@ == old(self)@.drop_first(),
    {
        let element = self.buffer[self.first];
        let cap: usize = self.buffer.len();
        self.first = if self.first + 1 == cap { 0 } else { self.first + 1 };
        self.full = false;
        assert(self@ =~= old(self)@.drop_first());
        element
    }

    /// Remove the last element and return it.
    pub fn pop_last(&mut self) -> (r: T)
        requires
            old(self).wf(),
            old(self)@.len() > 0,
        ensures
            final(self).wf(),
            final(self).capacity() == old(self).capacity(),
            r == old(self)@.last(),
            final(self)@ == old(self)@.drop_last(),
    {
        let cap: usize = self.buffer.len();
        self.last = if self.last == 0 { cap - 1 } else { self.last - 1 };
        self.full = false;
        assert(self@ =~= old(self)@.drop_last());
        self.buffer[self.last]
    }
}

/// The overlapping windows of three consecutive elements of `s`, in order.
pub open spec fn triples<T>(s: Seq<T>) -> Seq<(T, T, T)> {
    Seq::new(
        if s.len() >= 2 { (s.len() - 2) as nat } else { 0 },
        |i: int| (s[i], s[i + 1], s[i + 2]),
    )
}

impl<T: Copy> RingBuffer<T> {
    /// A cursor over the windows of three consecutive elements, from the first
    /// element on.
    pub fn triple_iter<'b>(&'b self) -> (r: RingBufferTripletsIterator<'b, T>)
        requires
            self.wf(),
            self@.len() >= 3,
        ensures
            r.wf(),
            r.items() == self@,
            r.position() == 0,
    {
        RingBufferTripletsIterator { ring_buffer: self, current_index: 0 }
    }
}

/// A cursor over the windows `(prev, current, next)` of a ring buffer.
pub struct RingBufferTripletsIterator<'a, T> {
    ring_buffer: &'a RingBuffer<T>,
    current_index: usize,
}

impl<'a, T> RingBufferTripletsIterator<'a, T> {
    /// The elements of the buffer walked over.
    pub closed spec fn items(&self) -> Seq<T> {
        self.ring_buffer@
    }

    /// Logical position of the first element of the next window.
    pub closed spec fn position(&self) -> nat {
        self.current_index as nat
    }

    /// The cursor has not gone past the last window.
    pub closed spec fn wf(&self) -> bool {
        &&& self.ring_buffer.wf()
        &&& self.current_index <= self.ring_buffer@.len()
    }
}

impl<'a, T: Copy> RingBufferTripletsIterator<'a, T> {
    /// The next window, or `None` once the third element of the window would
    /// lie past the last element.
    pub fn next(&mut self) -> (r: Option<(T, T, T)>)
        requires
            old(self).wf(),
        ensures
            final(self).wf(),
            final(self).items() == old(self).items(),
            old(self).position() + 2 < old(self).items().len() ==> {
                &&& r == Some(triples(old(self).items())[old(self).position() as int])
                &&& final(self).position() == old(self).position() + 1
            },
            old(self).position() + 2 >= old(self).items().len() ==> {
                &&& r.is_none()
                &&& final(self).position() == old(self).position()
            },
    {
        let len: usize = self.ring_buffer.len();
        if len < 3 || self.current_index >= len - 2 {
            return None;
        }
        let i: usize = self.current_index;
        let prev = *self.ring_buffer.peek_ith(i);
        let current = *self.ring_buffer.peek_ith(i + 1);
        let next = *self.ring_buffer.peek_ith(i + 2);
        self.current_index = i + 1;
        Some((prev, current, next))
    }
}

/// A call that changes a ring buffer.
#[derive(Debug)]
pub enum BufferOp<T> {
    Append(T),
    Prepend(T),
    PopFirst,
    PopLast,
}

/// The elements after `op` on a buffer holding `s`, as the call's contract states it.
pub open spec fn apply_op<T>(s: Seq<T>, op: BufferOp<T>) -> Seq<T> {
    match op {
        BufferOp::Append(e) => s.push(e),
        BufferOp::Prepend(e) => seq![e] + s,
        BufferOp::PopFirst => s.drop_first(),
        BufferOp::PopLast => s.drop_last(),
    }
}

/// `op` may be called on a buffer of capacity `cap` holding `s`: an insert
/// needs a free slot, a removal an element.
pub open spec fn op_allowed<T>(s: Seq<T>, op: BufferOp<T>, cap: nat) -> bool {
    match op {
        BufferOp::Append(_) | BufferOp::Prepend(_) => s.len() < cap,
        BufferOp::PopFirst | BufferOp::PopLast => s.len() > 0,
    }
}

/// The elements after the calls `ops`, in order, on a buffer holding `s`.
pub open spec fn run_ops<T>(s: Seq<T>, ops: Seq<BufferOp<T>>) -> Seq<T>
    decreases ops.len(),
{
    if ops.len() == 0 {
        s
    } else {
        apply_op(run_ops(s, ops.drop_last()), ops.last())
    }
}

/// Each call of `ops` may be made in turn on a buffer of capacity `cap` holding `s`.
pub open spec fn ops_allowed<T>(s: Seq<T>, ops: Seq<BufferOp<T>>, cap: nat) -> bool
    decreases ops.len(),
{
    if ops.len() == 0 {
        true
    } else {
        ops_allowed(s, ops.drop_last(), cap) && op_allowed(run_ops(s, ops.drop_last()), ops.last(), cap)
    }
}

/// The call inserts an element.
pub open spec fn is_insert<T>(op: BufferOp<T>) -> bool {
    op is Append || op is Prepend
}

/// Number of inserts among `ops`.
pub open spec fn insert_count<T>(ops: Seq<BufferOp<T>>) -> nat
    decreases ops.len(),
{
    if ops.len() == 0 {
        0
    } else {
        insert_count(ops.drop_last()) + if is_insert(ops.last()) { 1nat } else { 0nat }
    }
}

/// Number of removals among `ops`.
pub open spec fn pop_count<T>(ops: Seq<BufferOp<T>>) -> nat
    decreases ops.len(),
{
    if ops.len() == 0 {
        0
    } else {
        pop_count(ops.drop_last()) + if is_insert(ops.last()) { 0nat } else { 1nat }
    }
}

/// What `n` calls of `pop_first` return, in order, from a buffer holding `s`.
pub open spec fn drain_first<T>(s: Seq<T>, n: nat) -> Seq<T>
    decreases n,
{
    if n == 0 || s.len() == 0 {
        Seq::empty()
    } else {
        seq![s[0]] + drain_first(s.drop_first(), (n - 1) as nat)
    }
}

/// After any sequence of allowed calls, the buffer holds as many elements as
/// it held before, plus the inserts, minus the removals, and never more than
/// its capacity.
pub proof fn lemma_length_counts<T>(s: Seq<T>, ops: Seq<BufferOp<T>>, cap: nat)
    requires
        s.len() <= cap,
        ops_allowed(s, ops, cap),
    ensures
        run_ops(s, ops).len() == s.len() + insert_count(ops) - pop_count(ops),
        run_ops(s, ops).len() <= cap,
    decreases ops.len(),
{
    if ops.len() > 0 {
        lemma_length_counts(s, ops.drop_last(), cap);
    }
}

/// Elements appended one after the other to an empty buffer come back from
/// `pop_first` in the order they went in.
pub proof fn lemma_fifo<T>(xs: Seq<T>, cap: nat)
    requires
        xs.len() <= cap,
    ensures
        ops_allowed(Seq::empty(), xs.map_values(|x: T| BufferOp::Append(x)), cap),
        run_ops(Seq::empty(), xs.map_values(|x: T| BufferOp::Append(x))) == xs,
        drain_first(xs, xs.len()) == xs,
    decreases xs.len(),
{
    let ops = xs.map_values(|x: T| BufferOp::Append(x));
    if xs.len() > 0 {
        let rest = xs.drop_last();
        lemma_fifo(rest, cap);
        assert(ops.drop_last() =~= rest.map_values(|x: T| BufferOp::Append(x)));
        assert(rest.push(xs.last()) =~= xs);
        lemma_drain_all(xs);
    }
}

/// Popping every element from the front returns them all, in order.
proof fn lemma_drain_all<T>(s: Seq<T>)
    ensures
        drain_first(s, s.len()) == s,
    decreases s.len(),
{
    if s.len() > 0 {
        lemma_drain_all(s.drop_first());
        assert(seq![s[0]] + s.drop_first() =~= s);
    }
}

/// `append` followed at once by `pop_last` hands back the appended element
/// and leaves the buffer as it was.
pub proof fn lemma_append_then_pop_last<T>(s: Seq<T>, e: T, cap: nat)
    requires
        s.len() < cap,
    ensures
        ops_allowed(s, seq![BufferOp::Append(e), BufferOp::PopLast], cap),
        apply_op(s, BufferOp::Append(e)).last() == e,
        run_ops(s, seq![BufferOp::Append(e), BufferOp::PopLast]) == s,
{
    let ops = seq![BufferOp::Append(e), BufferOp::PopLast];
    let first = ops.drop_last();
    assert(first =~= seq![BufferOp::Append(e)]);
    assert(first.drop_last() =~= Seq::<BufferOp<T>>::empty());
    assert(first.last() == BufferOp::Append(e));
    assert(ops.last() == BufferOp::<T>::PopLast);
    assert(run_ops(s, first.drop_last()) == s);
    assert(run_ops(s, first) == s.push(e));
    assert(ops_allowed(s, first.drop_last(), cap));
    assert(op_allowed(s, BufferOp::Append(e), cap));
    assert(ops_allowed(s, first, cap));
    assert(s.push(e).drop_last() =~= s);
}

/// Exactly `cap` inserts, appends or prepends in any mix, fill an empty
/// buffer of capacity `cap`, after which no further insert is allowed.
pub proof fn lemma_fill<T>(ops: Seq<BufferOp<T>>, cap: nat, e: T)
    requires
        ops.len() == cap,
        forall|i: int| 0 <= i < ops.len() ==> is_insert(#[trigger] ops[i]),
    ensures
        ops_allowed(Seq::empty(), ops, cap),
        run_ops(Seq::<T>::empty(), ops).len() == cap,
        !op_allowed(run_ops(Seq::<T>::empty(), ops), BufferOp::Append(e), cap),
        !op_allowed(run_ops(Seq::<T>::empty(), ops), BufferOp::Prepend(e), cap),
{
    lemma_inserts_grow(ops, cap);
}

/// Inserts alone on an empty buffer are allowed while they fit, and each adds one element.
proof fn lemma_inserts_grow<T>(ops: Seq<BufferOp<T>>, cap: nat)
    requires
        ops.len() <= cap,
        forall|i: int| 0 <= i < ops.len() ==> is_insert(#[trigger] ops[i]),
    ensures
        ops_allowed(Seq::empty(), ops, cap),
        run_ops(Seq::<T>::empty(), ops).len() == ops.len(),
    decreases ops.len(),
{
    if ops.len() > 0 {
        let rest = ops.drop_last();
        assert forall|i: int| 0 <= i < rest.len() implies is_insert(#[trigger] rest[i]) by {
            assert(rest[i] == ops[i]);
        }
        lemma_inserts_grow(rest, cap);
        assert(is_insert(ops[ops.len() - 1]));
    }
}

} // verus!
