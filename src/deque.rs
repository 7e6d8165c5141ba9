use std::collections::VecDeque;
use vstd::arithmetic::div_mod::{lemma_fundamental_div_mod, lemma_fundamental_div_mod_converse};
use vstd::prelude::*;

verus! {

/// Failures reported by the container and its cursors.
#[derive(Clone, Copy, Debug, PartialEq, Eq, Structural)]
pub enum DequeError {
    /// A pop from a container with no elements.
    EmptyContainer,
    /// An index that resolves outside `[0, len)`.
    OutOfRange,
    /// An insertion into a container that is at its capacity.
    Full,
    /// A value that the container does not hold.
    NotFound,
    /// The container changed while a scan or a cursor was using it.
    ConcurrentMutation,
    /// An argument of the wrong kind, such as a negative capacity.
    TypeMismatch,
    /// A result whose length cannot be represented.
    SizeOverflow,
}

/// The last `cap` elements of `s`, or all of `s` when it is shorter.
pub open spec fn keep_last(s: Seq<i64>, cap: nat) -> Seq<i64> {
    if s.len() <= cap {
        s
    } else {
        s.subrange(s.len() - cap, s.len() as int)
    }
}

/// The first `cap` elements of `s`, or all of `s` when it is shorter.
pub open spec fn keep_first(s: Seq<i64>, cap: nat) -> Seq<i64> {
    if s.len() <= cap {
        s
    } else {
        s.subrange(0, cap as int)
    }
}

/// `s` trimmed from the front to fit an optional capacity.
pub open spec fn bound_tail(s: Seq<i64>, cap: Option<usize>) -> Seq<i64> {
    match cap {
        Some(c) => keep_last(s, c as nat),
        None => s,
    }
}

/// `s` trimmed from the back to fit an optional capacity.
pub open spec fn bound_head(s: Seq<i64>, cap: Option<usize>) -> Seq<i64> {
    match cap {
        Some(c) => keep_first(s, c as nat),
        None => s,
    }
}

/// Whether a sequence of length `len` respects an optional capacity.
pub open spec fn fits(len: nat, cap: Option<usize>) -> bool {
    match cap {
        Some(c) => len <= c,
        None => true,
    }
}

/// The generation that follows `g`; it wraps around at the top of `usize`.
pub open spec fn next_generation(g: usize) -> usize {
    if g == usize::MAX {
        0
    } else {
        (g + 1) as usize
    }
}

/// The position that a signed index names in a sequence of length `len`:
/// a negative index counts from the back.
pub open spec fn resolve(idx: int, len: nat) -> Option<int> {
    let i = if idx < 0 { len + idx } else { idx };
    if 0 <= i < len {
        Some(i)
    } else {
        None
    }
}

/// What reading index `idx` of `s` gives.
pub open spec fn get_spec(s: Seq<i64>, idx: int) -> Result<i64, DequeError> {
    match resolve(idx, s.len()) {
        Some(i) => Ok(s[i]),
        None => Err(DequeError::OutOfRange),
    }
}

/// Where an insertion at `idx` lands: indices out of range are clamped.
pub open spec fn insert_position(idx: int, len: nat) -> int {
    if idx < 0 {
        if len + idx < 0 {
            0
        } else {
            len + idx
        }
    } else if idx > len {
        len as int
    } else {
        idx
    }
}

/// `s` rotated `n` steps to the right (to the left when `n` is negative).
pub open spec fn rotated(s: Seq<i64>, n: int) -> Seq<i64> {
    if s.len() == 0 {
        s
    } else {
        let r = n % (s.len() as int);
        s.subrange(s.len() - r, s.len() as int) + s.subrange(0, s.len() - r)
    }
}

/// `s` in reverse order.
pub open spec fn reversed(s: Seq<i64>) -> Seq<i64> {
    Seq::new(s.len(), |i: int| s[s.len() - 1 - i])
}

/// How many times `x` occurs in `s`.
pub open spec fn occurrences(s: Seq<i64>, x: i64) -> nat
    decreases s.len(),
{
    if s.len() == 0 {
        0
    } else {
        occurrences(s.drop_last(), x) + if s.last() == x {
            1nat
        } else {
            0nat
        }
    }
}

/// Where a slice bound lands in `[0, len]`: a negative bound counts from the
/// back, and both ends saturate.
pub open spec fn saturate(i: int, len: nat) -> int {
    if i < 0 {
        if len + i < 0 {
            0
        } else {
            len + i
        }
    } else if i > len {
        len as int
    } else {
        i
    }
}

/// `i` is the first position in `[lo, hi)` where `s` holds `x`.
pub open spec fn first_match(s: Seq<i64>, x: i64, lo: int, hi: int, i: int) -> bool {
    &&& lo <= i < hi
    &&& s[i] == x
    &&& forall|j: int| lo <= j < i ==> s[j] != x
}

/// `s` holds no `x` in `[lo, hi)`.
pub open spec fn no_match(s: Seq<i64>, x: i64, lo: int, hi: int) -> bool {
    forall|j: int| lo <= j < hi ==> s[j] != x
}

/// `n` copies of `s` laid end to end.
pub open spec fn repeated(s: Seq<i64>, n: nat) -> Seq<i64> {
    Seq::new(n * s.len(), |k: int| s[k % (s.len() as int)])
}

/// How many copies a repetition by `n` makes: none when `n` is not positive.
pub open spec fn repeat_count(n: int) -> nat {
    if n <= 0 {
        0
    } else {
        n as nat
    }
}

/// Whether repeating `len` elements `n` times gives a length beyond `isize::MAX`.
pub open spec fn repeat_overflows(len: nat, n: int) -> bool {
    repeat_count(n) * len > isize::MAX
}

/// Lexicographic comparison of two sequences: negative, zero or positive as
/// `a` sorts before, equal to or after `b`.
pub open spec fn lex_cmp(a: Seq<i64>, b: Seq<i64>) -> int
    decreases a.len(),
{
    if a.len() == 0 {
        if b.len() == 0 {
            0
        } else {
            -1
        }
    } else if b.len() == 0 {
        1
    } else if a[0] < b[0] {
        -1
    } else if a[0] > b[0] {
        1
    } else {
        lex_cmp(a.drop_first(), b.drop_first())
    }
}

/// A relational operator.
#[derive(Clone, Copy, Debug, PartialEq, Eq, Structural)]
pub enum CompareOp {
    Lt,
    Le,
    Eq,
    Ne,
    Gt,
    Ge,
}

/// The outcome of `a op b` under lexicographic order.
pub open spec fn compare_spec(a: Seq<i64>, b: Seq<i64>, op: CompareOp) -> bool {
    let c = lex_cmp(a, b);
    match op {
        CompareOp::Lt => c < 0,
        CompareOp::Le => c <= 0,
        CompareOp::Eq => c == 0,
        CompareOp::Ne => c != 0,
        CompareOp::Gt => c > 0,
        CompareOp::Ge => c >= 0,
    }
}

/// Pushing each of `xs` in turn at the back of `s`, with eviction at `cap`.
pub open spec fn pushed_back(s: Seq<i64>, xs: Seq<i64>, cap: Option<usize>) -> Seq<i64>
    decreases xs.len(),
{
    if xs.len() == 0 {
        s
    } else {
        bound_tail(pushed_back(s, xs.drop_last(), cap).push(xs.last()), cap)
    }
}

/// Pushing each of `xs` in turn at the front of `s`, with eviction at `cap`.
pub open spec fn pushed_front(s: Seq<i64>, xs: Seq<i64>, cap: Option<usize>) -> Seq<i64>
    decreases xs.len(),
{
    if xs.len() == 0 {
        s
    } else {
        bound_head(seq![xs.last()] + pushed_front(s, xs.drop_last(), cap), cap)
    }
}

/// One bounded push at the back of an already trimmed sequence keeps the same
/// elements as trimming once after the push.
pub proof fn lemma_push_back_step(s: Seq<i64>, x: i64, cap: Option<usize>)
    ensures
        bound_tail(bound_tail(s, cap).push(x), cap) == bound_tail(s.push(x), cap),
{
    if let Some(c) = cap {
        assert(bound_tail(bound_tail(s, cap).push(x), cap) =~= bound_tail(s.push(x), cap));
    }
}

proof fn lemma_push_front_step(s: Seq<i64>, x: i64, cap: Option<usize>)
    ensures
        bound_head(seq![x] + bound_head(s, cap), cap) == bound_head(seq![x] + s, cap),
{
    if let Some(c) = cap {
        assert(bound_head(seq![x] + bound_head(s, cap), cap) =~= bound_head(seq![x] + s, cap));
    }
}

/// Bounded pushes at either end: after any run of pushes into a container
/// that fits its capacity, the length still fits, and the survivors are the
/// most recently pushed elements, the oldest being evicted first from the end
/// opposite the pushes.
pub proof fn lemma_bounded_pushes(s: Seq<i64>, xs: Seq<i64>, cap: Option<usize>)
    requires
        fits(s.len(), cap),
    ensures
        pushed_back(s, xs, cap) == bound_tail(s + xs, cap),
        fits(pushed_back(s, xs, cap).len(), cap),
        pushed_front(s, xs, cap) == bound_head(reversed(xs) + s, cap),
        fits(pushed_front(s, xs, cap).len(), cap),
    decreases xs.len(),
{
    if xs.len() == 0 {
        assert(s + xs =~= s);
        assert(reversed(xs) + s =~= s);
    } else {
        let init = xs.drop_last();
        lemma_bounded_pushes(s, init, cap);
        lemma_push_back_step(s + init, xs.last(), cap);
        assert((s + init).push(xs.last()) =~= s + xs);
        lemma_push_front_step(reversed(init) + s, xs.last(), cap);
        assert(seq![xs.last()] + (reversed(init) + s) =~= reversed(xs) + s);
    }
}

/// Negative indices: on a non-empty container index -1 reads the last
/// element, and every index `i` in range reads what `i - len` reads.
pub proof fn lemma_negative_index(s: Seq<i64>, i: int)
    ensures
        s.len() > 0 ==> get_spec(s, -1) == get_spec(s, s.len() - 1),
        0 <= i < s.len() ==> get_spec(s, i) == get_spec(s, i - s.len()),
{
}

/// Resolves a signed index against a length, as `resolve` describes.
fn resolve_index(idx: isize, len: usize) -> (r: Option<usize>)
    ensures
        match resolve(idx as int, len as nat) {
            Some(i) => r == Some(i as usize),
            None => r is None,
        },
{
    if idx < 0 {
        let k: usize = (-(idx + 1)) as usize + 1;
        if k > len {
            None
        } else {
            Some(len - k)
        }
    } else if (idx as usize) < len {
        Some(idx as usize)
    } else {
        None
    }
}

/// Saturates a slice bound into `[0, len]`, as `saturate` describes.
fn saturate_bound(i: isize, len: usize) -> (r: usize)
    ensures
        r == saturate(i as int, len as nat),
{
    if i < 0 {
        let k: usize = (-(i + 1)) as usize + 1;
        if k > len {
            0
        } else {
            len - k
        }
    } else if i as usize > len {
        len
    } else {
        i as usize
    }
}

/// A bounded double-ended sequence of integers with a generation counter
/// that structural mutations bump, so that readers can detect them.
pub struct Deque {
    elements: VecDeque<i64>,
    maxlen: Option<usize>,
    generation: usize,
}

impl View for Deque {
    type V = Seq<i64>;

    closed spec fn view(&self) -> Seq<i64> {
        self.elements@
    }
}

impl Deque {
    /// The capacity fixed at construction, if any.
    pub closed spec fn cap(&self) -> Option<usize> {
        self.maxlen
    }

    /// The current value of the generation counter.
    pub closed spec fn gen(&self) -> usize {
        self.generation
    }

    /// The container holds no more elements than its capacity allows.
    pub open spec fn wf(&self) -> bool {
        fits(self@.len(), self.cap())
    }

    fn bump(&mut self)
        ensures
            final(self)@ == old(self)@,
            final(self).cap() == old(self).cap(),
            final(self).gen() == next_generation(old(self).gen()),
    {
        if self.generation == usize::MAX {
            self.generation = 0;
        } else {
            self.generation = self.generation + 1;
        }
    }

    /// An empty container with the given capacity, at generation 0.
    pub fn new(maxlen: Option<usize>) -> (d: Deque)
        ensures
            d@ == Seq::<i64>::empty(),
            d.cap() == maxlen,
            d.gen() == 0,
            d.wf(),
    {
        Deque { elements: VecDeque::new(), maxlen, generation: 0 }
    }

    /// The number of elements.
    pub fn len(&self) -> (n: usize)
        ensures
            n == self@.len(),
    {
        self.elements.len()
    }

    /// Whether the container holds at least one element.
    pub fn is_nonempty(&self) -> (b: bool)
        ensures
            b == (self@.len() > 0),
    {
        self.elements.len() > 0
    }

    /// The capacity, if any.
    pub fn maxlen(&self) -> (m: Option<usize>)
        ensures
            m == self.cap(),
    {
        self.maxlen
    }

    /// The current generation, to be captured at the start of a scan.
    pub fn generation(&self) -> (g: usize)
        ensures
            g == self.gen(),
    {
        self.generation
    }

    /// Pushes `x` at the back; at capacity the front element is evicted.
    pub fn append(&mut self, x: i64)
        requires
            old(self).wf(),
        ensures
            final(self)@ == bound_tail(old(self)@.push(x), old(self).cap()),
            final(self).cap() == old(self).cap(),
            final(self).gen() == next_generation(old(self).gen()),
            final(self).wf(),
    {
        self.bump();
        let len = self.elements.len();
        if self.maxlen == Some(0usize) {
            return ;
        }
        if self.maxlen == Some(len) {
            self.elements.pop_front();
        }
        self.elements.push_back(x);
        proof {
            let s = old(self)@.push(x);
            if let Some(c) = old(self).cap() {
                if s.len() > c {
                    assert(self@ =~= keep_last(s, c as nat));
                }
            }
        }
    }

    /// Pushes `x` at the front; at capacity the back element is evicted.
    pub fn appendleft(&mut self, x: i64)
        requires
            old(self).wf(),
        ensures
            final(self)@ == bound_head(seq![x] + old(self)@, old(self).cap()),
            final(self).cap() == old(self).cap(),
            final(self).gen() == next_generation(old(self).gen()),
            final(self).wf(),
    {
        self.bump();
        let len = self.elements.len();
        if self.maxlen == Some(0usize) {
            return ;
        }
        if self.maxlen == Some(len) {
            self.elements.pop_back();
        }
        self.elements.push_front(x);
        proof {
            let s = seq![x] + old(self)@;
            if let Some(c) = old(self).cap() {
                if s.len() > c {
                    assert(self@ =~= keep_first(s, c as nat));
                }
            }
        }
    }

    /// Removes and returns the back element.
    pub fn pop(&mut self) -> (r: Result<i64, DequeError>)
        ensures
            old(self)@.len() == 0 ==> r == Err::<i64, DequeError>(DequeError::EmptyContainer)
                && *final(self) == *old(self),
            old(self)@.len() > 0 ==> r == Ok::<i64, DequeError>(old(self)@.last())
                && final(self)@ == old(self)@.drop_last()
                && final(self).gen() == next_generation(old(self).gen()),
            final(self).cap() == old(self).cap(),
            old(self).wf() ==> final(self).wf(),
    {
        if self.elements.len() == 0 {
            return Err(DequeError::EmptyContainer);
        }
        self.bump();
        match self.elements.pop_back() {
            Some(x) => Ok(x),
            None => Err(DequeError::EmptyContainer),
        }
    }

    /// Removes and returns the front element.
    pub fn popleft(&mut self) -> (r: Result<i64, DequeError>)
        ensures
            old(self)@.len() == 0 ==> r == Err::<i64, DequeError>(DequeError::EmptyContainer)
                && *final(self) == *old(self),
            old(self)@.len() > 0 ==> r == Ok::<i64, DequeError>(old(self)@[0])
                && final(self)@ == old(self)@.drop_first()
                && final(self).gen() == next_generation(old(self).gen()),
            final(self).cap() == old(self).cap(),
            old(self).wf() ==> final(self).wf(),
    {
        if self.elements.len() == 0 {
            return Err(DequeError::EmptyContainer);
        }
        self.bump();
        match self.elements.pop_front() {
            Some(x) => Ok(x),
            None => Err(DequeError::EmptyContainer),
        }
    }

    /// Removes every element.
    pub fn clear(&mut self)
        ensures
            final(self)@ == Seq::<i64>::empty(),
            final(self).cap() == old(self).cap(),
            final(self).gen() == next_generation(old(self).gen()),
            final(self).wf(),
    {
        self.bump();
        self.elements.clear();
    }

    /// The elements, front to back.
    pub fn to_vec(&self) -> (v: Vec<i64>)
        ensures
            v@ == self@,
    {
        let mut v: Vec<i64> = Vec::new();
        let mut i: usize = 0;
        while i < self.elements.len()
            invariant
                0 <= i <= self@.len(),
                v@ == self@.subrange(0, i as int),
            decreases self@.len() - i,
        {
            v.push(self.elements[i]);
            i = i + 1;
            assert(v@ =~= self@.subrange(0, i as int));
        }
        assert(self@.subrange(0, self@.len() as int) =~= self@);
        v
    }

    /// The element at position `i` from the head.
    pub fn at(&self, i: usize) -> (x: i64)
        requires
            i < self@.len(),
        ensures
            x == self@[i as int],
    {
        self.elements[i]
    }

    /// The element at a signed index.
    pub fn get(&self, idx: isize) -> (r: Result<i64, DequeError>)
        ensures
            r == get_spec(self@, idx as int),
    {
        match resolve_index(idx, self.elements.len()) {
            Some(i) => Ok(self.elements[i]),
            None => Err(DequeError::OutOfRange),
        }
    }

    /// Replaces the element at a signed index; the generation is kept.
    pub fn set(&mut self, idx: isize, value: i64) -> (r: Result<(), DequeError>)
        ensures
            match resolve(idx as int, old(self)@.len()) {
                Some(i) => r is Ok && final(self)@ == old(self)@.update(i, value),
                None => r == Err::<(), DequeError>(DequeError::OutOfRange) && final(self)@
                    == old(self)@,
            },
            final(self).cap() == old(self).cap(),
            final(self).gen() == old(self).gen(),
            old(self).wf() ==> final(self).wf(),
    {
        match resolve_index(idx, self.elements.len()) {
            Some(i) => {
                self.elements.remove(i);
                self.elements.insert(i, value);
                assert(self@ =~= old(self)@.update(i as int, value));
                Ok(())
            },
            None => Err(DequeError::OutOfRange),
        }
    }

    /// Deletes the element at a signed index; the generation is kept.
    pub fn delete(&mut self, idx: isize) -> (r: Result<(), DequeError>)
        ensures
            match resolve(idx as int, old(self)@.len()) {
                Some(i) => r is Ok && final(self)@ == old(self)@.remove(i),
                None => r == Err::<(), DequeError>(DequeError::OutOfRange) && final(self)@
                    == old(self)@,
            },
            final(self).cap() == old(self).cap(),
            final(self).gen() == old(self).gen(),
            old(self).wf() ==> final(self).wf(),
    {
        match resolve_index(idx, self.elements.len()) {
            Some(i) => {
                self.elements.remove(i);
                Ok(())
            },
            None => Err(DequeError::OutOfRange),
        }
    }

    /// The sequence protocol's item assignment: sets the element at `idx`
    /// when a value is given, deletes it otherwise.
    pub fn ass_item(&mut self, idx: isize, value: Option<i64>) -> (r: Result<(), DequeError>)
        ensures
            match resolve(idx as int, old(self)@.len()) {
                Some(i) => r is Ok && final(self)@ == match value {
                    Some(v) => old(self)@.update(i, v),
                    None => old(self)@.remove(i),
                },
                None => r == Err::<(), DequeError>(DequeError::OutOfRange) && final(self)@
                    == old(self)@,
            },
            final(self).cap() == old(self).cap(),
            final(self).gen() == old(self).gen(),
            old(self).wf() ==> final(self).wf(),
    {
        match value {
            Some(v) => self.set(idx, v),
            None => self.delete(idx),
        }
    }

    /// In-place concatenation: appends the elements of `other` as `extend`
    /// does.
    pub fn iadd(&mut self, other: &Deque)
        requires
            old(self).wf(),
        ensures
            final(self)@ == bound_tail(old(self)@ + other@, old(self).cap()),
            final(self).cap() == old(self).cap(),
            final(self).gen() == next_generation(old(self).gen()),
            final(self).wf(),
    {
        let items = other.to_vec();
        self.extend(items);
    }

    /// Inserts `x` before a signed index, clamped to `[0, len]`; a container at
    /// capacity refuses the insertion.
    pub fn insert(&mut self, idx: isize, x: i64) -> (r: Result<(), DequeError>)
        requires
            old(self).wf(),
        ensures
            old(self).cap() == Some(old(self)@.len() as usize) ==> r == Err::<(), DequeError>(
                DequeError::Full,
            ) && *final(self) == *old(self),
            old(self).cap() != Some(old(self)@.len() as usize) ==> r is Ok && final(self)@
                == old(self)@.insert(insert_position(idx as int, old(self)@.len()), x)
                && final(self).gen() == next_generation(old(self).gen()),
            final(self).cap() == old(self).cap(),
            final(self).wf(),
    {
        let len = self.elements.len();
        if self.maxlen == Some(len) {
            return Err(DequeError::Full);
        }
        self.bump();
        let pos: usize = if idx < 0 {
            let k: usize = (-(idx + 1)) as usize + 1;
            if k > len {
                0
            } else {
                len - k
            }
        } else if idx as usize > len {
            len
        } else {
            idx as usize
        };
        self.elements.insert(pos, x);
        Ok(())
    }

    /// Rotates the elements `n` steps to the right (left when `n` is negative).
    pub fn rotate(&mut self, n: isize)
        ensures
            final(self)@ == rotated(old(self)@, n as int),
            final(self).cap() == old(self).cap(),
            final(self).gen() == next_generation(old(self).gen()),
            old(self).wf() ==> final(self).wf(),
    {
        self.bump();
        let len = self.elements.len();
        if len == 0 {
            return ;
        }
        let ghost s = self@;
        if n < 0 {
            let magnitude: usize = (-(n + 1)) as usize + 1;
            let k: usize = magnitude % len;
            let mut i: usize = 0;
            while i < k
                invariant
                    0 <= i <= k < len,
                    len == s.len(),
                    self@ == s.subrange(i as int, len as int) + s.subrange(0, i as int),
                    self.maxlen == old(self).maxlen,
                    self.generation == next_generation(old(self).gen()),
                decreases k - i,
            {
                let x = self.elements.pop_front();
                match x {
                    Some(v) => {
                        self.elements.push_back(v);
                    },
                    None => {},
                }
                i = i + 1;
                assert(self@ =~= s.subrange(i as int, len as int) + s.subrange(0, i as int));
            }
            proof {
                let q = magnitude as int / len as int;
                lemma_fundamental_div_mod(magnitude as int, len as int);
                if k == 0 {
                    assert(n as int == (-q) * len + 0) by (nonlinear_arith)
                        requires
                            magnitude == q * len + k,
                            k == 0,
                            n as int == -(magnitude as int),
                    ;
                    lemma_fundamental_div_mod_converse(n as int, len as int, -q, 0);
                    assert(self@ =~= rotated(s, n as int));
                } else {
                    assert(n as int == (-q - 1) * len + (len - k)) by (nonlinear_arith)
                        requires
                            magnitude == q * len + k,
                            n as int == -(magnitude as int),
                    ;
                    lemma_fundamental_div_mod_converse(n as int, len as int, -q - 1, len - k);
                    assert(self@ =~= rotated(s, n as int));
                }
            }
        } else {
            let k: usize = (n as usize) % len;
            let mut i: usize = 0;
            while i < k
                invariant
                    0 <= i <= k < len,
                    len == s.len(),
                    self@ == s.subrange(len - i, len as int) + s.subrange(0, len - i),
                    self.maxlen == old(self).maxlen,
                    self.generation == next_generation(old(self).gen()),
                decreases k - i,
            {
                let x = self.elements.pop_back();
                match x {
                    Some(v) => {
                        self.elements.push_front(v);
                    },
                    None => {},
                }
                i = i + 1;
                assert(self@ =~= s.subrange(len - i, len as int) + s.subrange(0, len - i));
            }
            assert(self@ =~= rotated(s, n as int));
        }
    }

    /// Reverses the order of the elements; the generation is kept.
    pub fn reverse(&mut self)
        ensures
            final(self)@ == reversed(old(self)@),
            final(self).cap() == old(self).cap(),
            final(self).gen() == old(self).gen(),
            old(self).wf() ==> final(self).wf(),
    {
        let ghost s = self@;
        let mut rev: VecDeque<i64> = VecDeque::new();
        let mut i: usize = 0;
        let len = self.elements.len();
        while i < len
            invariant
                0 <= i <= len,
                len == s.len(),
                self@ == s,
                rev@ == reversed(s.subrange(0, i as int)),
            decreases len - i,
        {
            rev.push_front(self.elements[i]);
            i = i + 1;
            assert(rev@ =~= reversed(s.subrange(0, i as int)));
        }
        assert(s.subrange(0, len as int) =~= s);
        self.elements = rev;
    }

    fn push_all_back(&mut self, items: &Vec<i64>, from: usize)
        requires
            from <= items@.len(),
        ensures
            final(self)@ == old(self)@ + items@.subrange(from as int, items@.len() as int),
            final(self).cap() == old(self).cap(),
            final(self).gen() == old(self).gen(),
    {
        let mut i: usize = from;
        while i < items.len()
            invariant
                from <= i <= items@.len(),
                self@ == old(self)@ + items@.subrange(from as int, i as int),
                self.maxlen == old(self).maxlen,
                self.generation == old(self).generation,
            decreases items@.len() - i,
        {
            self.elements.push_back(items[i]);
            i = i + 1;
            assert(self@ =~= old(self)@ + items@.subrange(from as int, i as int));
        }
    }

    fn push_all_front(&mut self, items: &Vec<i64>, from: usize)
        requires
            from <= items@.len(),
        ensures
            final(self)@ == reversed(items@.subrange(from as int, items@.len() as int)) + old(
                self,
            )@,
            final(self).cap() == old(self).cap(),
            final(self).gen() == old(self).gen(),
    {
        let mut i: usize = from;
        while i < items.len()
            invariant
                from <= i <= items@.len(),
                self@ == reversed(items@.subrange(from as int, i as int)) + old(self)@,
                self.maxlen == old(self).maxlen,
                self.generation == old(self).generation,
            decreases items@.len() - i,
        {
            self.elements.push_front(items[i]);
            i = i + 1;
            assert(self@ =~= reversed(items@.subrange(from as int, i as int)) + old(self)@);
        }
    }

    /// Appends `items` at the back, trimming from the front to fit the
    /// capacity; the generation is bumped once.
    pub fn extend(&mut self, items: Vec<i64>)
        requires
            old(self).wf(),
        ensures
            final(self)@ == bound_tail(old(self)@ + items@, old(self).cap()),
            final(self).cap() == old(self).cap(),
            final(self).gen() == next_generation(old(self).gen()),
            final(self).wf(),
    {
        self.bump();
        let ghost s = self@;
        let m = items.len();
        match self.maxlen {
            Some(c) => {
                if c > m {
                    while self.elements.len() > c - m
                        invariant
                            c > m,
                            s.len() >= self@.len(),
                            self@.len() == s.len() || self@.len() >= c - m,
                            self@ == s.subrange(s.len() - self@.len(), s.len() as int),
                            self.maxlen == Some(c),
                            self.generation == next_generation(old(self).gen()),
                        decreases self@.len(),
                    {
                        self.elements.pop_front();
                        assert(self@ =~= s.subrange(s.len() - self@.len(), s.len() as int));
                    }
                    self.push_all_back(&items, 0);
                    assert(items@.subrange(0, m as int) =~= items@);
                    assert(self@ =~= keep_last(s + items@, c as nat));
                } else {
                    self.elements.clear();
                    self.push_all_back(&items, m - c);
                    assert(self@ =~= keep_last(s + items@, c as nat));
                }
            },
            None => {
                self.push_all_back(&items, 0);
                assert(items@.subrange(0, m as int) =~= items@);
            },
        }
    }

    /// Prepends `items` one at a time (so they end up reversed), trimming from
    /// the back to fit the capacity; the generation is kept.
    pub fn extendleft(&mut self, items: Vec<i64>)
        requires
            old(self).wf(),
        ensures
            final(self)@ == bound_head(reversed(items@) + old(self)@, old(self).cap()),
            final(self).cap() == old(self).cap(),
            final(self).gen() == old(self).gen(),
            final(self).wf(),
    {
        let ghost s = self@;
        let m = items.len();
        assert(items@.subrange(0, m as int) =~= items@);
        match self.maxlen {
            Some(c) => {
                if c > m {
                    self.elements.truncate(c - m);
                    self.push_all_front(&items, 0);
                    assert(self@ =~= keep_first(reversed(items@) + s, c as nat));
                } else {
                    self.elements.clear();
                    self.push_all_front(&items, m - c);
                    assert(self@ =~= keep_first(reversed(items@) + s, c as nat));
                }
            },
            None => {
                self.push_all_front(&items, 0);
            },
        }
    }

    /// Sets the capacity and the contents anew, keeping the generation: the
    /// contents are the last elements of `iterable` that fit. A negative
    /// capacity is refused and leaves the container as it was.
    pub fn init(&mut self, iterable: Option<Vec<i64>>, maxlen: Option<isize>) -> (r: Result<
        (),
        DequeError,
    >)
        requires
            old(self).wf(),
        ensures
            (match maxlen {
                Some(m) => m < 0,
                None => false,
            }) ==> r == Err::<(), DequeError>(DequeError::TypeMismatch) && *final(self) == *old(
                self,
            ),
            (match maxlen {
                Some(m) => m >= 0,
                None => true,
            }) ==> {
                &&& r is Ok
                &&& final(self).cap() == (match maxlen {
                    Some(m) => Some(m as usize),
                    None => None::<usize>,
                })
                &&& final(self)@ == bound_tail(
                    match iterable {
                        Some(v) => v@,
                        None => Seq::<i64>::empty(),
                    },
                    final(self).cap(),
                )
                &&& final(self).gen() == old(self).gen()
            },
            final(self).wf(),
    {
        let cap: Option<usize> = match maxlen {
            Some(m) => {
                if m < 0 {
                    return Err(DequeError::TypeMismatch);
                }
                Some(m as usize)
            },
            None => None,
        };
        self.elements.clear();
        self.maxlen = cap;
        match iterable {
            Some(items) => {
                let m = items.len();
                let from: usize = match cap {
                    Some(c) => if m > c {
                        m - c
                    } else {
                        0
                    },
                    None => 0,
                };
                self.push_all_back(&items, from);
                assert(self@ =~= bound_tail(items@, cap));
            },
            None => {},
        }
        Ok(())
    }

    /// A new container with the same elements, capacity and generation.
    pub fn copy(&self) -> (d: Deque)
        ensures
            d@ == self@,
            d.cap() == self.cap(),
            d.gen() == self.gen(),
    {
        let mut elements: VecDeque<i64> = VecDeque::new();
        let mut i: usize = 0;
        while i < self.elements.len()
            invariant
                0 <= i <= self@.len(),
                elements@ == self@.subrange(0, i as int),
            decreases self@.len() - i,
        {
            elements.push_back(self.elements[i]);
            i = i + 1;
            assert(elements@ =~= self@.subrange(0, i as int));
        }
        assert(self@.subrange(0, self@.len() as int) =~= self@);
        Deque { elements, maxlen: self.maxlen, generation: self.generation }
    }

    /// Counts the elements equal to `x`. `snapshot` is the generation seen when
    /// the scan began: if the container has changed since, the count is refused.
    pub fn count(&self, x: i64, snapshot: usize) -> (r: Result<usize, DequeError>)
        ensures
            self.gen() != snapshot ==> r == Err::<usize, DequeError>(
                DequeError::ConcurrentMutation,
            ),
            self.gen() == snapshot ==> r == Ok::<usize, DequeError>(
                occurrences(self@, x) as usize,
            ),
    {
        let mut n: usize = 0;
        let mut i: usize = 0;
        while i < self.elements.len()
            invariant
                0 <= i <= self@.len(),
                n == occurrences(self@.subrange(0, i as int), x),
                n <= i,
            decreases self@.len() - i,
        {
            assert(self@.subrange(0, i + 1).drop_last() =~= self@.subrange(0, i as int));
            if self.elements[i] == x {
                n = n + 1;
            }
            i = i + 1;
        }
        assert(self@.subrange(0, self@.len() as int) =~= self@);
        if self.generation != snapshot {
            return Err(DequeError::ConcurrentMutation);
        }
        Ok(n)
    }

    /// Whether some element equals `x`, checked against `snapshot` as `count` is.
    pub fn contains(&self, x: i64, snapshot: usize) -> (r: Result<bool, DequeError>)
        ensures
            self.gen() != snapshot ==> r == Err::<bool, DequeError>(
                DequeError::ConcurrentMutation,
            ),
            self.gen() == snapshot ==> r == Ok::<bool, DequeError>(self@.contains(x)),
    {
        let found = self.find(x, 0, self.elements.len());
        if self.generation != snapshot {
            return Err(DequeError::ConcurrentMutation);
        }
        match found {
            Some(_) => Ok(true),
            None => Ok(false),
        }
    }

    fn find(&self, x: i64, lo: usize, hi: usize) -> (r: Option<usize>)
        requires
            lo <= hi <= self@.len(),
        ensures
            match r {
                Some(i) => first_match(self@, x, lo as int, hi as int, i as int),
                None => no_match(self@, x, lo as int, hi as int),
            },
    {
        let mut i: usize = lo;
        while i < hi
            invariant
                lo <= i <= hi <= self@.len(),
                no_match(self@, x, lo as int, i as int),
            decreases hi - i,
        {
            if self.elements[i] == x {
                return Some(i);
            }
            i = i + 1;
        }
        None
    }

    /// The first position of `x` within the slice bounds `start..stop`
    /// (negative bounds count from the back and both saturate), checked
    /// against `snapshot` as `count` is.
    pub fn index(&self, x: i64, start: Option<isize>, stop: Option<isize>, snapshot: usize) -> (r:
        Result<usize, DequeError>)
        ensures
            ({
                let lo = match start {
                    Some(a) => saturate(a as int, self@.len()),
                    None => 0,
                };
                let hi = match stop {
                    Some(b) => saturate(b as int, self@.len()),
                    None => self@.len() as int,
                };
                &&& self.gen() != snapshot ==> r == Err::<usize, DequeError>(
                    DequeError::ConcurrentMutation,
                )
                &&& self.gen() == snapshot && no_match(self@, x, lo, hi) ==> r == Err::<
                    usize,
                    DequeError,
                >(DequeError::NotFound)
                &&& self.gen() == snapshot && !no_match(self@, x, lo, hi) ==> (r matches Ok(i)
                    && first_match(self@, x, lo, hi, i as int))
            }),
    {
        let len = self.elements.len();
        let lo: usize = match start {
            Some(a) => saturate_bound(a, len),
            None => 0,
        };
        let hi: usize = match stop {
            Some(b) => saturate_bound(b, len),
            None => len,
        };
        let found = if lo < hi {
            self.find(x, lo, hi)
        } else {
            None
        };
        if self.generation != snapshot {
            return Err(DequeError::ConcurrentMutation);
        }
        match found {
            Some(i) => Ok(i),
            None => Err(DequeError::NotFound),
        }
    }

    /// Removes the first element equal to `x` and returns it, checked against
    /// `snapshot` as `count` is; the generation is bumped only on removal.
    pub fn remove(&mut self, x: i64, snapshot: usize) -> (r: Result<i64, DequeError>)
        ensures
            old(self).gen() != snapshot ==> r == Err::<i64, DequeError>(
                DequeError::ConcurrentMutation,
            ) && *final(self) == *old(self),
            old(self).gen() == snapshot && !old(self)@.contains(x) ==> r == Err::<
                i64,
                DequeError,
            >(DequeError::NotFound) && *final(self) == *old(self),
            old(self).gen() == snapshot && old(self)@.contains(x) ==> exists|i: int|
                {
                    &&& first_match(old(self)@, x, 0, old(self)@.len() as int, i)
                    &&& r == Ok::<i64, DequeError>(x)
                    &&& final(self)@ == old(self)@.remove(i)
                    &&& final(self).gen() == next_generation(old(self).gen())
                },
            final(self).cap() == old(self).cap(),
            old(self).wf() ==> final(self).wf(),
    {
        let found = self.find(x, 0, self.elements.len());
        if self.generation != snapshot {
            return Err(DequeError::ConcurrentMutation);
        }
        match found {
            Some(i) => {
                self.bump();
                self.elements.remove(i);
                Ok(x)
            },
            None => {
                assert(!old(self)@.contains(x));
                Err(DequeError::NotFound)
            },
        }
    }

    fn repeat_elements(&self, n: isize) -> (r: Result<VecDeque<i64>, DequeError>)
        ensures
            repeat_overflows(self@.len(), n as int) ==> r == Err::<VecDeque<i64>, DequeError>(
                DequeError::SizeOverflow,
            ),
            !repeat_overflows(self@.len(), n as int) ==> (r matches Ok(v) && v@ == bound_tail(
                repeated(self@, repeat_count(n as int)),
                self.cap(),
            )),
    {
        let len = self.elements.len();
        let count: usize = if n <= 0 {
            0
        } else {
            n as usize
        };
        let limit: usize = isize::MAX as usize;
        if count > 0 && len > limit / count {
            proof {
                let li = limit as int;
                let ci = count as int;
                let q = li / ci;
                let rem = li % ci;
                lemma_fundamental_div_mod(li, ci);
                assert(ci * len > li) by (nonlinear_arith)
                    requires
                        li == ci * q + rem,
                        0 <= rem < ci,
                        len > q,
                ;
            }
            return Err(DequeError::SizeOverflow);
        }
        proof {
            if count > 0 {
                let li = limit as int;
                let ci = count as int;
                let q = li / ci;
                let rem = li % ci;
                lemma_fundamental_div_mod(li, ci);
                assert(ci * len <= li) by (nonlinear_arith)
                    requires
                        li == ci * q + rem,
                        0 <= rem < ci,
                        len <= q,
                ;
            }
        }
        let total: usize = count * len;
        let ghost full = repeated(self@, repeat_count(n as int));
        assert(full.len() == total);
        let skipped: usize = match self.maxlen {
            Some(c) => if total > c {
                total - c
            } else {
                0
            },
            None => 0,
        };
        assert(total > 0 ==> len > 0) by (nonlinear_arith)
            requires
                total == count * len,
        ;
        let mut out: VecDeque<i64> = VecDeque::new();
        let mut k: usize = skipped;
        while k < total
            invariant
                skipped <= k <= total,
                total == full.len(),
                total > 0 ==> len > 0,
                len == self@.len(),
                full == repeated(self@, repeat_count(n as int)),
                out@ == full.subrange(skipped as int, k as int),
            decreases total - k,
        {
            out.push_back(self.elements[k % len]);
            k = k + 1;
            assert(out@ =~= full.subrange(skipped as int, k as int));
        }
        assert(out@ =~= bound_tail(full, self.cap()));
        Ok(out)
    }

    /// A new container holding `n` copies of the elements (none when `n` is
    /// not positive), trimmed from the front to the same capacity, at
    /// generation 0. A total length beyond `isize::MAX` is refused.
    pub fn mul(&self, n: isize) -> (r: Result<Deque, DequeError>)
        ensures
            repeat_overflows(self@.len(), n as int) ==> r == Err::<Deque, DequeError>(
                DequeError::SizeOverflow,
            ),
            !repeat_overflows(self@.len(), n as int) ==> (r matches Ok(d) && d@ == bound_tail(
                repeated(self@, repeat_count(n as int)),
                self.cap(),
            ) && d.cap() == self.cap() && d.gen() == 0 && d.wf()),
    {
        match self.repeat_elements(n) {
            Ok(elements) => Ok(Deque { elements, maxlen: self.maxlen, generation: 0 }),
            Err(e) => Err(e),
        }
    }

    /// Replaces the elements by `n` copies of themselves, as `mul` computes
    /// them; the generation is kept. On overflow nothing changes.
    pub fn imul(&mut self, n: isize) -> (r: Result<(), DequeError>)
        requires
            old(self).wf(),
        ensures
            repeat_overflows(old(self)@.len(), n as int) ==> r == Err::<(), DequeError>(
                DequeError::SizeOverflow,
            ) && *final(self) == *old(self),
            !repeat_overflows(old(self)@.len(), n as int) ==> r is Ok && final(self)@
                == bound_tail(repeated(old(self)@, repeat_count(n as int)), old(self).cap()),
            final(self).cap() == old(self).cap(),
            final(self).gen() == old(self).gen(),
            final(self).wf(),
    {
        match self.repeat_elements(n) {
            Ok(elements) => {
                self.elements = elements;
                Ok(())
            },
            Err(e) => Err(e),
        }
    }

    /// A new container holding these elements followed by those of `other`,
    /// trimmed from the front to this container's capacity, at generation 0.
    pub fn concat(&self, other: &Deque) -> (r: Result<Deque, DequeError>)
        ensures
            self@.len() + other@.len() > usize::MAX ==> r == Err::<Deque, DequeError>(
                DequeError::SizeOverflow,
            ),
            self@.len() + other@.len() <= usize::MAX ==> (r matches Ok(d) && d@ == bound_tail(
                self@ + other@,
                self.cap(),
            ) && d.cap() == self.cap() && d.gen() == 0 && d.wf()),
    {
        let a_len = self.elements.len();
        let b_len = other.elements.len();
        if a_len > usize::MAX - b_len {
            return Err(DequeError::SizeOverflow);
        }
        let total = a_len + b_len;
        let ghost full = self@ + other@;
        let skipped: usize = match self.maxlen {
            Some(c) => if total > c {
                total - c
            } else {
                0
            },
            None => 0,
        };
        let mut out: VecDeque<i64> = VecDeque::new();
        let mut k: usize = skipped;
        while k < total
            invariant
                skipped <= k <= total,
                total == full.len(),
                a_len == self@.len(),
                b_len == other@.len(),
                full == self@ + other@,
                out@ == full.subrange(skipped as int, k as int),
            decreases total - k,
        {
            if k < a_len {
                out.push_back(self.elements[k]);
            } else {
                out.push_back(other.elements[k - a_len]);
            }
            k = k + 1;
            assert(out@ =~= full.subrange(skipped as int, k as int));
        }
        assert(out@ =~= bound_tail(full, self.cap()));
        Ok(Deque { elements: out, maxlen: self.maxlen, generation: 0 })
    }

    /// Compares the elements of two containers lexicographically.
    pub fn compare(&self, other: &Deque, op: CompareOp) -> (r: bool)
        ensures
            r == compare_spec(self@, other@, op),
    {
        let a_len = self.elements.len();
        let b_len = other.elements.len();
        let mut i: usize = 0;
        assert(self@.skip(0) =~= self@);
        assert(other@.skip(0) =~= other@);
        while i < a_len && i < b_len && self.elements[i] == other.elements[i]
            invariant
                0 <= i <= a_len,
                i <= b_len,
                a_len == self@.len(),
                b_len == other@.len(),
                lex_cmp(self@, other@) == lex_cmp(self@.skip(i as int), other@.skip(i as int)),
            decreases a_len - i,
        {
            assert(self@.skip(i as int).drop_first() =~= self@.skip(i + 1));
            assert(other@.skip(i as int).drop_first() =~= other@.skip(i + 1));
            i = i + 1;
        }
        let c: i8 = if i < a_len && i < b_len {
            if self.elements[i] < other.elements[i] {
                -1
            } else {
                1
            }
        } else if a_len < b_len {
            -1
        } else if a_len > b_len {
            1
        } else {
            0
        };
        assert(c == lex_cmp(self@.skip(i as int), other@.skip(i as int)));
        match op {
            CompareOp::Lt => c < 0,
            CompareOp::Le => c <= 0,
            CompareOp::Eq => c == 0,
            CompareOp::Ne => c != 0,
            CompareOp::Gt => c > 0,
            CompareOp::Ge => c >= 0,
        }
    }
}

} // verus!
