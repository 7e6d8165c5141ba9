use crate::deque::{bound_tail, lemma_push_back_step, next_generation, Deque, DequeError};
use vstd::prelude::*;

verus! {

/// Where a cursor is in its one-way lifecycle.
#[derive(Clone, Copy, Debug, PartialEq, Eq, Structural)]
pub enum CursorStatus {
    Active,
    Exhausted,
}

/// `len - position`, or 0 when the position is past the end.
pub open spec fn remaining(len: nat, position: nat) -> nat {
    if position < len {
        (len - position) as nat
    } else {
        0
    }
}

/// The elements from `position` to the end (none when it is past the end).
pub open spec fn items_from(items: Seq<i64>, position: nat) -> Seq<i64> {
    if position < items.len() {
        items.subrange(position as int, items.len() as int)
    } else {
        Seq::empty()
    }
}

/// The contents that replaying a reconstruction description produces: the
/// elements a cursor at `position` still yields, pushed into a container
/// with capacity `maxlen`.
pub open spec fn replayed(maxlen: Option<usize>, position: nat, items: Seq<i64>) -> Seq<i64> {
    bound_tail(items_from(items, position), maxlen)
}

fn clamp_start(index: Option<isize>) -> (p: usize)
    ensures
        p == match index {
            Some(i) => if i < 0 {
                0
            } else {
                i as int
            },
            None => 0,
        },
{
    match index {
        Some(i) => if i < 0 {
            0
        } else {
            i as usize
        },
        None => 0,
    }
}

/// A forward cursor over a container: it yields the elements from the head,
/// and fails once the container's generation differs from the one it
/// captured. It is advanced against the container it was made from.
pub struct DequeIterator {
    generation: usize,
    position: usize,
    status: CursorStatus,
}

impl DequeIterator {
    /// The generation captured at construction.
    pub closed spec fn captured(&self) -> usize {
        self.generation
    }

    /// The offset of the next element from the head.
    pub closed spec fn pos(&self) -> nat {
        self.position as nat
    }

    /// Whether the cursor has not yet reached the end.
    pub closed spec fn is_active(&self) -> bool {
        self.status == CursorStatus::Active
    }

    /// The length estimate over `d`: what is left, or 0 once exhausted.
    pub open spec fn hint(&self, d: &Deque) -> nat {
        if self.is_active() {
            remaining(d@.len(), self.pos())
        } else {
            0
        }
    }

    /// What the next advance over `d` reports.
    pub open spec fn step_result(&self, d: &Deque) -> Result<Option<i64>, DequeError> {
        if !self.is_active() {
            Ok(None)
        } else if d.gen() != self.captured() {
            Err(DequeError::ConcurrentMutation)
        } else if self.pos() < d@.len() {
            Ok(Some(d@[self.pos() as int]))
        } else {
            Ok(None)
        }
    }

    /// A cursor at the head of `deque`.
    pub fn new(deque: &Deque) -> (it: DequeIterator)
        ensures
            it.is_active(),
            it.captured() == deque.gen(),
            it.pos() == 0,
    {
        DequeIterator { generation: deque.generation(), position: 0, status: CursorStatus::Active }
    }

    /// A cursor over `deque` that resumes at `index` (a negative index counts
    /// as 0).
    pub fn with_index(deque: &Deque, index: Option<isize>) -> (it: DequeIterator)
        ensures
            it.is_active(),
            it.captured() == deque.gen(),
            it.pos() == match index {
                Some(i) => if i < 0 {
                    0
                } else {
                    i as int
                },
                None => 0,
            },
    {
        DequeIterator {
            generation: deque.generation(),
            position: clamp_start(index),
            status: CursorStatus::Active,
        }
    }

    /// How many elements are left: 0 once exhausted.
    pub fn length_hint(&self, deque: &Deque) -> (n: usize)
        ensures
            n == self.hint(deque),
    {
        match self.status {
            CursorStatus::Active => {
                let len = deque.len();
                if self.position < len {
                    len - self.position
                } else {
                    0
                }
            },
            CursorStatus::Exhausted => 0,
        }
    }

    /// Advances over `deque`: yields the element at the position and moves on,
    /// reports the end (and becomes exhausted for good), or fails if the
    /// container has been mutated since the cursor was made.
    pub fn next(&mut self, deque: &Deque) -> (r: Result<Option<i64>, DequeError>)
        ensures
            r == old(self).step_result(deque),
            final(self).captured() == old(self).captured(),
            !old(self).is_active() ==> *final(self) == *old(self),
            r is Err ==> *final(self) == *old(self),
            r matches Ok(Some(_)) ==> final(self).is_active()
                && final(self).pos() == old(self).pos() + 1,
            old(self).is_active() && r == Ok::<Option<i64>, DequeError>(None)
                ==> !final(self).is_active() && final(self).pos() == old(self).pos(),
    {
        match self.status {
            CursorStatus::Exhausted => Ok(None),
            CursorStatus::Active => {
                if deque.generation() != self.generation {
                    return Err(DequeError::ConcurrentMutation);
                }
                let len = deque.len();
                if self.position < len {
                    let x = deque.at(self.position);
                    self.position = self.position + 1;
                    Ok(Some(x))
                } else {
                    self.status = CursorStatus::Exhausted;
                    Ok(None)
                }
            },
        }
    }

    /// The container and position from which an equal cursor can be rebuilt;
    /// an exhausted cursor no longer refers to its container and gives an empty
    /// one.
    pub fn reduce(&self, deque: &Deque) -> (r: (Deque, usize))
        ensures
            r.1 == self.pos(),
            self.is_active() ==> r.0@ == deque@ && r.0.cap() == deque.cap(),
            !self.is_active() ==> r.0@ == Seq::<i64>::empty() && r.0.cap() is None,
    {
        match self.status {
            CursorStatus::Active => (deque.copy(), self.position),
            CursorStatus::Exhausted => (Deque::new(None), self.position),
        }
    }
}


/// A reverse cursor over a container: it yields the elements from the tail,
/// its position counting from the tail, and fails once the container's
/// generation differs from the one it captured.
pub struct ReverseDequeIterator {
    generation: usize,
    position: usize,
    status: CursorStatus,
}

impl ReverseDequeIterator {
    /// The generation captured at construction.
    pub closed spec fn captured(&self) -> usize {
        self.generation
    }

    /// The offset of the next element from the tail.
    pub closed spec fn pos(&self) -> nat {
        self.position as nat
    }

    /// Whether the cursor has not yet reached the end.
    pub closed spec fn is_active(&self) -> bool {
        self.status == CursorStatus::Active
    }

    /// The length estimate over `d`: what is left, or 0 once exhausted.
    pub open spec fn hint(&self, d: &Deque) -> nat {
        if self.is_active() {
            remaining(d@.len(), self.pos())
        } else {
            0
        }
    }

    /// What the next advance over `d` reports.
    pub open spec fn step_result(&self, d: &Deque) -> Result<Option<i64>, DequeError> {
        if !self.is_active() {
            Ok(None)
        } else if d.gen() != self.captured() {
            Err(DequeError::ConcurrentMutation)
        } else if self.pos() < d@.len() {
            Ok(Some(d@[d@.len() - self.pos() - 1]))
        } else {
            Ok(None)
        }
    }

    /// A cursor at the tail of `deque`.
    pub fn new(deque: &Deque) -> (it: ReverseDequeIterator)
        ensures
            it.is_active(),
            it.captured() == deque.gen(),
            it.pos() == 0,
    {
        ReverseDequeIterator {
            generation: deque.generation(),
            position: 0,
            status: CursorStatus::Active,
        }
    }

    /// A reverse cursor over `deque` that resumes `index` elements from the
    /// tail (a negative index counts as 0).
    pub fn with_index(deque: &Deque, index: Option<isize>) -> (it: ReverseDequeIterator)
        ensures
            it.is_active(),
            it.captured() == deque.gen(),
            it.pos() == match index {
                Some(i) => if i < 0 {
                    0
                } else {
                    i as int
                },
                None => 0,
            },
    {
        ReverseDequeIterator {
            generation: deque.generation(),
            position: clamp_start(index),
            status: CursorStatus::Active,
        }
    }

    /// How many elements are left: 0 once exhausted.
    pub fn length_hint(&self, deque: &Deque) -> (n: usize)
        ensures
            n == self.hint(deque),
    {
        match self.status {
            CursorStatus::Active => {
                let len = deque.len();
                if self.position < len {
                    len - self.position
                } else {
                    0
                }
            },
            CursorStatus::Exhausted => 0,
        }
    }

    /// Advances over `deque` from the tail, as `DequeIterator::next` does
    /// from the head.
    pub fn next(&mut self, deque: &Deque) -> (r: Result<Option<i64>, DequeError>)
        ensures
            r == old(self).step_result(deque),
            final(self).captured() == old(self).captured(),
            !old(self).is_active() ==> *final(self) == *old(self),
            r is Err ==> *final(self) == *old(self),
            r matches Ok(Some(_)) ==> final(self).is_active()
                && final(self).pos() == old(self).pos() + 1,
            old(self).is_active() && r == Ok::<Option<i64>, DequeError>(None)
                ==> !final(self).is_active() && final(self).pos() == old(self).pos(),
    {
        match self.status {
            CursorStatus::Exhausted => Ok(None),
            CursorStatus::Active => {
                if deque.generation() != self.generation {
                    return Err(DequeError::ConcurrentMutation);
                }
                let len = deque.len();
                if self.position < len {
                    let x = deque.at(len - self.position - 1);
                    self.position = self.position + 1;
                    Ok(Some(x))
                } else {
                    self.status = CursorStatus::Exhausted;
                    Ok(None)
                }
            },
        }
    }

    /// The container and position from which an equal cursor can be rebuilt,
    /// as `DequeIterator::reduce` gives them.
    pub fn reduce(&self, deque: &Deque) -> (r: (Deque, usize))
        ensures
            r.1 == self.pos(),
            self.is_active() ==> r.0@ == deque@ && r.0.cap() == deque.cap(),
            !self.is_active() ==> r.0@ == Seq::<i64>::empty() && r.0.cap() is None,
    {
        match self.status {
            CursorStatus::Active => (deque.copy(), self.position),
            CursorStatus::Exhausted => (Deque::new(None), self.position),
        }
    }
}

impl Deque {
    /// A forward cursor over the elements.
    pub fn iter(&self) -> (it: DequeIterator)
        ensures
            it.is_active(),
            it.captured() == self.gen(),
            it.pos() == 0,
    {
        DequeIterator::new(self)
    }

    /// A reverse cursor over the elements.
    pub fn reversed(&self) -> (it: ReverseDequeIterator)
        ensures
            it.is_active(),
            it.captured() == self.gen(),
            it.pos() == 0,
    {
        ReverseDequeIterator::new(self)
    }

    /// The reconstruction description: the capacity, and a cursor over the
    /// current elements from which `replay` rebuilds an equal container.
    pub fn reduce(&self) -> (r: (Option<usize>, DequeIterator))
        ensures
            r.0 == self.cap(),
            r.1.is_active(),
            r.1.captured() == self.gen(),
            r.1.pos() == 0,
    {
        (self.maxlen(), DequeIterator::new(self))
    }

    /// Rebuilds a container from a reconstruction description: a new
    /// container with capacity `maxlen`, filled by pushing at the back what
    /// `cursor` yields over `source`.
    pub fn replay(maxlen: Option<usize>, cursor: DequeIterator, source: &Deque) -> (r: Result<
        Deque,
        DequeError,
    >)
        ensures
            !cursor.is_active() ==> (r matches Ok(d) && d@ == Seq::<i64>::empty() && d.cap()
                == maxlen),
            cursor.is_active() && source.gen() != cursor.captured() ==> r == Err::<
                Deque,
                DequeError,
            >(DequeError::ConcurrentMutation),
            cursor.is_active() && source.gen() == cursor.captured() ==> (r matches Ok(d) && d@
                == replayed(maxlen, cursor.pos(), source@) && d.cap() == maxlen),
            r matches Ok(d) ==> d.wf(),
    {
        let ghost start = cursor.pos();
        let mut d = Deque::new(maxlen);
        let mut it = cursor;
        loop
            invariant
                d.wf(),
                d.cap() == maxlen,
                start == cursor.pos(),
                it.captured() == cursor.captured(),
                !cursor.is_active() ==> it == cursor && d@ == Seq::<i64>::empty(),
                cursor.is_active() && source.gen() == cursor.captured() && start < source@.len()
                    ==> it.is_active() && start <= it.pos() <= source@.len() && d@ == bound_tail(
                    source@.subrange(start as int, it.pos() as int),
                    maxlen,
                ),
                cursor.is_active() && source.gen() == cursor.captured() && start
                    >= source@.len() ==> it == cursor && d@ == Seq::<i64>::empty(),
                cursor.is_active() && source.gen() != cursor.captured() ==> it == cursor,
            decreases remaining(source@.len(), it.pos()),
        {
            let ghost prior = it;
            match it.next(source) {
                Err(e) => {
                    return Err(e);
                },
                Ok(None) => {
                    return Ok(d);
                },
                Ok(Some(x)) => {
                    d.append(x);
                    proof {
                        let prev = source@.subrange(start as int, prior.pos() as int);
                        lemma_push_back_step(prev, x, maxlen);
                        assert(prev.push(x) =~= source@.subrange(start as int, it.pos() as int));
                    }
                },
            }
        }
    }
}

/// Reconstruction round trip: replaying the description of a container that
/// fits its capacity gives back the same elements in the same order, and
/// `replay` gives the result that capacity.
pub proof fn lemma_reconstruction_round_trip(d: &Deque)
    requires
        d.wf(),
    ensures
        replayed(d.cap(), 0, d@) == d@,
{
    if d@.len() > 0 {
        assert(d@.subrange(0, d@.len() as int) =~= d@);
    }
}

/// Cursor exhaustion: an exhausted cursor of either kind reports the end on
/// every further advance, without changing, and estimates no elements left.
pub proof fn lemma_exhausted_cursor(
    forward: DequeIterator,
    backward: ReverseDequeIterator,
    d: &Deque,
)
    requires
        !forward.is_active(),
        !backward.is_active(),
    ensures
        forward.step_result(d) == Ok::<Option<i64>, DequeError>(None),
        forward.hint(d) == 0,
        backward.step_result(d) == Ok::<Option<i64>, DequeError>(None),
        backward.hint(d) == 0,
{
}

/// Mutation visibility: once a generation-bumping mutation has happened
/// since a cursor of either kind was made, its next advance fails.
pub proof fn lemma_mutation_visible(
    forward: DequeIterator,
    backward: ReverseDequeIterator,
    before: &Deque,
    after: &Deque,
)
    requires
        forward.is_active(),
        backward.is_active(),
        forward.captured() == before.gen(),
        backward.captured() == before.gen(),
        after.gen() == next_generation(before.gen()),
    ensures
        forward.step_result(after) == Err::<Option<i64>, DequeError>(
            DequeError::ConcurrentMutation,
        ),
        backward.step_result(after) == Err::<Option<i64>, DequeError>(
            DequeError::ConcurrentMutation,
        ),
{
}

} // verus!
