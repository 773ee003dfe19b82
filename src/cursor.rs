use vstd::prelude::*;

verus! {

/// Stores a buffer and an index into that buffer. This acts like an iterator, except that the
/// current index can be moved backwards or to an arbitrary location in the buffer.
///
/// The index always points at an element of the buffer, so an empty buffer has no cursor.
/// Any method that reports a failure leaves the cursor as it was.
pub struct Cursor<T> {
    buffer: Vec<T>,
    index: usize,
}

impl<T> View for Cursor<T> {
    /// The buffer's elements and the current index.
    type V = (Seq<T>, nat);

    closed spec fn view(&self) -> (Seq<T>, nat) {
        (self.buffer@, self.index as nat)
    }
}

impl<T> Cursor<T> {
    #[verifier::type_invariant]
    spec fn index_in_buffer(self) -> bool {
        self.index < self.buffer@.len() <= usize::MAX
    }

    /// The elements of the buffer.
    pub open spec fn items(&self) -> Seq<T> {
        self@.0
    }

    /// The current index.
    pub open spec fn index(&self) -> nat {
        self@.1
    }

    /// Makes a cursor at index 0 of `buffer`, or `None` when the buffer is empty.
    pub fn new(buffer: Vec<T>) -> (r: Option<Self>)
        ensures
            buffer@.len() == 0 <==> r is None,
            r is Some ==> r.unwrap().items() == buffer@ && r.unwrap().index() == 0,
    {
        if buffer.len() != 0 {
            Some(Cursor { buffer, index: 0 })
        } else {
            None
        }
    }

    /// The index the cursor is currently at.
    pub fn pos(&self) -> (r: usize)
        ensures
            r == self.index(),
            r < self.items().len(),
    {
        proof {
            use_type_invariant(self);
        }
        self.index
    }

    /// Moves to index `pos`. Fails, leaving the cursor as it was, when `pos` is out of bounds.
    pub fn move_to(&mut self, pos: usize) -> (r: Result<(), ()>)
        ensures
            r is Ok <==> pos < old(self).items().len(),
            r is Ok ==> final(self).items() == old(self).items()
                && final(self).index() == pos as nat,
            r is Err ==> final(self)@ == old(self)@,
    {
        if pos < self.buffer.len() {
            self.index = pos;
            Ok(())
        } else {
            Err(())
        }
    }

    /// Moves the index `amount` forward. Fails, leaving the cursor as it was, when the sum
    /// overflows or the new index is out of bounds.
    pub fn advance_by(&mut self, amount: usize) -> (r: Result<(), ()>)
        ensures
            r is Ok <==> old(self).index() + amount < old(self).items().len(),
            r is Ok ==> final(self).items() == old(self).items()
                && final(self).index() == old(self).index() + amount,
            r is Err ==> final(self)@ == old(self)@,
    {
        let len = self.buffer.len();
        match self.index.checked_add(amount) {
            Some(index) => {
                if index < len {
                    self.index = index;
                    Ok(())
                } else {
                    Err(())
                }
            },
            None => Err(()),
        }
    }

    /// Moves the index `amount` backwards. Fails, leaving the cursor as it was, when the new
    /// index would be below 0.
    pub fn retreat_by(&mut self, amount: usize) -> (r: Result<(), ()>)
        ensures
            r is Ok <==> amount <= old(self).index(),
            r is Ok ==> final(self).items() == old(self).items()
                && final(self).index() == (old(self).index() - amount) as nat,
            r is Err ==> final(self)@ == old(self)@,
    {
        proof {
            use_type_invariant(&*self);
        }
        match self.index.checked_sub(amount) {
            Some(index) => {
                self.index = index;
                Ok(())
            },
            None => Err(()),
        }
    }

    /// Moves the index forwards or backwards by `offset`, as its sign says. Fails, leaving the
    /// cursor as it was, when the new index would be out of bounds.
    pub fn offset_by(&mut self, offset: isize) -> (r: Result<(), ()>)
        ensures
            r is Ok <==> 0 <= old(self).index() + offset < old(self).items().len(),
            r is Ok ==> final(self).items() == old(self).items()
                && final(self).index() == (old(self).index() + offset) as nat,
            r is Err ==> final(self)@ == old(self)@,
    {
        proof {
            use_type_invariant(&*self);
        }
        if offset >= 0 {
            self.advance_by(offset as usize)
        } else {
            let magnitude: usize = (-(offset + 1)) as usize + 1;
            self.retreat_by(magnitude)
        }
    }

    /// Moves the index forward by 1 and returns the value there, or `None`, leaving the cursor
    /// as it was, when there is no next value.
    pub fn next_val(&mut self) -> (r: Option<&T>)
        ensures
            r is Some <==> old(self).index() + 1 < old(self).items().len(),
            r is Some ==> final(self).items() == old(self).items()
                && final(self).index() == old(self).index() + 1
                && *r.unwrap() == old(self).items()[old(self).index() + 1int],
            r is None ==> final(self)@ == old(self)@,
    {
        match self.offset_by(1) {
            Ok(()) => Some(&self.buffer[self.index]),
            Err(()) => None,
        }
    }

    /// The value at the current index.
    pub fn current_value(&self) -> (r: &T)
        ensures
            *r == self.items()[self.index() as int],
    {
        proof {
            use_type_invariant(self);
        }
        &self.buffer[self.index]
    }

    /// Moves the index backwards by 1 and returns the value there, or `None`, leaving the
    /// cursor as it was, when the cursor is at index 0.
    pub fn previous_value(&mut self) -> (r: Option<&T>)
        ensures
            r is Some <==> old(self).index() >= 1,
            r is Some ==> final(self).items() == old(self).items()
                && final(self).index() == (old(self).index() - 1) as nat
                && *r.unwrap() == old(self).items()[old(self).index() - 1],
            r is None ==> final(self)@ == old(self)@,
    {
        proof {
            use_type_invariant(&*self);
        }
        match self.offset_by(-1) {
            Ok(()) => Some(&self.buffer[self.index]),
            Err(()) => None,
        }
    }

    /// Takes the next `count` values, not counting the current one, and leaves the index on the
    /// last of them. Returns `None`, leaving the cursor as it was, when `count` is 0 or fewer than
    /// `count` values follow the current one.
    pub fn next_values(&mut self, count: usize) -> (r: Option<&[T]>)
        ensures
            r is Some <==> 1 <= count && old(self).index() + count < old(self).items().len(),
            r is Some ==> final(self).items() == old(self).items()
                && final(self).index() == old(self).index() + count
                && r.unwrap()@ == old(self).items().subrange(
                old(self).index() + 1int,
                old(self).index() + count + 1,
            ),
            r is None ==> final(self)@ == old(self)@,
    {
        if count == 0 {
            return None;
        }
        match self.advance_by(1) {
            Ok(()) => {},
            Err(()) => return None,
        }
        let start = self.index;
        match self.advance_by(count - 1) {
            Ok(()) => {
                proof {
                    use_type_invariant(&*self);
                }
                let end = self.index + 1;
                Some(&self.buffer.as_slice()[start..end])
            },
            Err(()) => {
                // The window does not fit: undo the first step.
                proof {
                    use_type_invariant(&*self);
                }
                self.index = start - 1;
                None
            },
        }
    }

    /// Takes the next `N` values as an array, as `next_values` does with a count of `N`.
    pub fn next_n_values<const N: usize>(&mut self) -> (r: Option<&[T; N]>)
        ensures
            r is Some <==> 1 <= N && old(self).index() + N < old(self).items().len(),
            r is Some ==> final(self).items() == old(self).items()
                && final(self).index() == old(self).index() + N
                && r.unwrap()@ == old(self).items().subrange(
                old(self).index() + 1int,
                old(self).index() + N + 1,
            ),
            r is None ==> final(self)@ == old(self)@,
    {
        match self.next_values(N) {
            Some(window) => slice_as_array(window),
            None => None,
        }
    }

    /// The value at the index after the current one, if there is one. Never moves the cursor.
    pub fn peek_next_value(&self) -> (r: Option<&T>)
        ensures
            r is Some <==> self.index() + 1 < self.items().len(),
            r is Some ==> *r.unwrap() == self.items()[self.index() + 1int],
    {
        let len = self.buffer.len();
        match self.index.checked_add(1) {
            Some(next) => {
                if next < len {
                    Some(&self.buffer[next])
                } else {
                    None
                }
            },
            None => None,
        }
    }

    /// The value at the index before the current one, if there is one. Never moves the cursor.
    pub fn peek_previous_value(&self) -> (r: Option<&T>)
        ensures
            r is Some <==> self.index() >= 1,
            r is Some ==> *r.unwrap() == self.items()[self.index() - 1],
    {
        proof {
            use_type_invariant(self);
        }
        match self.index.checked_sub(1) {
            Some(previous) => Some(&self.buffer[previous]),
            None => None,
        }
    }

    /// The number of values in the buffer past the current index.
    pub fn remaining_values(&self) -> (r: usize)
        ensures
            r == self.items().len() - self.index() - 1,
    {
        proof {
            use_type_invariant(self);
        }
        self.buffer.len() - self.index - 1
    }
}

/// Relies on `<&[T; N]>::try_from(&[T])`: it succeeds exactly when the slice holds `N`
/// elements, and the array is then those elements.
#[verifier::external_body]
fn slice_as_array<T, const N: usize>(s: &[T]) -> (r: Option<&[T; N]>)
    ensures
        r is Some <==> s@.len() == N,
        r is Some ==> r.unwrap()@ == s@,
{
    <&[T; N]>::try_from(s).ok()
}

} // verus!
