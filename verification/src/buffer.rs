//! A cursor over a sequence of items that can take items back.

use vstd::prelude::*;

verus! {

/// A stream of items read front to back. Items that were read can be pushed back
/// onto the front, in any number.
pub struct Buffer<T> {
    /// What was pushed back: the last item is the next one to be read.
    stack: Vec<T>,
    /// The items the buffer was made of.
    source: Vec<T>,
    /// How many items of `source` have been read.
    read: usize,
}

impl<T> View for Buffer<T> {
    type V = Seq<T>;

    /// The items still to be read, the next one first.
    closed spec fn view(&self) -> Seq<T> {
        Seq::new(
            self.stack@.len() + self.unread(),
            |i: int|
                if i < self.stack@.len() {
                    self.stack@[self.stack@.len() - 1 - i]
                } else {
                    self.source@[self.read + i - self.stack@.len()]
                },
        )
    }
}

impl<T> Buffer<T> {
    /// How many items of `source` are still to be read.
    spec fn unread(&self) -> nat {
        if self.read <= self.source@.len() {
            (self.source@.len() - self.read) as nat
        } else {
            0
        }
    }
}

impl<T: Copy> Buffer<T> {
    /// A buffer that reads the items of `source`, the first one first.
    pub fn new(source: Vec<T>) -> (buffer: Buffer<T>)
        ensures
            buffer@ == source@,
    {
        let buffer = Buffer { stack: Vec::new(), source, read: 0 };
        proof {
            assert(buffer@ =~= source@);
        }
        buffer
    }

    /// Whether nothing is left to read. The stream stays as it is.
    pub fn is_empty(&mut self) -> (empty: bool)
        ensures
            final(self)@ == old(self)@,
            empty == (old(self)@.len() == 0),
    {
        match self.pop() {
            Some(c) => {
                self.push(c);
                proof {
                    assert(self@ =~= old(self)@);
                }
                false
            },
            None => true,
        }
    }

    /// Reads items up to the first one for which `f` holds, which stays in the
    /// stream, or up to the end. Returns the items read, in order.
    pub fn take_until<F: Fn(&T) -> bool>(&mut self, f: F) -> (taken: Vec<T>)
        requires
            forall|x: &T| f.requires((x,)),
        ensures
            old(self)@ == taken@ + final(self)@,
            forall|i: int| 0 <= i < taken@.len() ==> f.ensures((&#[trigger] taken@[i],), false),
            final(self)@.len() > 0 ==> f.ensures((&final(self)@[0],), true),
    {
        let mut taken: Vec<T> = Vec::new();
        loop
            invariant
                forall|x: &T| f.requires((x,)),
                old(self)@ == taken@ + self@,
                forall|i: int| 0 <= i < taken@.len() ==> f.ensures((&#[trigger] taken@[i],), false),
            decreases self@.len(),
        {
            let ghost before = self@;
            match self.pop() {
                Some(x) => {
                    if f(&x) {
                        self.push(x);
                        proof {
                            assert(self@ =~= before);
                        }
                        return taken;
                    } else {
                        taken.push(x);
                        proof {
                            assert(old(self)@ =~= taken@ + self@);
                        }
                    }
                },
                None => {
                    return taken;
                },
            }
        }
    }

    /// The next item, if there is one. The stream stays as it is.
    pub fn peek(&mut self) -> (next: Option<T>)
        ensures
            final(self)@ == old(self)@,
            old(self)@.len() == 0 ==> next is None,
            old(self)@.len() > 0 ==> next == Some(old(self)@[0]),
    {
        match self.pop() {
            Some(c) => {
                self.push(c);
                proof {
                    assert(self@ =~= old(self)@);
                }
                Some(c)
            },
            None => None,
        }
    }

    /// Reads the next item, if there is one.
    pub fn pop(&mut self) -> (next: Option<T>)
        ensures
            old(self)@.len() == 0 ==> next is None && final(self)@ == old(self)@,
            old(self)@.len() > 0 ==> next == Some(old(self)@[0]) && final(self)@ == old(
                self,
            )@.drop_first(),
    {
        match self.stack.pop() {
            Some(c) => {
                proof {
                    assert(self@ =~= old(self)@.drop_first());
                }
                Some(c)
            },
            None => {
                if self.read < self.source.len() {
                    let c = self.source[self.read];
                    self.read = self.read + 1;
                    proof {
                        assert(self@ =~= old(self)@.drop_first());
                    }
                    Some(c)
                } else {
                    None
                }
            },
        }
    }

    /// Puts `elem` back at the front of the stream: it is the next item read.
    pub fn push(&mut self, elem: T)
        ensures
            final(self)@ == seq![elem] + old(self)@,
    {
        self.stack.push(elem);
        proof {
            assert(self@ =~= seq![elem] + old(self)@);
        }
    }
}

} // verus!
