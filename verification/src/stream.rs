//! The boundary to the tokenizer: a source of characters that can be
//! tested for what it starts with.

use vstd::prelude::*;
use crate::text::chars_of;

verus! {

/// Why a stream could not be read.
#[derive(Debug, Clone, Copy, PartialEq, Eq, Structural)]
pub enum StreamError {
    /// A move past the end of the stream.
    PastEnd,
}

/// Something that characters can be read from. Whenever a new line is met
/// it can be taken as a new source: nothing moves back before the start of
/// a line.
pub trait Stream {
    /// The characters that are still to be read.
    spec fn remaining(&self) -> Seq<char>;

    /// The error that the stream gives whenever it is looked at or moved,
    /// where the source underneath is in a state to give one. Looking and
    /// moving leave it as it is.
    spec fn failure(&self) -> Option<StreamError>;

    /// Whether the stream starts with `s`. Nothing is read. A source that
    /// gives an error gives it here.
    fn starts_with(&mut self, s: &str) -> (r: Result<bool, StreamError>)
        ensures
            final(self).remaining() == old(self).remaining(),
            final(self).failure() == old(self).failure(),
            r == match old(self).failure() {
                Some(e) => Err::<bool, StreamError>(e),
                None => Ok(s@.is_prefix_of(old(self).remaining())),
            },
    ;

    /// Moves forward over `n` characters. A source that gives an error
    /// gives it here; a move past the end is refused. Neither moves the
    /// stream.
    fn skip(&mut self, n: usize) -> (r: Result<(), StreamError>)
        ensures
            final(self).failure() == old(self).failure(),
            r == match old(self).failure() {
                Some(e) => Err::<(), StreamError>(e),
                None => if n <= old(self).remaining().len() {
                    Ok(())
                } else {
                    Err(StreamError::PastEnd)
                },
            },
            final(self).remaining() == if r is Ok {
                old(self).remaining().skip(n as int)
            } else {
                old(self).remaining()
            },
    ;

    /// The next character, which is read.
    fn next(&mut self) -> (c: Option<char>)
        ensures
            match c {
                Some(c) => old(self).remaining().len() > 0 && c == old(self).remaining()[0]
                    && final(self).remaining() == old(self).remaining().skip(1),
                None => final(self).remaining() == old(self).remaining(),
            },
    ;

    /// If the stream starts with `s`, moves forward over it and says
    /// true; else says false and reads nothing. A source that gives an
    /// error gives it here, and nothing is read.
    fn next_if_starts_with(&mut self, s: &str) -> (r: Result<bool, StreamError>)
        ensures
            final(self).failure() == old(self).failure(),
            r == match old(self).failure() {
                Some(e) => Err::<bool, StreamError>(e),
                None => Ok(s@.is_prefix_of(old(self).remaining())),
            },
            final(self).remaining() == if r == Ok::<bool, StreamError>(true) {
                old(self).remaining().skip(s@.len() as int)
            } else {
                old(self).remaining()
            },
    {
        match self.starts_with(s) {
            Ok(true) => {
                let n = chars_of(s).len();
                match self.skip(n) {
                    Ok(_) => Ok(true),
                    Err(e) => Err(e),
                }
            },
            Ok(false) => Ok(false),
            Err(e) => Err(e),
        }
    }
}

/// A stream over characters that are held in memory.
#[derive(Debug)]
pub struct CharStream {
    chars: Vec<char>,
    position: usize,
}

impl CharStream {
    /// The stream is well formed: its position is within its characters.
    #[verifier::type_invariant]
    spec fn wf(&self) -> bool {
        self.position <= self.chars@.len()
    }

    /// A stream over the characters of `text`, at its start.
    pub fn new(text: &str) -> (s: CharStream)
        ensures
            s.remaining() == text@,
            s.failure() is None,
    {
        let chars = chars_of(text);
        assert(chars@.skip(0) =~= chars@);
        CharStream { chars, position: 0 }
    }
}

impl Stream for CharStream {
    closed spec fn remaining(&self) -> Seq<char> {
        self.chars@.skip(self.position as int)
    }

    /// Characters that are held in memory are always there to read.
    open spec fn failure(&self) -> Option<StreamError> {
        None
    }

    fn starts_with(&mut self, s: &str) -> (r: Result<bool, StreamError>) {
        proof {
            use_type_invariant(&*self);
        }
        let wanted = chars_of(s);
        if wanted.len() > self.chars.len() - self.position {
            assert(s@.len() > self.remaining().len());
            return Ok(false);
        }
        let mut i: usize = 0;
        while i < wanted.len()
            invariant
                i <= wanted.len(),
                wanted@ == s@,
                self.position + wanted.len() <= self.chars.len(),
                forall|j: int| 0 <= j < i ==> wanted@[j] == self.chars@[self.position + j],
            decreases wanted.len() - i,
        {
            if wanted[i] != self.chars[self.position + i] {
                assert(self.remaining()[i as int] != s@[i as int]);
                return Ok(false);
            }
            i += 1;
        }
        assert(s@.is_prefix_of(self.remaining())) by {
            assert(s@ =~= self.remaining().subrange(0, s@.len() as int));
        }
        Ok(true)
    }

    fn skip(&mut self, n: usize) -> (r: Result<(), StreamError>) {
        proof {
            use_type_invariant(&*self);
        }
        if n <= self.chars.len() - self.position {
            let ghost before = self.remaining();
            self.position = self.position + n;
            assert(self.remaining() =~= before.skip(n as int));
            Ok(())
        } else {
            Err(StreamError::PastEnd)
        }
    }

    fn next(&mut self) -> (c: Option<char>)
        ensures
            c is Some <==> old(self).remaining().len() > 0,
    {
        proof {
            use_type_invariant(&*self);
        }
        if self.position < self.chars.len() {
            let ghost before = self.remaining();
            let c = self.chars[self.position];
            self.position = self.position + 1;
            assert(self.remaining() =~= before.skip(1));
            Some(c)
        } else {
            None
        }
    }
}

} // verus!
