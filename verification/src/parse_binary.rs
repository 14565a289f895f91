//! Reading big-endian integers from binary formats.

use vstd::prelude::*;

use crate::error::ParseError;
use crate::xref::stream::parser::{be_to_u64, be_value, lemma_be_value_bound, pow256};

verus! {

/// The cursor after a read of `n` bytes at `c` from a buffer of length
/// `len`: each byte that is there is consumed.
pub open spec fn cursor_after(c: int, n: int, len: int) -> int {
    if c >= len {
        c
    } else if c + n <= len {
        c + n
    } else {
        len
    }
}

/// The two's complement value of the big-endian integer `s`, whose values
/// range over `0..modulus`
pub open spec fn be_signed(s: Seq<u8>, modulus: nat) -> int {
    if be_value(s) >= modulus / 2 {
        be_value(s) - modulus
    } else {
        be_value(s) as int
    }
}

/// Generic trait for parsing binary formats: a buffer and a cursor into it,
/// from which bytes are read in order.
pub trait BinaryParser {
    /// The bytes being read
    spec fn buffer_view(&self) -> Seq<u8>;

    /// The position of the next byte to read
    spec fn cursor_view(&self) -> int;

    fn buffer(&self) -> (r: &[u8])
        ensures
            r@ == self.buffer_view(),
    ;

    fn cursor(&self) -> (r: usize)
        ensures
            r == self.cursor_view(),
    ;

    /// Moves the cursor to `pos`, leaving the buffer as it is.
    fn set_cursor(&mut self, pos: usize)
        ensures
            final(self).cursor_view() == pos,
            final(self).buffer_view() == old(self).buffer_view(),
    ;

    /// Reads the byte at the cursor and moves past it.
    fn next(&mut self) -> (r: Result<u8, ParseError>)
        ensures
            final(self).buffer_view() == old(self).buffer_view(),
            0 <= old(self).cursor_view() < old(self).buffer_view().len() ==> r == Ok::<u8, ParseError>(
                old(self).buffer_view()[old(self).cursor_view()],
            ) && final(self).cursor_view() == old(self).cursor_view() + 1,
            !(0 <= old(self).cursor_view() < old(self).buffer_view().len()) ==> r == Err::<u8, ParseError>(
                ParseError::UnexpectedEof,
            ) && final(self).cursor_view() == old(self).cursor_view(),
    {
        let c = self.cursor();
        let len = self.buffer().len();
        if c < len {
            let b = self.buffer()[c];
            self.set_cursor(c + 1);
            Ok(b)
        } else {
            Err(ParseError::UnexpectedEof)
        }
    }

    /// The byte at the cursor, if any; the cursor stays.
    fn peek(&mut self) -> (r: Option<u8>)
        ensures
            final(self).buffer_view() == old(self).buffer_view(),
            final(self).cursor_view() == old(self).cursor_view(),
            0 <= old(self).cursor_view() < old(self).buffer_view().len() ==> r == Some(
                old(self).buffer_view()[old(self).cursor_view()],
            ),
            !(0 <= old(self).cursor_view() < old(self).buffer_view().len()) ==> r is None,
    {
        let c = self.cursor();
        let len = self.buffer().len();
        if c < len {
            Some(self.buffer()[c])
        } else {
            None
        }
    }

    /// Reads `N` bytes, or fails having consumed those that were there.
    fn parse_bytes<const N: usize>(&mut self) -> (r: Result<[u8; N], ParseError>)
        requires
            0 <= old(self).cursor_view(),
        ensures
            final(self).buffer_view() == old(self).buffer_view(),
            final(self).cursor_view() == cursor_after(old(self).cursor_view(), N as int, old(self).buffer_view().len() as int),
            old(self).cursor_view() + N <= old(self).buffer_view().len() ==> r is Ok
                && r->Ok_0@ == old(self).buffer_view().subrange(old(self).cursor_view(), old(self).cursor_view() + N),
            old(self).cursor_view() + N > old(self).buffer_view().len() ==> r == Err::<[u8; N], ParseError>(ParseError::UnexpectedEof),
    {
        let c = self.cursor();
        let len = self.buffer().len();
        if c > len {
            return Err(ParseError::UnexpectedEof);
        }
        if N > len - c {
            self.set_cursor(len);
            return Err(ParseError::UnexpectedEof);
        }
        let mut out: [u8; N] = [0u8; N];
        let mut i: usize = 0;
        while i < N
            invariant
                i <= N,
                c + N <= len,
                len == self.buffer_view().len(),
                self.buffer_view() == old(self).buffer_view(),
                self.cursor_view() == old(self).cursor_view(),
                c == old(self).cursor_view(),
                out@.len() == N,
                forall|j: int| 0 <= j < i ==> out@[j] == self.buffer_view()[c + j],
            decreases N - i,
        {
            let b = self.buffer()[c + i];
            out[i] = b;
            i = i + 1;
        }
        self.set_cursor(c + N);
        assert(out@ =~= old(self).buffer_view().subrange(c as int, c + N));
        Ok(out)
    }

    /// Reads a big-endian `u16`.
    fn parse_u16(&mut self) -> (r: Result<u16, ParseError>)
        requires
            0 <= old(self).cursor_view(),
        ensures
            final(self).buffer_view() == old(self).buffer_view(),
            final(self).cursor_view() == cursor_after(old(self).cursor_view(), 2, old(self).buffer_view().len() as int),
            old(self).cursor_view() + 2 <= old(self).buffer_view().len() ==> r is Ok && r->Ok_0 == be_value(old(self).buffer_view().subrange(old(self).cursor_view(), old(self).cursor_view() + 2)),
            old(self).cursor_view() + 2 > old(self).buffer_view().len() ==> r == Err::<u16, ParseError>(ParseError::UnexpectedEof),
    {
        let b = match self.parse_bytes::<2>() {
            Ok(b) => b,
            Err(e) => {
                return Err(e);
            },
        };
        let u = be_to_u64(&b);
        proof {
            lemma_be_value_bound(b@);
            reveal_with_fuel(pow256, 3);
        }
        Ok(u as u16)
    }

    /// Reads a big-endian two's complement `i16`.
    fn parse_i16(&mut self) -> (r: Result<i16, ParseError>)
        requires
            0 <= old(self).cursor_view(),
        ensures
            final(self).buffer_view() == old(self).buffer_view(),
            final(self).cursor_view() == cursor_after(old(self).cursor_view(), 2, old(self).buffer_view().len() as int),
            old(self).cursor_view() + 2 <= old(self).buffer_view().len() ==> r is Ok && r->Ok_0 == be_signed(old(self).buffer_view().subrange(old(self).cursor_view(), old(self).cursor_view() + 2), 0x1_0000),
            old(self).cursor_view() + 2 > old(self).buffer_view().len() ==> r == Err::<i16, ParseError>(ParseError::UnexpectedEof),
    {
        let b = match self.parse_bytes::<2>() {
            Ok(b) => b,
            Err(e) => {
                return Err(e);
            },
        };
        let u = be_to_u64(&b);
        proof {
            lemma_be_value_bound(b@);
            reveal_with_fuel(pow256, 3);
        }
        if u >= 32768 {
            Ok((u as i64 - 65536) as i16)
        } else {
            Ok(u as i16)
        }
    }

    /// Reads a big-endian `u32`.
    fn parse_u32(&mut self) -> (r: Result<u32, ParseError>)
        requires
            0 <= old(self).cursor_view(),
        ensures
            final(self).buffer_view() == old(self).buffer_view(),
            final(self).cursor_view() == cursor_after(old(self).cursor_view(), 4, old(self).buffer_view().len() as int),
            old(self).cursor_view() + 4 <= old(self).buffer_view().len() ==> r is Ok && r->Ok_0 == be_value(old(self).buffer_view().subrange(old(self).cursor_view(), old(self).cursor_view() + 4)),
            old(self).cursor_view() + 4 > old(self).buffer_view().len() ==> r == Err::<u32, ParseError>(ParseError::UnexpectedEof),
    {
        let b = match self.parse_bytes::<4>() {
            Ok(b) => b,
            Err(e) => {
                return Err(e);
            },
        };
        let u = be_to_u64(&b);
        proof {
            lemma_be_value_bound(b@);
            reveal_with_fuel(pow256, 5);
        }
        Ok(u as u32)
    }

    /// Reads a big-endian two's complement `i32`.
    fn parse_i32(&mut self) -> (r: Result<i32, ParseError>)
        requires
            0 <= old(self).cursor_view(),
        ensures
            final(self).buffer_view() == old(self).buffer_view(),
            final(self).cursor_view() == cursor_after(old(self).cursor_view(), 4, old(self).buffer_view().len() as int),
            old(self).cursor_view() + 4 <= old(self).buffer_view().len() ==> r is Ok && r->Ok_0 == be_signed(old(self).buffer_view().subrange(old(self).cursor_view(), old(self).cursor_view() + 4), 0x1_0000_0000),
            old(self).cursor_view() + 4 > old(self).buffer_view().len() ==> r == Err::<i32, ParseError>(ParseError::UnexpectedEof),
    {
        let b = match self.parse_bytes::<4>() {
            Ok(b) => b,
            Err(e) => {
                return Err(e);
            },
        };
        let u = be_to_u64(&b);
        proof {
            lemma_be_value_bound(b@);
            reveal_with_fuel(pow256, 5);
        }
        if u >= 2147483648 {
            Ok((u as i64 - 4294967296) as i32)
        } else {
            Ok(u as i32)
        }
    }

    /// Reads a big-endian `u64`.
    fn parse_u64(&mut self) -> (r: Result<u64, ParseError>)
        requires
            0 <= old(self).cursor_view(),
        ensures
            final(self).buffer_view() == old(self).buffer_view(),
            final(self).cursor_view() == cursor_after(old(self).cursor_view(), 8, old(self).buffer_view().len() as int),
            old(self).cursor_view() + 8 <= old(self).buffer_view().len() ==> r is Ok && r->Ok_0 == be_value(old(self).buffer_view().subrange(old(self).cursor_view(), old(self).cursor_view() + 8)),
            old(self).cursor_view() + 8 > old(self).buffer_view().len() ==> r == Err::<u64, ParseError>(ParseError::UnexpectedEof),
    {
        let b = match self.parse_bytes::<8>() {
            Ok(b) => b,
            Err(e) => {
                return Err(e);
            },
        };
        let u = be_to_u64(&b);
        proof {
            lemma_be_value_bound(b@);
            reveal_with_fuel(pow256, 9);
        }
        Ok(u as u64)
    }

    /// Reads a big-endian two's complement `i64`.
    fn parse_i64(&mut self) -> (r: Result<i64, ParseError>)
        requires
            0 <= old(self).cursor_view(),
        ensures
            final(self).buffer_view() == old(self).buffer_view(),
            final(self).cursor_view() == cursor_after(old(self).cursor_view(), 8, old(self).buffer_view().len() as int),
            old(self).cursor_view() + 8 <= old(self).buffer_view().len() ==> r is Ok && r->Ok_0 == be_signed(old(self).buffer_view().subrange(old(self).cursor_view(), old(self).cursor_view() + 8), 0x1_0000_0000_0000_0000),
            old(self).cursor_view() + 8 > old(self).buffer_view().len() ==> r == Err::<i64, ParseError>(ParseError::UnexpectedEof),
    {
        let b = match self.parse_bytes::<8>() {
            Ok(b) => b,
            Err(e) => {
                return Err(e);
            },
        };
        let u = be_to_u64(&b);
        proof {
            lemma_be_value_bound(b@);
            reveal_with_fuel(pow256, 9);
        }
        if u >= 9223372036854775808 {
            Ok(-((u64::MAX - u) as i64) - 1)
        } else {
            Ok(u as i64)
        }
    }

    /// Reads four bytes: the big-endian bytes of a `u32`.
    fn parse_u32_bytes(&mut self) -> (r: Result<[u8; 4], ParseError>)
        requires
            0 <= old(self).cursor_view(),
        ensures
            final(self).buffer_view() == old(self).buffer_view(),
            final(self).cursor_view() == cursor_after(old(self).cursor_view(), 4, old(self).buffer_view().len() as int),
            old(self).cursor_view() + 4 <= old(self).buffer_view().len() ==> r is Ok
                && r->Ok_0@ == old(self).buffer_view().subrange(old(self).cursor_view(), old(self).cursor_view() + 4),
            old(self).cursor_view() + 4 > old(self).buffer_view().len() ==> r == Err::<[u8; 4], ParseError>(ParseError::UnexpectedEof),
    {
        self.parse_bytes::<4>()
    }
}

/// A binary parser over an owned byte buffer
#[derive(Debug)]
pub struct ByteCursor {
    buffer: Vec<u8>,
    cursor: usize,
}

impl ByteCursor {
    pub fn new(buffer: Vec<u8>) -> (r: ByteCursor)
        ensures
            r.buffer_view() == buffer@,
            r.cursor_view() == 0,
    {
        ByteCursor { buffer, cursor: 0 }
    }
}

impl BinaryParser for ByteCursor {
    closed spec fn buffer_view(&self) -> Seq<u8> {
        self.buffer@
    }

    closed spec fn cursor_view(&self) -> int {
        self.cursor as int
    }

    fn buffer(&self) -> (r: &[u8]) {
        self.buffer.as_slice()
    }

    fn cursor(&self) -> (r: usize) {
        self.cursor
    }

    fn set_cursor(&mut self, pos: usize) {
        self.cursor = pos;
    }
}

} // verus!
