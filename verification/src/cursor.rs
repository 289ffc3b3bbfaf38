//! The byte cursor: an in-memory buffer with a position, a nesting depth for
//! diagnostics and the localisation flag.
//!
//! The position is a plain 64-bit offset. It may stand past the end of the
//! buffer, as a file offset may: moving there is not an error, reading there
//! is.

use vstd::prelude::*;
use vstd::slice::slice_subrange;
use crate::error::Error;
use crate::layout::FixedLayout;

verus! {

/// The mathematical state of a parser.
pub struct ParserModel {
    /// The bytes of the buffer. No operation changes them.
    pub data: Seq<u8>,
    /// The offset of the next byte to read.
    pub pos: nat,
    /// How many bounded-consume calls are open around the cursor.
    pub depth: nat,
    /// Whether strings are references into a separate string table.
    pub localised: bool,
}

impl ParserModel {
    /// The same state with the cursor at `pos`.
    pub open spec fn at(self, pos: nat) -> ParserModel {
        ParserModel { pos, ..self }
    }

    /// The same state one level deeper.
    pub open spec fn deeper(self) -> ParserModel {
        ParserModel { depth: self.depth + 1, ..self }
    }

    /// Whether `n` bytes can be read at the cursor.
    pub open spec fn can_read(self, n: nat) -> bool {
        self.pos + n <= self.data.len()
    }

    /// The `n` bytes at the cursor.
    pub open spec fn window(self, n: nat) -> Seq<u8> {
        self.data.subrange(self.pos as int, self.pos as int + n as int)
    }

    /// Two states that differ at most in the cursor's position and the
    /// localisation flag: what a handler may change.
    pub open spec fn same_frame(self, other: ParserModel) -> bool {
        self.data == other.data && self.depth == other.depth
    }

    /// This state with the position and the localisation flag of `other`.
    pub open spec fn moved(self, other: ParserModel) -> ParserModel {
        ParserModel { pos: other.pos, localised: other.localised, ..self }
    }

    /// The same state at the depth of `other`.
    pub open spec fn level(self, other: ParserModel) -> ParserModel {
        ParserModel { depth: other.depth, ..self }
    }

    /// What moving `n` bytes forward gives: the state there, unless the
    /// position would leave the 64-bit range.
    pub open spec fn skip(self, n: nat) -> Parsed<()> {
        if self.pos + n <= u64::MAX {
            Ok(((), self.at(self.pos + n)))
        } else {
            Err(Error::Truncated)
        }
    }

    /// What reading one value of a fixed layout gives: the value and the
    /// state behind it, unless the buffer ends before the value does.
    pub open spec fn read<T: FixedLayout>(self) -> Parsed<T> {
        if self.can_read(T::layout_size()) {
            Ok((T::decode(self.window(T::layout_size())), self.at(self.pos + T::layout_size())))
        } else {
            Err(Error::Truncated)
        }
    }
}

/// What a parsing step gives: a value and the state behind it, or the
/// reason why it stopped.
pub type Parsed<T> = Result<(T, ParserModel), Error>;

/// A parser over an in-memory buffer.
pub struct ESMParser2 {
    data: Vec<u8>,
    pos: u64,
    depth: u64,
    localised: bool,
}

impl View for ESMParser2 {
    type V = ParserModel;

    closed spec fn view(&self) -> ParserModel {
        ParserModel {
            data: self.data@,
            pos: self.pos as nat,
            depth: self.depth as nat,
            localised: self.localised,
        }
    }
}

impl ESMParser2 {
    /// A parser at the start of `data`, at depth 0, not localised.
    pub fn cursor(data: Vec<u8>) -> (parser: ESMParser2)
        ensures
            parser@ == (ParserModel { data: data@, pos: 0, depth: 0, localised: false }),
    {
        ESMParser2 { data, pos: 0, depth: 0, localised: false }
    }

    /// A parser at the start of `data` that takes over depth and
    /// localisation flag from `self`.
    pub fn nested(&self, data: Vec<u8>) -> (parser: ESMParser2)
        ensures
            parser@ == (ParserModel {
                data: data@,
                pos: 0,
                depth: self@.depth,
                localised: self@.localised,
            }),
    {
        ESMParser2 { data, pos: 0, depth: self.depth, localised: self.localised }
    }

    /// The offset of the next byte to read.
    pub fn position(&self) -> (pos: u64)
        ensures
            pos == self@.pos,
    {
        self.pos
    }

    /// The length of the buffer.
    pub fn len(&self) -> (n: usize)
        ensures
            n == self@.data.len(),
    {
        self.data.len()
    }

    /// The current nesting depth.
    pub fn depth(&self) -> (depth: u64)
        ensures
            depth == self@.depth,
    {
        self.depth
    }

    /// Whether the buffer holds localised strings.
    pub fn localised(&self) -> (flag: bool)
        ensures
            flag == self@.localised,
    {
        self.localised
    }

    /// Sets the localisation flag.
    pub fn set_localised(&mut self, flag: bool)
        ensures
            final(self)@ == (ParserModel { localised: flag, ..old(self)@ }),
    {
        self.localised = flag;
    }

    /// Enters one level of nesting.
    pub fn push(&mut self)
        requires
            old(self)@.depth < u64::MAX,
        ensures
            final(self)@ == old(self)@.deeper(),
    {
        self.depth = self.depth + 1;
    }

    /// Leaves one level of nesting.
    pub fn pop(&mut self)
        requires
            old(self)@.depth > 0,
        ensures
            final(self)@.deeper() == old(self)@,
    {
        self.depth = self.depth - 1;
    }

    /// Moves the cursor to `pos`, which may lie past the end.
    pub fn seek(&mut self, pos: u64)
        ensures
            final(self)@ == old(self)@.at(pos as nat),
    {
        self.pos = pos;
    }

    /// Moves the cursor `n` bytes forward, past the end if need be. Fails,
    /// and moves nothing, only where the new position does not fit in 64
    /// bits.
    pub fn skip(&mut self, n: u64) -> (r: Result<(), Error>)
        ensures
            match r {
                Ok(_) => final(self)@ == old(self)@.at(old(self)@.pos + n as nat),
                Err(e) => e == Error::Truncated && final(self)@ == old(self)@,
            },
            r is Ok <==> old(self)@.pos + n <= u64::MAX,
    {
        match self.pos.checked_add(n) {
            Some(pos) => {
                self.pos = pos;
                Ok(())
            },
            None => Err(Error::Truncated),
        }
    }

    /// Moves the cursor `n` bytes back. Fails, and moves nothing, where that
    /// would pass the start of the buffer.
    pub fn rewind(&mut self, n: u64) -> (r: Result<(), Error>)
        ensures
            match r {
                Ok(_) => n <= old(self)@.pos && final(self)@ == old(self)@.at(
                    (old(self)@.pos - n) as nat,
                ),
                Err(e) => e == Error::ParseError && final(self)@ == old(self)@,
            },
            r is Ok <==> n <= old(self)@.pos,
    {
        if n <= self.pos {
            self.pos = self.pos - n;
            Ok(())
        } else {
            Err(Error::ParseError)
        }
    }

    /// The `n` bytes at the cursor, without moving it.
    fn window(&self, n: usize) -> (r: Option<&[u8]>)
        ensures
            r is Some <==> self@.can_read(n as nat),
            r matches Some(bytes) ==> bytes@ == self@.window(n as nat),
    {
        let len = self.data.len();
        if self.pos <= len as u64 && n <= len - self.pos as usize {
            let start = self.pos as usize;
            Some(slice_subrange(self.data.as_slice(), start, start + n))
        } else {
            None
        }
    }

    /// Reads exactly `n` bytes and moves past them. Fails, and moves
    /// nothing, where fewer than `n` bytes are left.
    pub fn read_exact(&mut self, n: usize) -> (r: Result<Vec<u8>, Error>)
        ensures
            match r {
                Ok(bytes) => old(self)@.can_read(n as nat) && bytes@ == old(self)@.window(
                    n as nat,
                ) && final(self)@ == old(self)@.at(old(self)@.pos + n as nat),
                Err(e) => e == Error::Truncated && !old(self)@.can_read(n as nat) && final(self)@
                    == old(self)@,
            },
    {
        let mut out: Vec<u8> = Vec::new();
        let len = self.data.len();
        match self.window(n) {
            None => {
                return Err(Error::Truncated);
            },
            Some(bytes) => {
                let mut i: usize = 0;
                while i < n
                    invariant
                        i <= n,
                        bytes@.len() == n,
                        out@ == bytes@.subrange(0, i as int),
                    decreases n - i,
                {
                    out.push(bytes[i]);
                    i = i + 1;
                }
            },
        }
        self.pos = self.pos + n as u64;
        Ok(out)
    }

    /// Reads one value of a fixed layout and moves past it. Fails, and moves
    /// nothing, where the buffer ends before the value does.
    pub fn read<T: FixedLayout>(&mut self) -> (r: Result<T, Error>)
        ensures
            match r {
                Ok(v) => old(self)@.can_read(T::layout_size()) && v == T::decode(
                    old(self)@.window(T::layout_size()),
                ) && final(self)@ == old(self)@.at(old(self)@.pos + T::layout_size()),
                Err(e) => e == Error::Truncated && !old(self)@.can_read(T::layout_size())
                    && final(self)@ == old(self)@,
            },
    {
        let n = T::size();
        let len = self.data.len();
        let v = match self.window(n) {
            None => {
                return Err(Error::Truncated);
            },
            Some(bytes) => T::from_bytes(bytes),
        };
        self.pos = self.pos + n as u64;
        Ok(v)
    }

    /// Decodes one value of a fixed layout at the cursor without moving it.
    pub fn peek<T: FixedLayout>(&self) -> (r: Result<T, Error>)
        ensures
            match r {
                Ok(v) => self@.can_read(T::layout_size()) && v == T::decode(
                    self@.window(T::layout_size()),
                ),
                Err(e) => e == Error::Truncated && !self@.can_read(T::layout_size()),
            },
    {
        match self.window(T::size()) {
            None => Err(Error::Truncated),
            Some(bytes) => Ok(T::from_bytes(bytes)),
        }
    }

    /// Reads a string field of `length` bytes as raw bytes.
    pub fn read_zstring(&mut self, length: u16) -> (r: Result<Vec<u8>, Error>)
        ensures
            match r {
                Ok(bytes) => old(self)@.can_read(length as nat) && bytes@ == old(self)@.window(
                    length as nat,
                ) && final(self)@ == old(self)@.at(old(self)@.pos + length as nat),
                Err(e) => e == Error::Truncated && !old(self)@.can_read(length as nat)
                    && final(self)@ == old(self)@,
            },
    {
        self.read_exact(length as usize)
    }

    /// Reads a string field that may be localised. In a localised buffer
    /// the field is a reference into a string table, which is not
    /// supported: the read fails rather than hand back the reference as
    /// text.
    pub fn read_lstring(&mut self, length: u16) -> (r: Result<Vec<u8>, Error>)
        ensures
            match r {
                Ok(bytes) => !old(self)@.localised && old(self)@.can_read(length as nat)
                    && bytes@ == old(self)@.window(length as nat) && final(self)@ == old(
                    self,
                )@.at(old(self)@.pos + length as nat),
                Err(e) => final(self)@ == old(self)@ && if old(self)@.localised {
                    e == Error::Unimplemented
                } else {
                    e == Error::Truncated && !old(self)@.can_read(length as nat)
                },
            },
    {
        if self.localised {
            Err(Error::Unimplemented)
        } else {
            self.read_zstring(length)
        }
    }
}

} // verus!
