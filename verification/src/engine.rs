//! The bounded iteration engine: three loops that hand each chunk of a
//! declared extent to a handler and hold the handler to the declared sizes.
//!
//! A handler is called exactly once per chunk, with the cursor behind the
//! chunk's header. When it returns, the cursor must stand at the end that
//! the chunk declared, or at the end of the whole extent: a handler may read
//! past its own chunk only where it lands exactly on the parent's boundary.
//! Anywhere else is an [`Error::ParseError`].

use vstd::prelude::*;
use crate::cursor::{ESMParser2, ParserModel, Parsed};
use crate::error::Error;
use crate::header::{FieldHeader, RecordHeader, HEADER_SIZE};
use crate::tree::{lemma_models_empty, lemma_models_push, models};

verus! {

/// What a handler leaves behind: its own new state and the parser's, or
/// the reason why it stopped.
pub type Handled<S> = Result<(S, ParserModel), Error>;

/// Decodes the content of fields. The view of a handler is what it has
/// gathered so far.
pub trait FieldHandler: View {
    /// What one call does, from the handler's state `h`, with the cursor of
    /// `m` behind the header `header`.
    spec fn field_outcome(h: Self::V, m: ParserModel, header: FieldHeader) -> Handled<Self::V>;

    /// Handles the content of one field. May move the cursor and set the
    /// localisation flag; leaves the buffer and the depth as they are.
    fn handle_field(&mut self, parser: &mut ESMParser2, header: &FieldHeader) -> (r: Result<
        (),
        Error,
    >)
        ensures
            old(parser)@.same_frame(final(parser)@),
            match Self::field_outcome(old(self)@, old(parser)@, *header) {
                Ok((h, m)) => r is Ok && final(self)@ == h && final(parser)@ == m,
                Err(e) => r == Err::<(), Error>(e),
            },
    ;
}

/// Decodes the content of records and groups. The view of a handler is what
/// it has gathered so far.
pub trait RecordHandler: View {
    /// What one call does, from the handler's state `h`, with the cursor of
    /// `m` behind the header `header`.
    spec fn record_outcome(h: Self::V, m: ParserModel, header: RecordHeader) -> Handled<Self::V>;

    /// Handles the content of one record or group. For a group, `header`
    /// is the group's header read as a record's, with the header's own 24
    /// bytes taken off `size`. May move the cursor and set the localisation
    /// flag; leaves the buffer and the depth as they are.
    fn handle_record(&mut self, parser: &mut ESMParser2, header: &RecordHeader) -> (r: Result<
        (),
        Error,
    >)
        ensures
            old(parser)@.same_frame(final(parser)@),
            match Self::record_outcome(old(self)@, old(parser)@, *header) {
                Ok((h, m)) => r is Ok && final(self)@ == h && final(parser)@ == m,
                Err(e) => r == Err::<(), Error>(e),
            },
    ;
}

/// Parses one unit of some kind at the cursor.
pub trait Producer {
    /// What is parsed.
    type Item: View;

    /// What one call gives with the parser in state `m`.
    spec fn outcome(&self, m: ParserModel) -> Parsed<<Self::Item as View>::V>;

    /// Parses one unit. Leaves the buffer and the depth as they are, and on
    /// success the cursor further on than it was.
    fn produce(&self, parser: &mut ESMParser2) -> (r: Result<Self::Item, Error>)
        ensures
            old(parser)@.same_frame(final(parser)@),
            match self.outcome(old(parser)@) {
                Ok((v, m)) => r matches Ok(x) && x@ == v && final(parser)@ == m && m.pos > old(
                    parser,
                )@.pos,
                Err(e) => r matches Err(x) && x == e,
            },
    ;
}

/// What is left of the extent that ends at `end`, seen from `pos`.
pub open spec fn left(pos: nat, end: nat) -> nat {
    if pos < end {
        (end - pos) as nat
    } else {
        0
    }
}

/// What the field loop gives from handler state `h` and parser state `m`,
/// for fields up to `loop_end`.
///
/// While the cursor is before `loop_end`: read a field header, call the
/// handler behind it, and go on if the cursor then stands at the end the
/// header declared or at `loop_end`.
pub open spec fn fields_outcome<H: FieldHandler>(h: H::V, m: ParserModel, loop_end: nat) -> Handled<
    H::V,
>
    decreases left(m.pos, loop_end),
{
    if m.pos >= loop_end {
        Ok((h, m))
    } else {
        match m.read::<FieldHeader>() {
            Err(e) => Err(e),
            Ok((header, start)) => match H::field_outcome(h, start, header) {
                Err(e) => Err(e),
                Ok((h1, m1)) => if m1.pos == start.pos + header.size || m1.pos == loop_end {
                    fields_outcome::<H>(h1, m.moved(m1), loop_end)
                } else {
                    Err(Error::ParseError)
                },
            },
        }
    }
}

/// The header that a record handler is shown for the stored header
/// `header`: a group's with the header's own bytes taken off its size, a
/// record's as it is. `None` for a group that declares less than its own
/// header.
pub open spec fn shown_header(header: RecordHeader) -> Option<RecordHeader> {
    if !header.is_group() {
        Some(header)
    } else if header.size >= HEADER_SIZE {
        Some(RecordHeader { size: (header.size - HEADER_SIZE) as u32, ..header })
    } else {
        None
    }
}

/// What the record loop gives from handler state `h` and parser state `m`,
/// for records and groups up to `loop_end`.
///
/// While the cursor is before `loop_end`: read a 24-byte header, call the
/// handler behind it with the header it is shown, and go on if the cursor
/// then stands behind the content that is declared, or at `loop_end`.
pub open spec fn records_outcome<H: RecordHandler>(
    h: H::V,
    m: ParserModel,
    loop_end: nat,
) -> Handled<H::V>
    decreases left(m.pos, loop_end),
{
    if m.pos >= loop_end {
        Ok((h, m))
    } else {
        match m.read::<RecordHeader>() {
            Err(e) => Err(e),
            Ok((header, start)) => match shown_header(header) {
                None => Err(Error::ParseError),
                Some(shown) => match H::record_outcome(h, start, shown) {
                    Err(e) => Err(e),
                    Ok((h1, m1)) => if m1.pos == start.pos + shown.size || m1.pos == loop_end {
                        records_outcome::<H>(h1, m.moved(m1), loop_end)
                    } else {
                        Err(Error::ParseError)
                    },
                },
            },
        }
    }
}

/// The outcome `inner` of a loop that ran one level deeper than `m`, back
/// at the depth of `m`.
pub open spec fn scoped<T>(m: ParserModel, inner: Parsed<T>) -> Parsed<T> {
    match inner {
        Ok((v, m1)) => Ok((v, m1.level(m))),
        Err(e) => Err(e),
    }
}

/// What a loop gives that runs one level deeper than `m`, where `inner` is
/// what it gives from `m.deeper()`: that, back at the depth of `m`. A
/// depth that cannot be counted one higher is [`Error::Unimplemented`].
pub open spec fn nested<T>(m: ParserModel, inner: Parsed<T>) -> Parsed<T> {
    if m.depth >= u64::MAX {
        Err(Error::Unimplemented)
    } else {
        scoped(m, inner)
    }
}

/// What [`ESMParser2::parse_fields`] gives: nothing at all for no bytes,
/// [`Error::Truncated`] for an extent that would end past the last
/// position, else the field loop's result, run one level deeper.
pub open spec fn parse_fields_outcome<H: FieldHandler>(
    h: H::V,
    m: ParserModel,
    total_size: nat,
) -> Handled<H::V> {
    if total_size == 0 {
        Ok((h, m))
    } else if m.pos + total_size > u64::MAX {
        Err(Error::Truncated)
    } else {
        nested(m, fields_outcome::<H>(h, m.deeper(), m.pos + total_size))
    }
}

/// What [`ESMParser2::parse_records`] gives: nothing at all for no bytes,
/// [`Error::Truncated`] for an extent that would end past the last
/// position, else the record loop's result, run one level deeper.
pub open spec fn parse_records_outcome<H: RecordHandler>(
    h: H::V,
    m: ParserModel,
    total_size: nat,
) -> Handled<H::V> {
    if total_size == 0 {
        Ok((h, m))
    } else if m.pos + total_size > u64::MAX {
        Err(Error::Truncated)
    } else {
        nested(m, records_outcome::<H>(h, m.deeper(), m.pos + total_size))
    }
}

/// What the producer loop gives from parser state `m`, with `acc` produced
/// so far: the producer's items, in order, until the cursor has reached
/// `limit`. An item that leaves the cursor where it was would never let
/// the loop end, and counts as a [`Error::ParseError`]; no producer that
/// keeps its contract gives one.
pub open spec fn until_outcome<P: Producer>(
    p: &P,
    m: ParserModel,
    limit: nat,
    acc: Seq<<P::Item as View>::V>,
) -> Parsed<Seq<<P::Item as View>::V>>
    decreases left(m.pos, limit),
{
    if m.pos >= limit {
        Ok((acc, m))
    } else {
        match p.outcome(m) {
            Err(e) => Err(e),
            Ok((item, m1)) => if m1.pos > m.pos {
                until_outcome(p, m.moved(m1), limit, acc.push(item))
            } else {
                Err(Error::ParseError)
            },
        }
    }
}

/// What [`ESMParser2::parse_until`] gives: nothing at all where the cursor
/// has reached `limit` already, else the producer loop's result, run one
/// level deeper.
pub open spec fn parse_until_outcome<P: Producer>(p: &P, m: ParserModel, limit: nat) -> Parsed<
    Seq<<P::Item as View>::V>,
> {
    if m.pos >= limit {
        Ok((Seq::empty(), m))
    } else {
        nested(m, until_outcome(p, m.deeper(), limit, Seq::empty()))
    }
}

impl ESMParser2 {
    /// Hands each field up to `loop_end` to `handler`, one level deeper than
    /// the caller. The depth is back where it was when the call returns.
    pub fn fields_until<H: FieldHandler>(&mut self, handler: &mut H, loop_end: u64) -> (r:
        Result<(), Error>)
        ensures
            old(self)@.same_frame(final(self)@),
            match nested(
                old(self)@,
                fields_outcome::<H>(old(handler)@, old(self)@.deeper(), loop_end as nat),
            ) {
                Ok((h, m)) => r is Ok && final(handler)@ == h && final(self)@ == m,
                Err(e) => r == Err::<(), Error>(e),
            },
    {
        if self.depth() == u64::MAX {
            return Err(Error::Unimplemented);
        }
        self.push();
        let ghost goal = fields_outcome::<H>(old(handler)@, old(self)@.deeper(), loop_end as nat);
        let mut result: Result<(), Error> = Ok(());
        while result.is_ok() && self.position() < loop_end
            invariant
                old(self)@.deeper().same_frame(self@),
                match result {
                    Ok(_) => fields_outcome::<H>(handler@, self@, loop_end as nat) == goal,
                    Err(e) => goal == Err::<(H::V, ParserModel), Error>(e),
                },
            decreases
                    if result is Ok {
                        left(self@.pos, loop_end as nat)
                    } else {
                        0
                    },
        {
            match self.read::<FieldHeader>() {
                Err(e) => {
                    result = Err(e);
                },
                Ok(header) => {
                    let start = self.position();
                    match handler.handle_field(self, &header) {
                        Err(e) => {
                            result = Err(e);
                        },
                        Ok(_) => {
                            let pos = self.position();
                            let exact = pos >= start && pos - start == header.size as u64;
                            if !(exact || pos == loop_end) {
                                result = Err(Error::ParseError);
                            }
                        },
                    }
                },
            }
        }
        self.pop();
        result
    }

    /// Hands each field of the next `total_size` bytes to `handler`.
    ///
    /// Nothing is read and nothing changes where `total_size` is 0. Else
    /// the loop runs one level deeper, and the depth is back where it was
    /// when the call returns, whether it failed or not.
    pub fn parse_fields<H: FieldHandler>(&mut self, handler: &mut H, total_size: u32) -> (r:
        Result<(), Error>)
        ensures
            old(self)@.same_frame(final(self)@),
            match parse_fields_outcome::<H>(old(handler)@, old(self)@, total_size as nat) {
                Ok((h, m)) => r is Ok && final(handler)@ == h && final(self)@ == m,
                Err(e) => r == Err::<(), Error>(e),
            },
    {
        if total_size == 0 {
            return Ok(());
        }
        match self.position().checked_add(total_size as u64) {
            None => Err(Error::Truncated),
            Some(loop_end) => self.fields_until(handler, loop_end),
        }
    }

    /// Hands each record and group up to `loop_end` to `handler`, one level
    /// deeper than the caller. The depth is back where it was when the call
    /// returns.
    pub fn records_until<H: RecordHandler>(&mut self, handler: &mut H, loop_end: u64) -> (r:
        Result<(), Error>)
        ensures
            old(self)@.same_frame(final(self)@),
            match nested(
                old(self)@,
                records_outcome::<H>(old(handler)@, old(self)@.deeper(), loop_end as nat),
            ) {
                Ok((h, m)) => r is Ok && final(handler)@ == h && final(self)@ == m,
                Err(e) => r == Err::<(), Error>(e),
            },
    {
        if self.depth() == u64::MAX {
            return Err(Error::Unimplemented);
        }
        self.push();
        let ghost goal = records_outcome::<H>(old(handler)@, old(self)@.deeper(), loop_end as nat);
        let mut result: Result<(), Error> = Ok(());
        while result.is_ok() && self.position() < loop_end
            invariant
                old(self)@.deeper().same_frame(self@),
                match result {
                    Ok(_) => records_outcome::<H>(handler@, self@, loop_end as nat) == goal,
                    Err(e) => goal == Err::<(H::V, ParserModel), Error>(e),
                },
            decreases
                    if result is Ok {
                        left(self@.pos, loop_end as nat)
                    } else {
                        0
                    },
        {
            match self.read::<RecordHeader>() {
                Err(e) => {
                    result = Err(e);
                },
                Ok(stored) => {
                    let start = self.position();
                    let mut header = stored;
                    if stored.group() {
                        if stored.size < 24 {
                            result = Err(Error::ParseError);
                        } else {
                            header.size = stored.size - 24;
                        }
                    }
                    if result.is_ok() {
                        match handler.handle_record(self, &header) {
                            Err(e) => {
                                result = Err(e);
                            },
                            Ok(_) => {
                                let pos = self.position();
                                let exact = pos >= start && pos - start == header.size as u64;
                                if !(exact || pos == loop_end) {
                                    result = Err(Error::ParseError);
                                }
                            },
                        }
                    }
                },
            }
        }
        self.pop();
        result
    }

    /// Hands each record and group of the next `total_size` bytes to
    /// `handler`.
    ///
    /// Nothing is read and nothing changes where `total_size` is 0. Else
    /// the loop runs one level deeper, and the depth is back where it was
    /// when the call returns, whether it failed or not.
    pub fn parse_records<H: RecordHandler>(&mut self, handler: &mut H, total_size: u64) -> (r:
        Result<(), Error>)
        ensures
            old(self)@.same_frame(final(self)@),
            match parse_records_outcome::<H>(old(handler)@, old(self)@, total_size as nat) {
                Ok((h, m)) => r is Ok && final(handler)@ == h && final(self)@ == m,
                Err(e) => r == Err::<(), Error>(e),
            },
    {
        if total_size == 0 {
            return Ok(());
        }
        match self.position().checked_add(total_size) {
            None => Err(Error::Truncated),
            Some(loop_end) => self.records_until(handler, loop_end),
        }
    }

    /// Calls `producer` until the cursor has reached `limit`, and collects
    /// what it gives, in order. No size is checked between the calls: where
    /// one unit ends is for the producer to find.
    ///
    /// Nothing changes where the cursor has reached `limit` already. Else
    /// the loop runs one level deeper, and the depth is back where it was
    /// when the call returns, whether it failed or not.
    pub fn parse_until<P: Producer>(&mut self, limit: u64, producer: &P) -> (r: Result<
        Vec<P::Item>,
        Error,
    >)
        ensures
            old(self)@.same_frame(final(self)@),
            match parse_until_outcome(producer, old(self)@, limit as nat) {
                Ok((items, m)) => r matches Ok(v) && models(v@) == items && final(self)@ == m,
                Err(e) => r matches Err(x) && x == e,
            },
    {
        let mut out: Vec<P::Item> = Vec::new();
        proof {
            lemma_models_empty::<P::Item>();
        }
        if self.position() >= limit {
            return Ok(out);
        }
        if self.depth() == u64::MAX {
            return Err(Error::Unimplemented);
        }
        self.push();
        let ghost goal = until_outcome(producer, old(self)@.deeper(), limit as nat, Seq::empty());
        let mut failure: Option<Error> = None;
        while failure.is_none() && self.position() < limit
            invariant
                old(self)@.deeper().same_frame(self@),
                match failure {
                    None => until_outcome(producer, self@, limit as nat, models(out@)) == goal,
                    Some(e) => goal == Err::<(Seq<<P::Item as View>::V>, ParserModel), Error>(e),
                },
            decreases
                    if failure is None {
                        left(self@.pos, limit as nat)
                    } else {
                        0
                    },
        {
            match producer.produce(self) {
                Err(e) => {
                    failure = Some(e);
                },
                Ok(item) => {
                    proof {
                        lemma_models_push(out@, item);
                    }
                    out.push(item);
                },
            }
        }
        self.pop();
        match failure {
            None => Ok(out),
            Some(e) => Err(e),
        }
    }
}

} // verus!
