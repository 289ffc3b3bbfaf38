//! Handlers that need no knowledge of what a chunk holds.

use vstd::prelude::*;
use crate::cursor::{ESMParser2, ParserModel};
use crate::engine::{parse_fields_outcome, FieldHandler, Handled, RecordHandler};
use crate::error::Error;
use crate::header::{FieldHeader, RecordHeader, TypeId};
use crate::inflate::compressed_outcome;
use crate::tree::Field;

verus! {

/// Passes over every field by its declared size.
pub struct SkipFields;

impl View for SkipFields {
    type V = ();

    open spec fn view(&self) -> () {
        ()
    }
}

impl FieldHandler for SkipFields {
    open spec fn field_outcome(h: (), m: ParserModel, header: FieldHeader) -> Handled<()> {
        m.skip(header.size as nat)
    }

    fn handle_field(&mut self, parser: &mut ESMParser2, header: &FieldHeader) -> (r: Result<
        (),
        Error,
    >) {
        parser.skip(header.size as u64)
    }
}

/// Keeps the header of every field, in order, and passes over the content
/// by its declared size.
pub struct FieldList {
    pub fields: Vec<Field>,
}

impl View for FieldList {
    type V = Seq<Field>;

    open spec fn view(&self) -> Seq<Field> {
        self.fields@
    }
}

impl FieldHandler for FieldList {
    open spec fn field_outcome(h: Seq<Field>, m: ParserModel, header: FieldHeader) -> Handled<
        Seq<Field>,
    > {
        match m.skip(header.size as nat) {
            Ok((_, m1)) => Ok((h.push(Field { header }), m1)),
            Err(e) => Err(e),
        }
    }

    fn handle_field(&mut self, parser: &mut ESMParser2, header: &FieldHeader) -> (r: Result<
        (),
        Error,
    >) {
        parser.skip(header.size as u64)?;
        self.fields.push(Field { header: *header });
        Ok(())
    }
}

/// Keeps the header of every record and group as the handler is shown it,
/// in order, and passes over the content by its declared size.
pub struct RecordList {
    pub headers: Vec<RecordHeader>,
}

impl View for RecordList {
    type V = Seq<RecordHeader>;

    open spec fn view(&self) -> Seq<RecordHeader> {
        self.headers@
    }
}

impl RecordHandler for RecordList {
    open spec fn record_outcome(
        h: Seq<RecordHeader>,
        m: ParserModel,
        header: RecordHeader,
    ) -> Handled<Seq<RecordHeader>> {
        match m.skip(header.size as nat) {
            Ok((_, m1)) => Ok((h.push(header), m1)),
            Err(e) => Err(e),
        }
    }

    fn handle_record(&mut self, parser: &mut ESMParser2, header: &RecordHeader) -> (r: Result<
        (),
        Error,
    >) {
        parser.skip(header.size as u64)?;
        self.headers.push(*header);
        Ok(())
    }
}

/// A partial field table: the tags that `inner` knows how to decode. A
/// field with any other tag is passed over by its declared size, and
/// `inner` never sees it.
pub struct KnownFields<H> {
    pub known: Vec<TypeId>,
    pub inner: H,
}

/// The model of a [`KnownFields`].
pub struct KnownFieldsModel<V> {
    pub known: Seq<TypeId>,
    pub inner: V,
}

impl<H: FieldHandler> View for KnownFields<H> {
    type V = KnownFieldsModel<H::V>;

    open spec fn view(&self) -> KnownFieldsModel<H::V> {
        KnownFieldsModel { known: self.known@, inner: self.inner@ }
    }
}

impl<H: FieldHandler> KnownFields<H> {
    /// Whether `tag` is one of the known tags.
    pub fn knows(&self, tag: TypeId) -> (r: bool)
        ensures
            r == self@.known.contains(tag),
    {
        let mut i: usize = 0;
        while i < self.known.len()
            invariant
                i <= self.known@.len(),
                forall|j: int| 0 <= j < i ==> self.known@[j] != tag,
            decreases self.known@.len() - i,
        {
            if self.known[i].code == tag.code {
                return true;
            }
            i = i + 1;
        }
        false
    }
}

impl<H: FieldHandler> FieldHandler for KnownFields<H> {
    open spec fn field_outcome(
        h: KnownFieldsModel<H::V>,
        m: ParserModel,
        header: FieldHeader,
    ) -> Handled<KnownFieldsModel<H::V>> {
        if h.known.contains(header.type_id) {
            match H::field_outcome(h.inner, m, header) {
                Ok((inner, m1)) => Ok((KnownFieldsModel { known: h.known, inner }, m1)),
                Err(e) => Err(e),
            }
        } else {
            match m.skip(header.size as nat) {
                Ok((_, m1)) => Ok((h, m1)),
                Err(e) => Err(e),
            }
        }
    }

    fn handle_field(&mut self, parser: &mut ESMParser2, header: &FieldHeader) -> (r: Result<
        (),
        Error,
    >) {
        if self.knows(header.type_id) {
            self.inner.handle_field(parser, header)
        } else {
            parser.skip(header.size as u64)
        }
    }
}

/// Hands the fields of every record to `fields`: those of a compressed
/// record after inflating them. The content of a group is passed over by
/// its declared size.
pub struct RecordFields<H> {
    pub fields: H,
}

impl<H: FieldHandler> View for RecordFields<H> {
    type V = H::V;

    open spec fn view(&self) -> H::V {
        self.fields@
    }
}

impl<H: FieldHandler> RecordHandler for RecordFields<H> {
    open spec fn record_outcome(h: H::V, m: ParserModel, header: RecordHeader) -> Handled<H::V> {
        if header.is_group() {
            match m.skip(header.size as nat) {
                Ok((_, m1)) => Ok((h, m1)),
                Err(e) => Err(e),
            }
        } else if header.is_compressed() {
            compressed_outcome::<H>(h, m, header.size as nat)
        } else {
            parse_fields_outcome::<H>(h, m, header.size as nat)
        }
    }

    fn handle_record(&mut self, parser: &mut ESMParser2, header: &RecordHeader) -> (r: Result<
        (),
        Error,
    >) {
        if header.group() {
            parser.skip(header.size as u64)
        } else if header.compressed() {
            parser.parse_compressed_fields(&mut self.fields, header.size)
        } else {
            parser.parse_fields(&mut self.fields, header.size)
        }
    }
}

/// What a [`Trace`] keeps of one chunk.
#[derive(Clone, Copy, Debug, PartialEq, Eq, Structural)]
pub struct TraceEntry {
    /// The depth at which the handler was called.
    pub depth: u64,
    /// The tag of the chunk.
    pub type_id: TypeId,
    /// The size of the content as the handler was shown it.
    pub size: u32,
}

/// A recording sink: keeps, for every chunk it is handed, the depth at
/// which it was called and the chunk's tag and size, and passes over the
/// content by its declared size.
pub struct Trace {
    pub entries: Vec<TraceEntry>,
}

impl View for Trace {
    type V = Seq<TraceEntry>;

    open spec fn view(&self) -> Seq<TraceEntry> {
        self.entries@
    }
}

/// What a [`Trace`] in state `h` gives for a chunk with tag `type_id` and
/// `size` bytes of content.
pub open spec fn traced(h: Seq<TraceEntry>, m: ParserModel, type_id: TypeId, size: u32) -> Handled<
    Seq<TraceEntry>,
> {
    match m.skip(size as nat) {
        Ok((_, m1)) => Ok((h.push(TraceEntry { depth: m.depth as u64, type_id, size }), m1)),
        Err(e) => Err(e),
    }
}

impl Trace {
    fn record(&mut self, parser: &mut ESMParser2, type_id: TypeId, size: u32) -> (r: Result<
        (),
        Error,
    >)
        ensures
            old(parser)@.same_frame(final(parser)@),
            match traced(old(self)@, old(parser)@, type_id, size) {
                Ok((h, m)) => r is Ok && final(self)@ == h && final(parser)@ == m,
                Err(e) => r == Err::<(), Error>(e),
            },
    {
        let depth = parser.depth();
        parser.skip(size as u64)?;
        self.entries.push(TraceEntry { depth, type_id, size });
        Ok(())
    }
}

impl FieldHandler for Trace {
    open spec fn field_outcome(h: Seq<TraceEntry>, m: ParserModel, header: FieldHeader) -> Handled<
        Seq<TraceEntry>,
    > {
        traced(h, m, header.type_id, header.size as u32)
    }

    fn handle_field(&mut self, parser: &mut ESMParser2, header: &FieldHeader) -> (r: Result<
        (),
        Error,
    >) {
        self.record(parser, header.type_id, header.size as u32)
    }
}

impl RecordHandler for Trace {
    open spec fn record_outcome(
        h: Seq<TraceEntry>,
        m: ParserModel,
        header: RecordHeader,
    ) -> Handled<Seq<TraceEntry>> {
        traced(h, m, header.type_id, header.size)
    }

    fn handle_record(&mut self, parser: &mut ESMParser2, header: &RecordHeader) -> (r: Result<
        (),
        Error,
    >) {
        self.record(parser, header.type_id, header.size)
    }
}

} // verus!
