//! What holds of the bounded loops whatever the handler is, of the chunks
//! that nothing knows, and of the loops of the dispatcher.
//!
//! Each law is stated over the functions that say what the loops give, so
//! it holds of every call of [`ESMParser2::parse_fields`],
//! [`ESMParser2::parse_records`] and [`ESMParser2::parse_until`].
//!
//! [`ESMParser2::parse_fields`]: crate::cursor::ESMParser2::parse_fields
//! [`ESMParser2::parse_records`]: crate::cursor::ESMParser2::parse_records
//! [`ESMParser2::parse_until`]: crate::cursor::ESMParser2::parse_until

use vstd::prelude::*;
use crate::cursor::ParserModel;
use crate::engine::{
    fields_outcome, left, parse_fields_outcome, parse_records_outcome, parse_until_outcome,
    records_outcome, shown_header, until_outcome, FieldHandler, Producer, RecordHandler,
};
use crate::error::Error;
use crate::grammar::{
    content_end, dialog_at, dialogs_from, dialogs_until, group_at, group_header_at, groups_from,
    groups_until, lemma_dialog_advances, lemma_group_advances, lemma_world_entry_advances, rest,
    world_entries_from, world_entries_until, world_entry_at, Dialogs, Groups, WorldEntries,
};
use crate::handlers::{
    FieldList, KnownFields, KnownFieldsModel, RecordList, SkipFields, Trace,
};
use crate::header::{
    FieldHeader, GroupHeader, GroupLabel, RecordHeader, GROUP_CELL_VISIBLE_DISTANT_CHILDREN,
};
use crate::tree::{DialogModel, Group, WorldEntryModel};
use crate::layout::FixedLayout;

verus! {

/// Whether handler `H`, in state `h`, passes over exactly the content that
/// `header` declares, with the cursor of `m` behind the header.
pub open spec fn consumes_field_exactly<H: FieldHandler>(
    h: H::V,
    m: ParserModel,
    header: FieldHeader,
) -> bool {
    H::field_outcome(h, m, header) matches Ok((_, m1)) && m1.pos == m.pos + header.size
}

/// Whether handler `H` passes over exactly the declared content of every
/// field, in every state, or fails for want of bytes or positions.
pub open spec fn exact_field_handler<H: FieldHandler>() -> bool {
    forall|h: H::V, m: ParserModel, header: FieldHeader|
        match #[trigger] H::field_outcome(h, m, header) {
            Ok((_, m1)) => m1.pos == m.pos + header.size,
            Err(e) => e == Error::Truncated,
        }
}

/// How many bytes a record or group occupies, header and content, by its
/// header as stored: a record's declared size leaves the header out, a
/// group's holds it.
pub open spec fn stored_extent(stored: RecordHeader) -> nat {
    if stored.is_group() {
        stored.size as nat
    } else {
        (stored.size + 24) as nat
    }
}

/// Exact consumption, fields: where the handler leaves the cursor at the
/// start of a field's content plus the field's declared size, the field is
/// accepted and the loop goes on with the next from there.
pub proof fn lemma_exact_field_accepted<H: FieldHandler>(h: H::V, m: ParserModel, loop_end: nat)
    requires
        m.pos < loop_end,
        m.can_read(6),
        consumes_field_exactly::<H>(h, m.at(m.pos + 6), FieldHeader::decode(m.window(6))),
    ensures
        ({
            let header = FieldHeader::decode(m.window(6));
            let (h1, m1) = H::field_outcome(h, m.at(m.pos + 6), header)->Ok_0;
            &&& m1.pos == m.pos + 6 + header.size
            &&& fields_outcome::<H>(h, m, loop_end) == fields_outcome::<H>(
                h1,
                m.moved(m1),
                loop_end,
            )
        }),
{
}

/// Exact consumption, records and groups: where the handler leaves the
/// cursor at the start of the chunk plus the bytes that the chunk
/// occupies, the chunk is accepted and the loop goes on with the next from
/// there. For a record that is 24 bytes more than its declared size, for a
/// group its declared size.
pub proof fn lemma_exact_record_accepted<H: RecordHandler>(h: H::V, m: ParserModel, loop_end: nat)
    requires
        m.pos < loop_end,
        m.can_read(24),
        shown_header(RecordHeader::decode(m.window(24))) is Some,
        ({
            let stored = RecordHeader::decode(m.window(24));
            H::record_outcome(h, m.at(m.pos + 24), shown_header(stored)->Some_0) matches Ok(
                (_, m1),
            ) && m1.pos == m.pos + stored_extent(stored)
        }),
    ensures
        ({
            let stored = RecordHeader::decode(m.window(24));
            let (h1, m1) = H::record_outcome(
                h,
                m.at(m.pos + 24),
                shown_header(stored)->Some_0,
            )->Ok_0;
            records_outcome::<H>(h, m, loop_end) == records_outcome::<H>(
                h1,
                m.moved(m1),
                loop_end,
            )
        }),
{
}

/// Exact consumption, the whole loop: with a handler that passes over
/// exactly the declared content of every field, the loop never ends in a
/// [`Error::ParseError`]. It ends at or behind `loop_end`, or in the
/// [`Error::Truncated`] of a header that the buffer does not hold or of
/// the handler.
pub proof fn lemma_exact_fields_never_misparse<H: FieldHandler>(
    h: H::V,
    m: ParserModel,
    loop_end: nat,
)
    requires
        exact_field_handler::<H>(),
    ensures
        match fields_outcome::<H>(h, m, loop_end) {
            Ok((_, m1)) => m1.pos >= loop_end && m1.pos >= m.pos,
            Err(e) => e == Error::Truncated,
        },
    decreases left(m.pos, loop_end),
{
    if m.pos < loop_end {
        if let Ok((header, start)) = m.read::<FieldHeader>() {
            if let Ok((h1, m1)) = H::field_outcome(h, start, header) {
                lemma_exact_fields_never_misparse::<H>(h1, m.moved(m1), loop_end);
            }
        }
    }
}

/// Whether handler `H` passes over exactly the declared content of every
/// record and group that it is shown, in every state, or fails for want
/// of bytes or positions.
pub open spec fn exact_record_handler<H: RecordHandler>() -> bool {
    forall|h: H::V, m: ParserModel, header: RecordHeader|
        match #[trigger] H::record_outcome(h, m, header) {
            Ok((_, m1)) => m1.pos == m.pos + header.size,
            Err(e) => e == Error::Truncated,
        }
}

/// The handlers that pass over every chunk by its declared size are
/// exact.
pub proof fn lemma_skipping_handlers_are_exact()
    ensures
        exact_field_handler::<SkipFields>(),
        exact_field_handler::<FieldList>(),
        exact_field_handler::<Trace>(),
        exact_record_handler::<RecordList>(),
        exact_record_handler::<Trace>(),
{
}

/// Whether no 24 bytes of `data`, read as a header, are those of a group
/// that declares less than its own header.
pub open spec fn groups_hold_their_headers(data: Seq<u8>) -> bool {
    forall|at: int|
        0 <= at && at + 24 <= data.len() ==> shown_header(
            RecordHeader::decode(#[trigger] data.subrange(at, at + 24)),
        ) is Some
}

/// Exact consumption, the whole loop of records and groups: with a
/// handler that passes over exactly the declared content of every chunk,
/// in a buffer where no group declares less than its own header, the loop
/// never ends in a [`Error::ParseError`]. It ends at or behind `loop_end`,
/// or in the [`Error::Truncated`] of a header that the buffer does not
/// hold or of the handler.
pub proof fn lemma_exact_records_never_misparse<H: RecordHandler>(
    h: H::V,
    m: ParserModel,
    loop_end: nat,
)
    requires
        exact_record_handler::<H>(),
        groups_hold_their_headers(m.data),
    ensures
        match records_outcome::<H>(h, m, loop_end) {
            Ok((_, m1)) => m1.pos >= loop_end && m1.pos >= m.pos,
            Err(e) => e == Error::Truncated,
        },
    decreases left(m.pos, loop_end),
{
    if m.pos < loop_end {
        if let Ok((stored, start)) = m.read::<RecordHeader>() {
            let shown = shown_header(stored)->Some_0;
            if let Ok((h1, m1)) = H::record_outcome(h, start, shown) {
                lemma_exact_records_never_misparse::<H>(h1, m.moved(m1), loop_end);
            }
        }
    }
}

/// The escape hatch, fields: a handler that reads past the end of its own
/// field and lands exactly on `loop_end` ends the loop in success, there.
pub proof fn lemma_field_overrun_to_boundary<H: FieldHandler>(
    h: H::V,
    m: ParserModel,
    loop_end: nat,
)
    requires
        m.pos < loop_end,
        m.can_read(6),
        H::field_outcome(h, m.at(m.pos + 6), FieldHeader::decode(m.window(6))) matches Ok(
            (_, m1),
        ) && m1.pos == loop_end,
    ensures
        ({
            let header = FieldHeader::decode(m.window(6));
            let (h1, m1) = H::field_outcome(h, m.at(m.pos + 6), header)->Ok_0;
            fields_outcome::<H>(h, m, loop_end) == Ok::<(H::V, ParserModel), Error>(
                (h1, m.moved(m1)),
            )
        }),
{
    let header = FieldHeader::decode(m.window(6));
    let (h1, m1) = H::field_outcome(h, m.at(m.pos + 6), header)->Ok_0;
    assert(fields_outcome::<H>(h1, m.moved(m1), loop_end) == Ok::<(H::V, ParserModel), Error>(
        (h1, m.moved(m1)),
    ));
}

/// The escape hatch, records and groups: a handler that reads past the
/// end of its own chunk and lands exactly on `loop_end` ends the loop in
/// success, there.
pub proof fn lemma_record_overrun_to_boundary<H: RecordHandler>(
    h: H::V,
    m: ParserModel,
    loop_end: nat,
)
    requires
        m.pos < loop_end,
        m.can_read(24),
        shown_header(RecordHeader::decode(m.window(24))) is Some,
        H::record_outcome(
            h,
            m.at(m.pos + 24),
            shown_header(RecordHeader::decode(m.window(24)))->Some_0,
        ) matches Ok((_, m1)) && m1.pos == loop_end,
    ensures
        ({
            let shown = shown_header(RecordHeader::decode(m.window(24)))->Some_0;
            let (h1, m1) = H::record_outcome(h, m.at(m.pos + 24), shown)->Ok_0;
            records_outcome::<H>(h, m, loop_end) == Ok::<(H::V, ParserModel), Error>(
                (h1, m.moved(m1)),
            )
        }),
{
    let shown = shown_header(RecordHeader::decode(m.window(24)))->Some_0;
    let (h1, m1) = H::record_outcome(h, m.at(m.pos + 24), shown)->Ok_0;
    assert(records_outcome::<H>(h1, m.moved(m1), loop_end) == Ok::<(H::V, ParserModel), Error>(
        (h1, m.moved(m1)),
    ));
}

/// A misread is fatal, fields: a handler that leaves the cursor anywhere
/// but at the declared end of its field or at `loop_end`, be it one byte
/// off, ends the loop in a [`Error::ParseError`].
pub proof fn lemma_field_misread_is_fatal<H: FieldHandler>(h: H::V, m: ParserModel, loop_end: nat)
    requires
        m.pos < loop_end,
        m.can_read(6),
        ({
            let header = FieldHeader::decode(m.window(6));
            H::field_outcome(h, m.at(m.pos + 6), header) matches Ok((_, m1)) && m1.pos != m.pos + 6
                + header.size && m1.pos != loop_end
        }),
    ensures
        fields_outcome::<H>(h, m, loop_end) == Err::<(H::V, ParserModel), Error>(
            Error::ParseError,
        ),
{
}

/// A misread is fatal, records and groups: a handler that leaves the
/// cursor anywhere but behind the bytes that its chunk occupies or at
/// `loop_end`, be it one byte off, ends the loop in a
/// [`Error::ParseError`].
pub proof fn lemma_record_misread_is_fatal<H: RecordHandler>(
    h: H::V,
    m: ParserModel,
    loop_end: nat,
)
    requires
        m.pos < loop_end,
        m.can_read(24),
        shown_header(RecordHeader::decode(m.window(24))) is Some,
        ({
            let stored = RecordHeader::decode(m.window(24));
            H::record_outcome(h, m.at(m.pos + 24), shown_header(stored)->Some_0) matches Ok(
                (_, m1),
            ) && m1.pos != m.pos + stored_extent(stored) && m1.pos != loop_end
        }),
    ensures
        records_outcome::<H>(h, m, loop_end) == Err::<(H::V, ParserModel), Error>(
            Error::ParseError,
        ),
{
}

/// No bytes, no work: a bounded loop over zero bytes succeeds and leaves
/// the handler and the parser as they were, whatever the buffer holds and
/// however deep the parser is.
pub proof fn lemma_zero_size_is_noop<F: FieldHandler, R: RecordHandler>(
    f: F::V,
    r: R::V,
    m: ParserModel,
)
    ensures
        parse_fields_outcome::<F>(f, m, 0) == Ok::<(F::V, ParserModel), Error>((f, m)),
        parse_records_outcome::<R>(r, m, 0) == Ok::<(R::V, ParserModel), Error>((r, m)),
{
}

/// The size of a group holds its header: for a group that declares
/// `24 + content_len` bytes, the content ends `content_len` bytes behind
/// the header, and a record handler is shown `content_len` as the size.
pub proof fn lemma_group_size_holds_header(header: GroupHeader, start: ParserModel, content_len: nat)
    requires
        header.size == 24 + content_len,
        start.pos + content_len <= u64::MAX,
    ensures
        content_end(header, start) == Ok::<nat, Error>(start.pos + content_len),
        forall|stored: RecordHeader|
            stored.is_group() && #[trigger] stored.as_group() == header ==> (shown_header(
                stored,
            ) matches Some(shown) && shown.size == content_len),
{
}

/// The frame is kept, fields: where the field loop succeeds, the buffer
/// and the depth are what they were.
pub proof fn lemma_fields_keep_frame<H: FieldHandler>(h: H::V, m: ParserModel, loop_end: nat)
    ensures
        fields_outcome::<H>(h, m, loop_end) matches Ok((_, m1)) ==> m.same_frame(m1),
    decreases left(m.pos, loop_end),
{
    if m.pos < loop_end {
        if let Ok((header, start)) = m.read::<FieldHeader>() {
            if let Ok((h1, m1)) = H::field_outcome(h, start, header) {
                if m1.pos == start.pos + header.size || m1.pos == loop_end {
                    lemma_fields_keep_frame::<H>(h1, m.moved(m1), loop_end);
                }
            }
        }
    }
}

/// The frame is kept, records and groups: where the record loop succeeds,
/// the buffer and the depth are what they were.
pub proof fn lemma_records_keep_frame<H: RecordHandler>(h: H::V, m: ParserModel, loop_end: nat)
    ensures
        records_outcome::<H>(h, m, loop_end) matches Ok((_, m1)) ==> m.same_frame(m1),
    decreases left(m.pos, loop_end),
{
    if m.pos < loop_end {
        if let Ok((stored, start)) = m.read::<RecordHeader>() {
            if let Some(shown) = shown_header(stored) {
                if let Ok((h1, m1)) = H::record_outcome(h, start, shown) {
                    if m1.pos == start.pos + shown.size || m1.pos == loop_end {
                        lemma_records_keep_frame::<H>(h1, m.moved(m1), loop_end);
                    }
                }
            }
        }
    }
}

/// The frame is kept, producers: where the producer loop succeeds, the
/// buffer and the depth are what they were.
pub proof fn lemma_until_keeps_frame<P: Producer>(
    p: &P,
    m: ParserModel,
    limit: nat,
    acc: Seq<<P::Item as View>::V>,
)
    ensures
        until_outcome(p, m, limit, acc) matches Ok((_, m1)) ==> m.same_frame(m1),
    decreases left(m.pos, limit),
{
    if m.pos < limit {
        if let Ok((item, m1)) = p.outcome(m) {
            if m1.pos > m.pos {
                lemma_until_keeps_frame(p, m.moved(m1), limit, acc.push(item));
            }
        }
    }
}

/// Depth balance: each of the three bounded loops, where it succeeds,
/// leaves the depth and the buffer as they were, though it ran one level
/// deeper. That a loop which fails does so too is promised by the
/// functions that run the loops.
pub proof fn lemma_depth_is_balanced<F: FieldHandler, R: RecordHandler, P: Producer>(
    f: F::V,
    r: R::V,
    p: &P,
    m: ParserModel,
    total_size: nat,
    limit: nat,
)
    ensures
        parse_fields_outcome::<F>(f, m, total_size) matches Ok((_, m1)) ==> m.same_frame(m1),
        parse_records_outcome::<R>(r, m, total_size) matches Ok((_, m1)) ==> m.same_frame(m1),
        parse_until_outcome(p, m, limit) matches Ok((_, m1)) ==> m.same_frame(m1),
{
    lemma_fields_keep_frame::<F>(f, m.deeper(), m.pos + total_size);
    lemma_records_keep_frame::<R>(r, m.deeper(), m.pos + total_size);
    lemma_until_keeps_frame(p, m.deeper(), limit, Seq::empty());
}

/// An unknown tag does no harm: a field whose tag the table does not know
/// is passed over by its declared size alone. Whatever its content holds,
/// the table's state is untouched, and the loop gives what it gives from
/// the next field on.
pub proof fn lemma_unknown_field_is_skipped<H: FieldHandler>(
    h: KnownFieldsModel<H::V>,
    m: ParserModel,
    loop_end: nat,
)
    requires
        m.pos < loop_end,
        m.can_read(6),
        !h.known.contains(FieldHeader::decode(m.window(6)).type_id),
        m.pos + 6 + FieldHeader::decode(m.window(6)).size <= u64::MAX,
    ensures
        fields_outcome::<KnownFields<H>>(h, m, loop_end) == fields_outcome::<KnownFields<H>>(
            h,
            m.at((m.pos + 6 + FieldHeader::decode(m.window(6)).size) as nat),
            loop_end,
        ),
{
}

/// An unknown group does no harm: a group whose type is none of those
/// known is labelled `Unknown` and passed over by its declared size,
/// whatever its content holds.
pub proof fn lemma_unknown_group_is_skipped(m: ParserModel)
    requires
        group_header_at(m) matches Ok(((header, _), _)) && header.group_type
            > GROUP_CELL_VISIBLE_DISTANT_CHILDREN,
    ensures
        ({
            let ((header, end), start) = group_header_at(m)->Ok_0;
            &&& header.label_of() == GroupLabel::Unknown(header.label)
            &&& group_at(m) == Ok::<(Group, ParserModel), Error>((Group { header }, start.at(end)))
            &&& end == m.pos + header.size
        }),
{
}

/// The loop of groups is the producer loop over the producer of groups.
pub proof fn lemma_groups_are_produced(m: ParserModel, limit: nat, acc: Seq<Group>)
    ensures
        groups_from(m, limit, acc) == until_outcome(&Groups, m, limit, acc),
        groups_until(m, limit) == parse_until_outcome(&Groups, m, limit),
    decreases rest(m), 1int,
{
    lemma_group_advances(m);
    if m.pos < limit {
        if let Ok((group, m1)) = group_at(m) {
            lemma_groups_are_produced(m.moved(m1), limit, acc.push(group));
        }
        lemma_groups_from_are_produced(m.deeper(), limit, Seq::empty());
    }
}

proof fn lemma_groups_from_are_produced(m: ParserModel, limit: nat, acc: Seq<Group>)
    ensures
        groups_from(m, limit, acc) == until_outcome(&Groups, m, limit, acc),
    decreases rest(m), 0int,
{
    lemma_group_advances(m);
    if m.pos < limit {
        if let Ok((group, m1)) = group_at(m) {
            lemma_groups_from_are_produced(m.moved(m1), limit, acc.push(group));
        }
    }
}

/// The loop of dialog topics is the producer loop over the producer of
/// dialog topics.
pub proof fn lemma_dialogs_are_produced(m: ParserModel, limit: nat, acc: Seq<DialogModel>)
    ensures
        dialogs_from(m, limit, acc) == until_outcome(&Dialogs, m, limit, acc),
        dialogs_until(m, limit) == parse_until_outcome(&Dialogs, m, limit),
    decreases rest(m), 1int,
{
    lemma_dialog_advances(m);
    if m.pos < limit {
        if let Ok((dialog, m1)) = dialog_at(m) {
            lemma_dialogs_are_produced(m.moved(m1), limit, acc.push(dialog));
        }
        lemma_dialogs_from_are_produced(m.deeper(), limit, Seq::empty());
    }
}

proof fn lemma_dialogs_from_are_produced(m: ParserModel, limit: nat, acc: Seq<DialogModel>)
    ensures
        dialogs_from(m, limit, acc) == until_outcome(&Dialogs, m, limit, acc),
    decreases rest(m), 0int,
{
    lemma_dialog_advances(m);
    if m.pos < limit {
        if let Ok((dialog, m1)) = dialog_at(m) {
            lemma_dialogs_from_are_produced(m.moved(m1), limit, acc.push(dialog));
        }
    }
}

/// The loop of worlds is the producer loop over the producer of worlds.
pub proof fn lemma_worlds_are_produced(m: ParserModel, limit: nat, acc: Seq<WorldEntryModel>)
    ensures
        world_entries_from(m, limit, acc) == until_outcome(&WorldEntries, m, limit, acc),
        world_entries_until(m, limit) == parse_until_outcome(&WorldEntries, m, limit),
    decreases rest(m), 1int,
{
    lemma_world_entry_advances(m);
    if m.pos < limit {
        if let Ok((world, m1)) = world_entry_at(m) {
            lemma_worlds_are_produced(m.moved(m1), limit, acc.push(world));
        }
        lemma_worlds_from_are_produced(m.deeper(), limit, Seq::empty());
    }
}

proof fn lemma_worlds_from_are_produced(m: ParserModel, limit: nat, acc: Seq<WorldEntryModel>)
    ensures
        world_entries_from(m, limit, acc) == until_outcome(&WorldEntries, m, limit, acc),
    decreases rest(m), 0int,
{
    lemma_world_entry_advances(m);
    if m.pos < limit {
        if let Ok((world, m1)) = world_entry_at(m) {
            lemma_worlds_from_are_produced(m.moved(m1), limit, acc.push(world));
        }
    }
}

} // verus!
