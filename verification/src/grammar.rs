//! What the bytes of a buffer mean: for each kind of unit, the value at the
//! cursor and the state behind it, as a function of the parser's state.
//!
//! The contracts of the parsing functions speak of these functions alone.
//! A loop of units is written with the units found so far as a last
//! argument.

use vstd::prelude::*;
use crate::cursor::{ParserModel, Parsed};
use crate::engine::{left, nested, parse_until_outcome, until_outcome, Producer};
use crate::error::Error;
use crate::header::{
    GroupHeader, GroupLabel, RecordHeader, CELL, DIAL, GROUP_CELL_CHILDREN, GROUP_TOPIC_CHILDREN,
    WRLD,
};
use crate::tree::{
    CellChildrenModel, CellModel, DialogModel, Group, RecordModel, TopGroupModel,
    WorldChildrenModel, WorldEntryModel,
};

verus! {

/// The producer of plain records.
pub struct Records;

/// The producer of the records among a cell's children.
pub struct CellChildRecords;

/// The producer of cells.
pub struct Cells;

/// The producer of top-level groups.
pub struct TopGroups;

/// The producer of groups.
pub struct Groups;

/// The producer of dialog topics.
pub struct Dialogs;

/// The producer of worlds.
pub struct WorldEntries;

/// How many bytes of the buffer lie at and behind the cursor.
pub open spec fn rest(m: ParserModel) -> nat {
    left(m.pos, m.data.len())
}

/// The outcome `p` with its value dropped.
pub open spec fn passed<T>(p: Parsed<T>) -> Parsed<()> {
    match p {
        Ok((_, m)) => Ok(((), m)),
        Err(e) => Err(e),
    }
}

/// A record whose content is passed over: the header at the cursor, which
/// must not be a group's, and the state behind the declared content.
pub open spec fn record_at(m: ParserModel) -> Parsed<RecordModel> {
    match m.read::<RecordHeader>() {
        Err(e) => Err(e),
        Ok((header, start)) => if header.is_group() {
            Err(Error::UnexpectedChunkShape)
        } else {
            match start.skip(header.size as nat) {
                Err(e) => Err(e),
                Ok((_, end)) => Ok((RecordModel { header, fields: Seq::empty() }, end)),
            }
        },
    }
}

/// A record among a cell's children: as [`record_at`], but only the tags
/// of such records are accepted.
pub open spec fn subgroup_record_at(m: ParserModel) -> Parsed<RecordModel> {
    match m.read::<RecordHeader>() {
        Err(e) => Err(e),
        Ok((header, start)) => if !header.type_id.is_cell_child() {
            Err(Error::UnexpectedChunkShape)
        } else {
            match start.skip(header.size as nat) {
                Err(e) => Err(e),
                Ok((_, end)) => Ok((RecordModel { header, fields: Seq::empty() }, end)),
            }
        },
    }
}

/// Where the content of a group ends whose header is `header` and whose
/// content starts at `start`: the declared size, less the header, further
/// on. A size that does not cover the header is a [`Error::ParseError`].
pub open spec fn content_end(header: GroupHeader, start: ParserModel) -> Result<nat, Error> {
    match header.content_size() {
        None => Err(Error::ParseError),
        Some(n) => if start.pos + n <= u64::MAX {
            Ok(start.pos + n)
        } else {
            Err(Error::Truncated)
        },
    }
}

/// The header of a group at the cursor, with the position where the
/// group's content ends. A header that is not tagged as a group's is an
/// [`Error::UnexpectedChunkShape`].
pub open spec fn group_header_at(m: ParserModel) -> Parsed<(GroupHeader, nat)> {
    match m.read::<GroupHeader>() {
        Err(e) => Err(e),
        Ok((header, start)) => if !header.is_group() {
            Err(Error::UnexpectedChunkShape)
        } else {
            match content_end(header, start) {
                Err(e) => Err(e),
                Ok(end) => Ok(((header, end), start)),
            }
        },
    }
}

/// Whether a group with this label is one of the two subgroups of a
/// cell's children whose records are kept.
pub open spec fn is_cell_subgroup(label: GroupLabel) -> bool {
    label is CellPersistentChildren || label is CellTemporaryChildren
}

/// `children` with the records of one more subgroup, filed by the
/// subgroup's label.
pub open spec fn with_subgroup(
    children: CellChildrenModel,
    label: GroupLabel,
    records: Seq<RecordModel>,
) -> CellChildrenModel {
    match label {
        GroupLabel::CellPersistentChildren(_) => CellChildrenModel {
            persistant: Some(records),
            ..children
        },
        GroupLabel::CellTemporaryChildren(_) => CellChildrenModel {
            temporary: Some(records),
            ..children
        },
        _ => children,
    }
}

/// The records of the subgroup whose header is `header` and whose content
/// starts at `start`.
pub open spec fn subgroup_records(header: GroupHeader, start: ParserModel) -> Parsed<
    Seq<RecordModel>,
> {
    match content_end(header, start) {
        Err(e) => Err(e),
        Ok(end) => parse_until_outcome(&CellChildRecords, start, end),
    }
}

/// The children of a cell: a group labelled as such, then one subgroup
/// of persistent or temporary children, then, where one follows, a second.
/// A header behind the first subgroup that is no group's, or of a group
/// of another kind, is left where it is.
pub open spec fn cell_children_at(m: ParserModel) -> Parsed<CellChildrenModel> {
    match m.read::<GroupHeader>() {
        Err(e) => Err(e),
        Ok((header, s0)) => match header.label_of() {
            GroupLabel::CellChildren(parent_id) if header.is_group() => match s0.read::<
                GroupHeader,
            >() {
                Err(e) => Err(e),
                Ok((first, s1)) => if !first.is_group() || !is_cell_subgroup(first.label_of()) {
                    Err(Error::UnexpectedChunkShape)
                } else {
                    match subgroup_records(first, s1) {
                        Err(e) => Err(e),
                        Ok((records, s2)) => second_subgroup_at(
                            with_subgroup(
                                CellChildrenModel { parent_id, temporary: None, persistant: None },
                                first.label_of(),
                                records,
                            ),
                            s2,
                        ),
                    }
                },
            },
            _ => Err(Error::UnexpectedChunkShape),
        },
    }
}

/// The children of a cell behind their first subgroup: `children` as they
/// are, or with the records of a second subgroup at the cursor.
pub open spec fn second_subgroup_at(children: CellChildrenModel, m: ParserModel) -> Parsed<
    CellChildrenModel,
> {
    match m.read::<GroupHeader>() {
        Err(e) => Err(e),
        Ok((second, start)) => if !second.is_group() {
            Ok((children, m))
        } else {
            match content_end(second, start) {
                Err(e) => Err(e),
                Ok(end) => if is_cell_subgroup(second.label_of()) {
                    match parse_until_outcome(&CellChildRecords, start, end) {
                        Err(e) => Err(e),
                        Ok((records, behind)) => Ok(
                            (with_subgroup(children, second.label_of(), records), behind),
                        ),
                    }
                } else {
                    Ok((children, m))
                },
            }
        },
    }
}

/// A cell: its record and, where the header behind it is that of a group
/// of cell children, they.
pub open spec fn cell_at(m: ParserModel) -> Parsed<CellModel> {
    match record_at(m) {
        Err(e) => Err(e),
        Ok((cell, s1)) => match s1.read::<GroupHeader>() {
            Err(e) => Err(e),
            Ok((next, _)) => if next.is_group() && next.group_type == GROUP_CELL_CHILDREN {
                match cell_children_at(s1) {
                    Err(e) => Err(e),
                    Ok((children, s2)) => Ok((CellModel { cell, cell_children: Some(children) }, s2)),
                }
            } else {
                Ok((CellModel { cell, cell_children: None }, s1))
            },
        },
    }
}

/// A group: its header, and the state behind what its label asks to be
/// parsed or passed over.
///
/// Under a top group of worlds stand world entries, under one of cells
/// groups, under one of dialogs dialog entries, under any other top group
/// plain records. A block of exterior cells holds groups, a sub-block
/// cells. Every other group is passed over by its declared size; the
/// children of a world are not accepted here.
pub open spec fn group_at(m: ParserModel) -> Parsed<Group>
    decreases rest(m), 0int,
{
    match group_header_at(m) {
        Err(e) => Err(e),
        Ok(((header, end), start)) => {
            let body = match header.label_of() {
                GroupLabel::Top(tag) => if tag.code == WRLD {
                    passed(world_entries_until(m.moved(start), end))
                } else if tag.code == CELL {
                    passed(groups_until(m.moved(start), end))
                } else if tag.code == DIAL {
                    passed(dialogs_until(m.moved(start), end))
                } else {
                    passed(parse_until_outcome(&Records, start, end))
                },
                GroupLabel::WorldChildren(_) => Err(Error::UnexpectedChunkShape),
                GroupLabel::ExteriorCellBlock(_, _) => passed(groups_until(m.moved(start), end)),
                GroupLabel::ExteriorCellSubBlock(_, _) => passed(
                    parse_until_outcome(&Cells, start, end),
                ),
                _ => Ok(((), start.at(end))),
            };
            match body {
                Err(e) => Err(e),
                Ok((_, behind)) => Ok((Group { header }, behind)),
            }
        },
    }
}

/// Groups from the cursor until it has reached `limit`, behind those in
/// `acc`.
pub open spec fn groups_from(m: ParserModel, limit: nat, acc: Seq<Group>) -> Parsed<
    Seq<Group>,
>
    decreases rest(m), 1int,
{
    if m.pos >= limit {
        Ok((acc, m))
    } else {
        match group_at(m) {
            Err(e) => Err(e),
            Ok((group, m1)) => if m1.pos > m.pos && m.pos < m.data.len() {
                groups_from(m.moved(m1), limit, acc.push(group))
            } else {
                Err(Error::ParseError)
            },
        }
    }
}

/// Groups until the cursor has reached `limit`: none where it has
/// already, else those of the loop, run one level deeper.
pub open spec fn groups_until(m: ParserModel, limit: nat) -> Parsed<Seq<Group>>
    decreases rest(m), 2int,
{
    if m.pos >= limit {
        Ok((Seq::empty(), m))
    } else {
        nested(m, groups_from(m.deeper(), limit, Seq::empty()))
    }
}

/// A dialog topic: its record and, where the header behind it is that of
/// a group of topic children, that group.
pub open spec fn dialog_at(m: ParserModel) -> Parsed<DialogModel>
    decreases rest(m), 1int,
{
    match record_at(m) {
        Err(e) => Err(e),
        Ok((dialog, s1)) => match s1.read::<GroupHeader>() {
            Err(e) => Err(e),
            Ok((next, _)) => if next.is_group() && next.group_type == GROUP_TOPIC_CHILDREN {
                if s1.pos > m.pos && m.pos < m.data.len() {
                    match group_at(m.moved(s1)) {
                        Err(e) => Err(e),
                        Ok((group, s2)) => Ok((DialogModel { dialog, children: Some(group) }, s2)),
                    }
                } else {
                    Err(Error::ParseError)
                }
            } else {
                Ok((DialogModel { dialog, children: None }, s1))
            },
        },
    }
}

/// Dialog topics from the cursor until it has reached `limit`, behind those in
/// `acc`.
pub open spec fn dialogs_from(m: ParserModel, limit: nat, acc: Seq<DialogModel>) -> Parsed<
    Seq<DialogModel>,
>
    decreases rest(m), 2int,
{
    if m.pos >= limit {
        Ok((acc, m))
    } else {
        match dialog_at(m) {
            Err(e) => Err(e),
            Ok((dialog, m1)) => if m1.pos > m.pos && m.pos < m.data.len() {
                dialogs_from(m.moved(m1), limit, acc.push(dialog))
            } else {
                Err(Error::ParseError)
            },
        }
    }
}

/// Dialog topics until the cursor has reached `limit`: none where it has
/// already, else those of the loop, run one level deeper.
pub open spec fn dialogs_until(m: ParserModel, limit: nat) -> Parsed<Seq<DialogModel>>
    decreases rest(m), 3int,
{
    if m.pos >= limit {
        Ok((Seq::empty(), m))
    } else {
        nested(m, dialogs_from(m.deeper(), limit, Seq::empty()))
    }
}

/// The children of a world: a group header, the world's own cell, and
/// groups up to the end that the header declares. The groups are walked
/// and not kept.
pub open spec fn world_children_at(m: ParserModel) -> Parsed<WorldChildrenModel>
    decreases rest(m), 3int,
{
    match group_header_at(m) {
        Err(e) => Err(e),
        Ok(((header, end), start)) => match cell_at(start) {
            Err(e) => Err(e),
            Ok((cell, s1)) => if s1.pos > m.pos {
                match groups_until(m.moved(s1), end) {
                    Err(e) => Err(e),
                    Ok((_, s2)) => Ok((WorldChildrenModel { cell, blocks: Seq::empty() }, s2)),
                }
            } else {
                Err(Error::ParseError)
            },
        },
    }
}

/// A world: its record, then its children.
pub open spec fn world_entry_at(m: ParserModel) -> Parsed<WorldEntryModel>
    decreases rest(m), 4int,
{
    match record_at(m) {
        Err(e) => Err(e),
        Ok((world, s1)) => if s1.pos > m.pos {
            match world_children_at(m.moved(s1)) {
                Err(e) => Err(e),
                Ok((world_children, s2)) => Ok((WorldEntryModel { world, world_children }, s2)),
            }
        } else {
            Err(Error::ParseError)
        },
    }
}

/// Worlds from the cursor until it has reached `limit`, behind those in
/// `acc`.
pub open spec fn world_entries_from(m: ParserModel, limit: nat, acc: Seq<WorldEntryModel>) -> Parsed<
    Seq<WorldEntryModel>,
>
    decreases rest(m), 5int,
{
    if m.pos >= limit {
        Ok((acc, m))
    } else {
        match world_entry_at(m) {
            Err(e) => Err(e),
            Ok((world, m1)) => if m1.pos > m.pos && m.pos < m.data.len() {
                world_entries_from(m.moved(m1), limit, acc.push(world))
            } else {
                Err(Error::ParseError)
            },
        }
    }
}

/// Worlds until the cursor has reached `limit`: none where it has
/// already, else those of the loop, run one level deeper.
pub open spec fn world_entries_until(m: ParserModel, limit: nat) -> Parsed<Seq<WorldEntryModel>>
    decreases rest(m), 6int,
{
    if m.pos >= limit {
        Ok((Seq::empty(), m))
    } else {
        nested(m, world_entries_from(m.deeper(), limit, Seq::empty()))
    }
}

/// A top-level group: a group labelled `Top`, and what stands under it.
/// A flat group gives its records, the group of cells its groups, the
/// group of worlds its worlds; any other is passed over to its declared
/// end.
pub open spec fn top_group_at(m: ParserModel) -> Parsed<TopGroupModel> {
    match group_header_at(m) {
        Err(e) => Err(e),
        Ok(((header, end), start)) => match header.label_of() {
            GroupLabel::Top(tag) => if tag.is_flat_group() {
                match parse_until_outcome(&Records, start, end) {
                    Err(e) => Err(e),
                    Ok((records, behind)) => Ok((TopGroupModel::Unhandled(records), behind)),
                }
            } else if tag.code == CELL {
                match groups_until(start, end) {
                    Err(e) => Err(e),
                    Ok((groups, behind)) => Ok((TopGroupModel::Cell(groups), behind)),
                }
            } else if tag.code == WRLD {
                match world_entries_until(start, end) {
                    Err(e) => Err(e),
                    Ok((worlds, behind)) => Ok((TopGroupModel::Worldspace(worlds), behind)),
                }
            } else {
                Ok((TopGroupModel::Skipped, start.at(end)))
            },
            _ => Err(Error::UnexpectedChunkShape),
        },
    }
}

/// A whole file, read from the start of the buffer wherever the cursor
/// stands: the file's header record, then top-level groups to the end of
/// the buffer.
pub open spec fn file_at(m: ParserModel) -> Parsed<(RecordModel, Seq<TopGroupModel>)> {
    match record_at(m.at(0)) {
        Err(e) => Err(e),
        Ok((header, s1)) => match parse_until_outcome(&TopGroups, s1, m.data.len()) {
            Err(e) => Err(e),
            Ok((groups, behind)) => Ok(((header, groups), behind)),
        },
    }
}

/// Whether the outcome `p` of a unit at `m`, where it is a success, lies
/// at least one 24-byte header further on, which the buffer held.
pub open spec fn advances<T>(m: ParserModel, p: Parsed<T>) -> bool {
    p matches Ok((_, m1)) ==> m1.pos >= m.pos + 24 && m.pos + 24 <= m.data.len()
}

/// Whether the outcome `p` of a loop from `m`, where it is a success, lies
/// at or behind `m`.
pub open spec fn not_before<T>(m: ParserModel, p: Parsed<T>) -> bool {
    p matches Ok((_, m1)) ==> m1.pos >= m.pos
}

/// A producer loop never ends before the position where it began.
pub proof fn lemma_until_not_before<P: Producer>(
    p: &P,
    m: ParserModel,
    limit: nat,
    acc: Seq<<P::Item as View>::V>,
)
    ensures
        not_before(m, until_outcome(p, m, limit, acc)),
        not_before(m, parse_until_outcome(p, m, limit)),
    decreases left(m.pos, limit),
{
    if m.pos < limit {
        if let Ok((item, m1)) = p.outcome(m) {
            if m1.pos > m.pos {
                lemma_until_not_before(p, m.moved(m1), limit, acc.push(item));
            }
        }
        lemma_until_from_deeper(p, m.deeper(), limit, Seq::empty());
    }
}

proof fn lemma_until_from_deeper<P: Producer>(
    p: &P,
    m: ParserModel,
    limit: nat,
    acc: Seq<<P::Item as View>::V>,
)
    ensures
        not_before(m, until_outcome(p, m, limit, acc)),
    decreases left(m.pos, limit),
{
    if m.pos < limit {
        if let Ok((item, m1)) = p.outcome(m) {
            if m1.pos > m.pos {
                lemma_until_from_deeper(p, m.moved(m1), limit, acc.push(item));
            }
        }
    }
}

/// A loop of groups never ends before the position where it began.
pub proof fn lemma_groups_not_before(m: ParserModel, limit: nat, acc: Seq<Group>)
    ensures
        not_before(m, groups_from(m, limit, acc)),
        not_before(m, groups_until(m, limit)),
    decreases rest(m), 1int,
{
    if m.pos < limit {
        if let Ok((group, m1)) = group_at(m) {
            if m1.pos > m.pos && m.pos < m.data.len() {
                lemma_groups_not_before(m.moved(m1), limit, acc.push(group));
            }
        }
        lemma_groups_from_deeper(m.deeper(), limit, Seq::empty());
    }
}

proof fn lemma_groups_from_deeper(m: ParserModel, limit: nat, acc: Seq<Group>)
    ensures
        not_before(m, groups_from(m, limit, acc)),
    decreases rest(m), 0int,
{
    if m.pos < limit {
        if let Ok((group, m1)) = group_at(m) {
            if m1.pos > m.pos && m.pos < m.data.len() {
                lemma_groups_from_deeper(m.moved(m1), limit, acc.push(group));
            }
        }
    }
}

/// A loop of dialog topics never ends before the position where it began.
pub proof fn lemma_dialogs_not_before(m: ParserModel, limit: nat, acc: Seq<DialogModel>)
    ensures
        not_before(m, dialogs_from(m, limit, acc)),
        not_before(m, dialogs_until(m, limit)),
    decreases rest(m), 1int,
{
    if m.pos < limit {
        if let Ok((dialog, m1)) = dialog_at(m) {
            if m1.pos > m.pos && m.pos < m.data.len() {
                lemma_dialogs_not_before(m.moved(m1), limit, acc.push(dialog));
            }
        }
        lemma_dialogs_from_deeper(m.deeper(), limit, Seq::empty());
    }
}

proof fn lemma_dialogs_from_deeper(m: ParserModel, limit: nat, acc: Seq<DialogModel>)
    ensures
        not_before(m, dialogs_from(m, limit, acc)),
    decreases rest(m), 0int,
{
    if m.pos < limit {
        if let Ok((dialog, m1)) = dialog_at(m) {
            if m1.pos > m.pos && m.pos < m.data.len() {
                lemma_dialogs_from_deeper(m.moved(m1), limit, acc.push(dialog));
            }
        }
    }
}

/// A loop of worlds never ends before the position where it began.
pub proof fn lemma_worlds_not_before(m: ParserModel, limit: nat, acc: Seq<WorldEntryModel>)
    ensures
        not_before(m, world_entries_from(m, limit, acc)),
        not_before(m, world_entries_until(m, limit)),
    decreases rest(m), 1int,
{
    if m.pos < limit {
        if let Ok((world, m1)) = world_entry_at(m) {
            if m1.pos > m.pos && m.pos < m.data.len() {
                lemma_worlds_not_before(m.moved(m1), limit, acc.push(world));
            }
        }
        lemma_worlds_from_deeper(m.deeper(), limit, Seq::empty());
    }
}

proof fn lemma_worlds_from_deeper(m: ParserModel, limit: nat, acc: Seq<WorldEntryModel>)
    ensures
        not_before(m, world_entries_from(m, limit, acc)),
    decreases rest(m), 0int,
{
    if m.pos < limit {
        if let Ok((world, m1)) = world_entry_at(m) {
            if m1.pos > m.pos && m.pos < m.data.len() {
                lemma_worlds_from_deeper(m.moved(m1), limit, acc.push(world));
            }
        }
    }
}

/// The children of a cell begin with a header that the buffer holds.
pub proof fn lemma_cell_children_advance(m: ParserModel)
    ensures
        advances(m, cell_children_at(m)),
{
    if let Ok((header, s0)) = m.read::<GroupHeader>() {
        if let Ok((first, s1)) = s0.read::<GroupHeader>() {
            if let Ok(end) = content_end(first, s1) {
                lemma_until_not_before(&CellChildRecords, s1, end, Seq::empty());
                if let Ok((_, s2)) = subgroup_records(first, s1) {
                    if let Ok((second, start)) = s2.read::<GroupHeader>() {
                        if let Ok(end2) = content_end(second, start) {
                            lemma_until_not_before(&CellChildRecords, start, end2, Seq::empty());
                        }
                    }
                }
            }
        }
    }
}

/// A cell begins with a header that the buffer holds.
pub proof fn lemma_cell_advances(m: ParserModel)
    ensures
        advances(m, cell_at(m)),
{
    if let Ok((_, s1)) = record_at(m) {
        lemma_cell_children_advance(s1);
    }
}

/// A group begins with a header that the buffer holds.
pub proof fn lemma_group_advances(m: ParserModel)
    ensures
        advances(m, group_at(m)),
{
    if let Ok(((header, end), start)) = group_header_at(m) {
        lemma_until_not_before(&Records, start, end, Seq::empty());
        lemma_until_not_before(&Cells, start, end, Seq::empty());
        lemma_groups_not_before(m.moved(start), end, Seq::empty());
        lemma_dialogs_not_before(m.moved(start), end, Seq::empty());
        lemma_worlds_not_before(m.moved(start), end, Seq::empty());
    }
}

/// A dialog topic begins with a header that the buffer holds.
pub proof fn lemma_dialog_advances(m: ParserModel)
    ensures
        advances(m, dialog_at(m)),
{
    if let Ok((_, s1)) = record_at(m) {
        lemma_group_advances(m.moved(s1));
    }
}

/// The children of a world begin with a header that the buffer holds.
pub proof fn lemma_world_children_advance(m: ParserModel)
    ensures
        advances(m, world_children_at(m)),
{
    if let Ok(((header, end), start)) = group_header_at(m) {
        lemma_cell_advances(start);
        if let Ok((_, s1)) = cell_at(start) {
            lemma_groups_not_before(m.moved(s1), end, Seq::empty());
        }
    }
}

/// A world begins with a header that the buffer holds.
pub proof fn lemma_world_entry_advances(m: ParserModel)
    ensures
        advances(m, world_entry_at(m)),
{
    if let Ok((_, s1)) = record_at(m) {
        lemma_world_children_advance(m.moved(s1));
    }
}

/// A top-level group begins with a header that the buffer holds.
pub proof fn lemma_top_group_advances(m: ParserModel)
    ensures
        advances(m, top_group_at(m)),
{
    if let Ok(((header, end), start)) = group_header_at(m) {
        lemma_until_not_before(&Records, start, end, Seq::empty());
        lemma_groups_not_before(start, end, Seq::empty());
        lemma_worlds_not_before(start, end, Seq::empty());
    }
}

} // verus!
