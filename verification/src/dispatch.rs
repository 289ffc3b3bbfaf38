//! The group-type dispatcher: the functions that parse one unit each and
//! route a group to the shape that its label asks for.
//!
//! None of them changes the depth or the localisation flag on success, and
//! none the buffer or the depth in any case.

use vstd::prelude::*;
use crate::cursor::{ESMParser2, ParserModel, Parsed};
use crate::engine::Producer;
use crate::error::Error;
use crate::grammar::{
    cell_at, cell_children_at, content_end, dialog_at, dialogs_from, dialogs_until, file_at,
    group_at, group_header_at, groups_from, groups_until, lemma_cell_advances,
    lemma_dialog_advances, lemma_group_advances,
    lemma_top_group_advances, lemma_world_entry_advances, record_at, rest, subgroup_record_at,
    top_group_at, world_children_at, world_entries_from, world_entries_until, world_entry_at,
    CellChildRecords, Cells, Dialogs, Groups, Records, TopGroups, WorldEntries,
};
use crate::header::{
    GroupHeader, GroupLabel, RecordHeader, CELL, DIAL, GROUP_CELL_CHILDREN, GROUP_TOPIC_CHILDREN,
    WRLD,
};
use crate::tree::{
    lemma_models_empty, lemma_models_push, models, Cell, CellChildren, Dialog,
    ExteriorCellBlock, Group, Quest, Record, TopGroup, WorldChildren, WorldEntry,
};

verus! {

impl Producer for Records {
    type Item = Record;

    open spec fn outcome(&self, m: ParserModel) -> Parsed<<Record as View>::V> {
        record_at(m)
    }

    fn produce(&self, parser: &mut ESMParser2) -> (r: Result<Record, Error>) {
        parser.parse_record()
    }
}

impl Producer for CellChildRecords {
    type Item = Record;

    open spec fn outcome(&self, m: ParserModel) -> Parsed<<Record as View>::V> {
        subgroup_record_at(m)
    }

    fn produce(&self, parser: &mut ESMParser2) -> (r: Result<Record, Error>) {
        parser.parse_subgroup_record()
    }
}

impl Producer for Cells {
    type Item = Cell;

    open spec fn outcome(&self, m: ParserModel) -> Parsed<<Cell as View>::V> {
        cell_at(m)
    }

    fn produce(&self, parser: &mut ESMParser2) -> (r: Result<Cell, Error>) {
        proof {
            lemma_cell_advances(parser@);
        }
        parser.parse_cell()
    }
}

impl Producer for TopGroups {
    type Item = TopGroup;

    open spec fn outcome(&self, m: ParserModel) -> Parsed<<TopGroup as View>::V> {
        top_group_at(m)
    }

    fn produce(&self, parser: &mut ESMParser2) -> (r: Result<TopGroup, Error>) {
        proof {
            lemma_top_group_advances(parser@);
        }
        parser.parse_top_group()
    }
}

impl Producer for Groups {
    type Item = Group;

    open spec fn outcome(&self, m: ParserModel) -> Parsed<<Group as View>::V> {
        group_at(m)
    }

    fn produce(&self, parser: &mut ESMParser2) -> (r: Result<Group, Error>) {
        proof {
            lemma_group_advances(parser@);
        }
        parser.parse_group()
    }
}

impl Producer for Dialogs {
    type Item = Dialog;

    open spec fn outcome(&self, m: ParserModel) -> Parsed<<Dialog as View>::V> {
        dialog_at(m)
    }

    fn produce(&self, parser: &mut ESMParser2) -> (r: Result<Dialog, Error>) {
        proof {
            lemma_dialog_advances(parser@);
        }
        parser.parse_dial()
    }
}

impl Producer for WorldEntries {
    type Item = WorldEntry;

    open spec fn outcome(&self, m: ParserModel) -> Parsed<<WorldEntry as View>::V> {
        world_entry_at(m)
    }

    fn produce(&self, parser: &mut ESMParser2) -> (r: Result<WorldEntry, Error>) {
        proof {
            lemma_world_entry_advances(parser@);
        }
        parser.parse_world_entry()
    }
}

/// Whether a call that returned `r` and left the parser in state `after`
/// did what `expected` says.
pub open spec fn agrees<T: View>(r: Result<T, Error>, after: ParserModel, expected: Parsed<T::V>) -> bool {
    match expected {
        Ok((v, m)) => r matches Ok(x) && x@ == v && after == m,
        Err(e) => r matches Err(x) && x == e,
    }
}

impl ESMParser2 {
    /// Where the content of the group with header `header` ends, the
    /// cursor standing behind the header.
    fn content_end(&self, header: &GroupHeader) -> (r: Result<u64, Error>)
        ensures
            match content_end(*header, self@) {
                Ok(end) => r == Ok::<u64, Error>(end as u64) && end <= u64::MAX,
                Err(e) => r == Err::<u64, Error>(e),
            },
    {
        match header.content_len() {
            None => Err(Error::ParseError),
            Some(n) => match self.position().checked_add(n as u64) {
                None => Err(Error::Truncated),
                Some(end) => Ok(end),
            },
        }
    }

    /// Reads the header of a group, and says where the group's content
    /// ends.
    pub fn parse_group_header(&mut self) -> (r: Result<(GroupHeader, u64), Error>)
        ensures
            old(self)@.same_frame(final(self)@),
            match group_header_at(old(self)@) {
                Ok(((header, end), m)) => r == Ok::<(GroupHeader, u64), Error>(
                    (header, end as u64),
                ) && end <= u64::MAX && final(self)@ == m,
                Err(e) => r matches Err(x) && x == e,
            },
    {
        let header = self.read::<GroupHeader>()?;
        if !header.group() {
            return Err(Error::UnexpectedChunkShape);
        }
        let end = self.content_end(&header)?;
        Ok((header, end))
    }

    /// Parses one record, which must not be a group, and passes over its
    /// content by the declared size.
    pub fn parse_record(&mut self) -> (r: Result<Record, Error>)
        ensures
            old(self)@.same_frame(final(self)@),
            agrees(r, final(self)@, record_at(old(self)@)),
    {
        let header = self.read::<RecordHeader>()?;
        if header.group() {
            return Err(Error::UnexpectedChunkShape);
        }
        self.skip(header.size as u64)?;
        Ok(Record { header, fields: Vec::new() })
    }

    /// Parses one record of the kinds that stand among a cell's children,
    /// and passes over its content by the declared size.
    pub fn parse_subgroup_record(&mut self) -> (r: Result<Record, Error>)
        ensures
            old(self)@.same_frame(final(self)@),
            agrees(r, final(self)@, subgroup_record_at(old(self)@)),
    {
        let header = self.read::<RecordHeader>()?;
        if !header.type_id.cell_child() {
            return Err(Error::UnexpectedChunkShape);
        }
        self.skip(header.size as u64)?;
        Ok(Record { header, fields: Vec::new() })
    }

    /// Parses the children of a cell: the group's header, its first
    /// subgroup and, where one follows, its second.
    pub fn parse_cell_children(&mut self) -> (r: Result<CellChildren, Error>)
        ensures
            old(self)@.same_frame(final(self)@),
            agrees(r, final(self)@, cell_children_at(old(self)@)),
    {
        let header = self.read::<GroupHeader>()?;
        let parent_id = match header.get_label() {
            GroupLabel::CellChildren(parent_id) => parent_id,
            _ => {
                return Err(Error::UnexpectedChunkShape);
            },
        };
        if !header.group() {
            return Err(Error::UnexpectedChunkShape);
        }
        let first = self.read::<GroupHeader>()?;
        let first_label = first.get_label();
        let mut children = CellChildren { parent_id, temporary: None, persistant: None };
        if !first.group() {
            return Err(Error::UnexpectedChunkShape);
        }
        let end = match first_label {
            GroupLabel::CellPersistentChildren(_) | GroupLabel::CellTemporaryChildren(_) => {
                self.content_end(&first)?
            },
            _ => {
                return Err(Error::UnexpectedChunkShape);
            },
        };
        let records = self.parse_until(end, &CellChildRecords)?;
        match first_label {
            GroupLabel::CellPersistentChildren(_) => {
                children.persistant = Some(records);
            },
            _ => {
                children.temporary = Some(records);
            },
        }
        let second = self.read::<GroupHeader>()?;
        if !second.group() {
            self.rewind(24)?;
            return Ok(children);
        }
        let end = self.content_end(&second)?;
        match second.get_label() {
            GroupLabel::CellPersistentChildren(_) => {
                let records = self.parse_until(end, &CellChildRecords)?;
                children.persistant = Some(records);
            },
            GroupLabel::CellTemporaryChildren(_) => {
                let records = self.parse_until(end, &CellChildRecords)?;
                children.temporary = Some(records);
            },
            _ => {
                self.rewind(24)?;
            },
        }
        Ok(children)
    }

    /// Parses one cell: its record and, where a group of cell children
    /// follows, they. The header behind the record is looked at without
    /// being consumed.
    pub fn parse_cell(&mut self) -> (r: Result<Cell, Error>)
        ensures
            old(self)@.same_frame(final(self)@),
            agrees(r, final(self)@, cell_at(old(self)@)),
    {
        let cell = self.parse_record()?;
        let next = self.peek::<GroupHeader>()?;
        let mut cell_children: Option<CellChildren> = None;
        if next.group() && next.group_type == GROUP_CELL_CHILDREN {
            cell_children = Some(self.parse_cell_children()?);
        }
        Ok(Cell { cell, cell_children })
    }

    /// Parses one group and what its label asks for: the units under it,
    /// or nothing but a move to its declared end.
    pub fn parse_group(&mut self) -> (r: Result<Group, Error>)
        ensures
            old(self)@.same_frame(final(self)@),
            agrees(r, final(self)@, group_at(old(self)@)),
        decreases rest(old(self)@), 0int,
    {
        let (header, end) = self.parse_group_header()?;
        match header.get_label() {
            GroupLabel::Top(tag) => {
                if tag.code == WRLD {
                    self.parse_world_entries_until(end)?;
                } else if tag.code == CELL {
                    self.parse_groups_until(end)?;
                } else if tag.code == DIAL {
                    self.parse_dialogs_until(end)?;
                } else {
                    self.parse_until(end, &Records)?;
                }
            },
            GroupLabel::WorldChildren(_) => {
                return Err(Error::UnexpectedChunkShape);
            },
            GroupLabel::ExteriorCellBlock(_, _) => {
                self.parse_groups_until(end)?;
            },
            GroupLabel::ExteriorCellSubBlock(_, _) => {
                self.parse_until(end, &Cells)?;
            },
            _ => {
                self.seek(end);
            },
        }
        Ok(Group { header })
    }

    /// Parses groups until the cursor has reached `limit`.
    ///
    /// Nothing changes where the cursor has reached `limit` already. Else
    /// the loop runs one level deeper, and the depth is back where it was
    /// when the call returns, whether it failed or not.
    pub fn parse_groups_until(&mut self, limit: u64) -> (r: Result<Vec<Group>, Error>)
        ensures
            old(self)@.same_frame(final(self)@),
            match groups_until(old(self)@, limit as nat) {
                Ok((items, m)) => r matches Ok(v) && v@ == items && final(self)@ == m,
                Err(e) => r matches Err(x) && x == e,
            },
        decreases rest(old(self)@), 2int,
    {
        let mut out: Vec<Group> = Vec::new();
        if self.position() >= limit {
            return Ok(out);
        }
        if self.depth() == u64::MAX {
            return Err(Error::Unimplemented);
        }
        self.push();
        let ghost goal = groups_from(old(self)@.deeper(), limit as nat, Seq::empty());
        let mut failure: Option<Error> = None;
        while failure.is_none() && self.position() < limit
            invariant
                old(self)@.deeper().same_frame(self@),
                failure is None ==> rest(self@) <= rest(old(self)@),
                match failure {
                    None => groups_from(self@, limit as nat, out@) == goal,
                    Some(e) => goal matches Err(x) && x == e,
                },
            decreases
                    if failure is None {
                        1 + rest(self@)
                    } else {
                        0
                    },
        {
            let ghost before = self@;
            proof {
                lemma_group_advances(before);
            }
            match self.parse_group() {
                Err(e) => {
                    failure = Some(e);
                },
                Ok(group) => {
                    out.push(group);
                },
            }
        }
        self.pop();
        match failure {
            None => Ok(out),
            Some(e) => Err(e),
        }
    }

    /// Parses one dialog topic: its record and, where a group of topic
    /// children follows, that group. The header behind the record is looked
    /// at without being consumed.
    pub fn parse_dial(&mut self) -> (r: Result<Dialog, Error>)
        ensures
            old(self)@.same_frame(final(self)@),
            agrees(r, final(self)@, dialog_at(old(self)@)),
        decreases rest(old(self)@), 1int,
    {
        let dialog = self.parse_record()?;
        let next = self.peek::<GroupHeader>()?;
        let mut children: Option<Group> = None;
        if next.group() && next.group_type == GROUP_TOPIC_CHILDREN {
            children = Some(self.parse_group()?);
        }
        Ok(Dialog { dialog, children })
    }

    /// Parses dialog topics until the cursor has reached `limit`.
    ///
    /// Nothing changes where the cursor has reached `limit` already. Else
    /// the loop runs one level deeper, and the depth is back where it was
    /// when the call returns, whether it failed or not.
    pub fn parse_dialogs_until(&mut self, limit: u64) -> (r: Result<Vec<Dialog>, Error>)
        ensures
            old(self)@.same_frame(final(self)@),
            match dialogs_until(old(self)@, limit as nat) {
                Ok((items, m)) => r matches Ok(v) && models(v@) == items && final(self)@ == m,
                Err(e) => r matches Err(x) && x == e,
            },
        decreases rest(old(self)@), 3int,
    {
        let mut out: Vec<Dialog> = Vec::new();
        proof {
            lemma_models_empty::<Dialog>();
        }
        if self.position() >= limit {
            return Ok(out);
        }
        if self.depth() == u64::MAX {
            return Err(Error::Unimplemented);
        }
        self.push();
        let ghost goal = dialogs_from(old(self)@.deeper(), limit as nat, Seq::empty());
        let mut failure: Option<Error> = None;
        while failure.is_none() && self.position() < limit
            invariant
                old(self)@.deeper().same_frame(self@),
                failure is None ==> rest(self@) <= rest(old(self)@),
                match failure {
                    None => dialogs_from(self@, limit as nat, models(out@)) == goal,
                    Some(e) => goal matches Err(x) && x == e,
                },
            decreases
                    if failure is None {
                        1 + rest(self@)
                    } else {
                        0
                    },
        {
            let ghost before = self@;
            proof {
                lemma_dialog_advances(before);
            }
            match self.parse_dial() {
                Err(e) => {
                    failure = Some(e);
                },
                Ok(dialog) => {
                    proof {
                        lemma_models_push(out@, dialog);
                    }
                    out.push(dialog);
                },
            }
        }
        self.pop();
        match failure {
            None => Ok(out),
            Some(e) => Err(e),
        }
    }

    /// Parses the children of a world: the group's header, the world's own
    /// cell, and the groups up to the group's declared end, which are
    /// walked and not kept.
    pub fn parse_world_children(&mut self) -> (r: Result<WorldChildren, Error>)
        ensures
            old(self)@.same_frame(final(self)@),
            agrees(r, final(self)@, world_children_at(old(self)@)),
        decreases rest(old(self)@), 3int,
    {
        let (header, end) = self.parse_group_header()?;
        proof {
            lemma_cell_advances(self@);
        }
        let cell = self.parse_cell()?;
        self.parse_groups_until(end)?;
        let blocks: Vec<ExteriorCellBlock> = Vec::new();
        proof {
            lemma_models_empty::<ExteriorCellBlock>();
        }
        Ok(WorldChildren { cell, blocks })
    }

    /// Parses one world: its record, then its children.
    pub fn parse_world_entry(&mut self) -> (r: Result<WorldEntry, Error>)
        ensures
            old(self)@.same_frame(final(self)@),
            agrees(r, final(self)@, world_entry_at(old(self)@)),
        decreases rest(old(self)@), 4int,
    {
        let world = self.parse_record()?;
        let world_children = self.parse_world_children()?;
        Ok(WorldEntry { world, world_children })
    }

    /// Parses worlds until the cursor has reached `limit`.
    ///
    /// Nothing changes where the cursor has reached `limit` already. Else
    /// the loop runs one level deeper, and the depth is back where it was
    /// when the call returns, whether it failed or not.
    pub fn parse_world_entries_until(&mut self, limit: u64) -> (r: Result<Vec<WorldEntry>, Error>)
        ensures
            old(self)@.same_frame(final(self)@),
            match world_entries_until(old(self)@, limit as nat) {
                Ok((items, m)) => r matches Ok(v) && models(v@) == items && final(self)@ == m,
                Err(e) => r matches Err(x) && x == e,
            },
        decreases rest(old(self)@), 6int,
    {
        let mut out: Vec<WorldEntry> = Vec::new();
        proof {
            lemma_models_empty::<WorldEntry>();
        }
        if self.position() >= limit {
            return Ok(out);
        }
        if self.depth() == u64::MAX {
            return Err(Error::Unimplemented);
        }
        self.push();
        let ghost goal = world_entries_from(old(self)@.deeper(), limit as nat, Seq::empty());
        let mut failure: Option<Error> = None;
        while failure.is_none() && self.position() < limit
            invariant
                old(self)@.deeper().same_frame(self@),
                failure is None ==> rest(self@) <= rest(old(self)@),
                match failure {
                    None => world_entries_from(self@, limit as nat, models(out@)) == goal,
                    Some(e) => goal matches Err(x) && x == e,
                },
            decreases
                    if failure is None {
                        1 + rest(self@)
                    } else {
                        0
                    },
        {
            let ghost before = self@;
            proof {
                lemma_world_entry_advances(before);
            }
            match self.parse_world_entry() {
                Err(e) => {
                    failure = Some(e);
                },
                Ok(world) => {
                    proof {
                        lemma_models_push(out@, world);
                    }
                    out.push(world);
                },
            }
        }
        self.pop();
        match failure {
            None => Ok(out),
            Some(e) => Err(e),
        }
    }

    /// Parses one top-level group and what stands under it.
    pub fn parse_top_group(&mut self) -> (r: Result<TopGroup, Error>)
        ensures
            old(self)@.same_frame(final(self)@),
            agrees(r, final(self)@, top_group_at(old(self)@)),
    {
        let (header, end) = self.parse_group_header()?;
        match header.get_label() {
            GroupLabel::Top(tag) => {
                if tag.flat_group() {
                    Ok(TopGroup::Unhandled(self.parse_until(end, &Records)?))
                } else if tag.code == CELL {
                    Ok(TopGroup::Cell(self.parse_groups_until(end)?))
                } else if tag.code == WRLD {
                    Ok(TopGroup::Worldspace(self.parse_world_entries_until(end)?))
                } else {
                    self.seek(end);
                    Ok(TopGroup::Skipped)
                }
            },
            _ => Err(Error::UnexpectedChunkShape),
        }
    }

    /// Parses a whole file from the start of the buffer: the file's header
    /// record, then top-level groups to the end of the buffer.
    pub fn parse_top_level(&mut self) -> (r: Result<(Record, Vec<TopGroup>), Error>)
        ensures
            old(self)@.same_frame(final(self)@),
            match file_at(old(self)@) {
                Ok(((header, groups), m)) => r matches Ok(file) && file.0@ == header && models(
                    file.1@,
                ) == groups && final(self)@ == m,
                Err(e) => r matches Err(x) && x == e,
            },
    {
        let total_size = self.len() as u64;
        self.seek(0);
        let header = self.parse_record()?;
        let groups = self.parse_until(total_size, &TopGroups)?;
        Ok((header, groups))
    }

    /// Quest entries are not supported: fails, and reads nothing.
    pub fn parse_qust(&mut self) -> (r: Result<Quest, Error>)
        ensures
            final(self)@ == old(self)@,
            r matches Err(e) && e == Error::Unimplemented,
    {
        Err(Error::Unimplemented)
    }
}

} // verus!
