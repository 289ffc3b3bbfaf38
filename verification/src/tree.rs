//! The parse tree: what the parsing functions hand back, and the
//! mathematical model of each node.
//!
//! A node owns its children. Each type with a `Vec` inside has a model that
//! holds a `Seq` in its place; the plain ones are their own model.

use vstd::prelude::*;
use crate::header::{FieldHeader, GroupHeader, RecordHeader};

verus! {

/// The models of the elements of `s`, in order.
pub open spec fn models<T: View>(s: Seq<T>) -> Seq<T::V> {
    Seq::new(s.len(), |i: int| s[i]@)
}

/// The models of the elements of an optional vector.
pub open spec fn opt_models<T: View>(v: Option<Vec<T>>) -> Option<Seq<T::V>> {
    match v {
        Some(v) => Some(models(v@)),
        None => None,
    }
}

/// The models of a sequence with one more element are the models of the
/// sequence with the element's model added.
pub proof fn lemma_models_push<T: View>(s: Seq<T>, x: T)
    ensures
        models(s.push(x)) == models(s).push(x@),
{
    assert(models(s.push(x)) =~= models(s).push(x@));
}

/// The empty sequence has no models.
pub proof fn lemma_models_empty<T: View>()
    ensures
        models(Seq::<T>::empty()) == Seq::<T::V>::empty(),
{
    assert(models(Seq::<T>::empty()) =~= Seq::<T::V>::empty());
}

/// A field: its header. The content is left to the field's handler.
#[derive(Clone, Copy, Debug, PartialEq, Eq, Structural)]
pub struct Field {
    pub header: FieldHeader,
}

impl View for Field {
    type V = Field;

    open spec fn view(&self) -> Field {
        *self
    }
}

/// A group: its header, with `size` as stored.
#[derive(Clone, Copy, Debug, PartialEq, Eq, Structural)]
pub struct Group {
    pub header: GroupHeader,
}

impl View for Group {
    type V = Group;

    open spec fn view(&self) -> Group {
        *self
    }
}

/// A record: its header and the fields that were decoded.
#[derive(Debug)]
pub struct Record {
    pub header: RecordHeader,
    pub fields: Vec<Field>,
}

/// The model of a [`Record`].
pub struct RecordModel {
    pub header: RecordHeader,
    pub fields: Seq<Field>,
}

impl View for Record {
    type V = RecordModel;

    open spec fn view(&self) -> RecordModel {
        RecordModel { header: self.header, fields: self.fields@ }
    }
}

/// The persistent children of a cell, as a group.
#[derive(Clone, Copy, Debug, PartialEq, Eq, Structural)]
pub struct CellPersistentChildren {
    pub header: GroupHeader,
}

/// The temporary children of a cell, as a group.
#[derive(Clone, Copy, Debug, PartialEq, Eq, Structural)]
pub struct CellTemporaryChildren {
    pub header: GroupHeader,
}

/// The children of a cell: the records of its temporary and of its
/// persistent subgroup, each where the subgroup is there.
#[derive(Debug)]
pub struct CellChildren {
    pub parent_id: u32,
    pub temporary: Option<Vec<Record>>,
    pub persistant: Option<Vec<Record>>,
}

/// The model of a [`CellChildren`].
pub struct CellChildrenModel {
    pub parent_id: u32,
    pub temporary: Option<Seq<RecordModel>>,
    pub persistant: Option<Seq<RecordModel>>,
}

impl View for CellChildren {
    type V = CellChildrenModel;

    open spec fn view(&self) -> CellChildrenModel {
        CellChildrenModel {
            parent_id: self.parent_id,
            temporary: opt_models(self.temporary),
            persistant: opt_models(self.persistant),
        }
    }
}

/// A cell: its record and, where a group of children follows it, they.
#[derive(Debug)]
pub struct Cell {
    pub cell: Record,
    pub cell_children: Option<CellChildren>,
}

/// The model of a [`Cell`].
pub struct CellModel {
    pub cell: RecordModel,
    pub cell_children: Option<CellChildrenModel>,
}

impl View for Cell {
    type V = CellModel;

    open spec fn view(&self) -> CellModel {
        CellModel {
            cell: self.cell@,
            cell_children: match self.cell_children {
                Some(c) => Some(c@),
                None => None,
            },
        }
    }
}

/// A sub-block of exterior cells.
#[derive(Debug)]
pub struct ExteriorCellSubBlock {
    pub cells: Vec<Cell>,
}

/// The model of an [`ExteriorCellSubBlock`].
pub struct ExteriorCellSubBlockModel {
    pub cells: Seq<CellModel>,
}

impl View for ExteriorCellSubBlock {
    type V = ExteriorCellSubBlockModel;

    open spec fn view(&self) -> ExteriorCellSubBlockModel {
        ExteriorCellSubBlockModel { cells: models(self.cells@) }
    }
}

/// A block of exterior cells.
#[derive(Debug)]
pub struct ExteriorCellBlock {
    pub sub_blocks: Vec<ExteriorCellSubBlock>,
}

/// The model of an [`ExteriorCellBlock`].
pub struct ExteriorCellBlockModel {
    pub sub_blocks: Seq<ExteriorCellSubBlockModel>,
}

impl View for ExteriorCellBlock {
    type V = ExteriorCellBlockModel;

    open spec fn view(&self) -> ExteriorCellBlockModel {
        ExteriorCellBlockModel { sub_blocks: models(self.sub_blocks@) }
    }
}

/// The children of a world: the world's own cell, and the blocks of
/// exterior cells that are kept.
#[derive(Debug)]
pub struct WorldChildren {
    pub cell: Cell,
    pub blocks: Vec<ExteriorCellBlock>,
}

/// The model of a [`WorldChildren`].
pub struct WorldChildrenModel {
    pub cell: CellModel,
    pub blocks: Seq<ExteriorCellBlockModel>,
}

impl View for WorldChildren {
    type V = WorldChildrenModel;

    open spec fn view(&self) -> WorldChildrenModel {
        WorldChildrenModel { cell: self.cell@, blocks: models(self.blocks@) }
    }
}

/// A world: its record and its children.
#[derive(Debug)]
pub struct WorldEntry {
    pub world: Record,
    pub world_children: WorldChildren,
}

/// The model of a [`WorldEntry`].
pub struct WorldEntryModel {
    pub world: RecordModel,
    pub world_children: WorldChildrenModel,
}

impl View for WorldEntry {
    type V = WorldEntryModel;

    open spec fn view(&self) -> WorldEntryModel {
        WorldEntryModel { world: self.world@, world_children: self.world_children@ }
    }
}

/// A dialog topic: its record and, where one follows, the group of its
/// children.
#[derive(Debug)]
pub struct Dialog {
    pub dialog: Record,
    pub children: Option<Group>,
}

/// The model of a [`Dialog`].
pub struct DialogModel {
    pub dialog: RecordModel,
    pub children: Option<Group>,
}

impl View for Dialog {
    type V = DialogModel;

    open spec fn view(&self) -> DialogModel {
        DialogModel { dialog: self.dialog@, children: self.children }
    }
}

/// A quest: its record and, where one follows, the group of its children.
#[derive(Debug)]
pub struct Quest {
    pub quest: Record,
    pub children: Option<Group>,
}

/// The model of a [`Quest`].
pub struct QuestModel {
    pub quest: RecordModel,
    pub children: Option<Group>,
}

impl View for Quest {
    type V = QuestModel;

    open spec fn view(&self) -> QuestModel {
        QuestModel { quest: self.quest@, children: self.children }
    }
}

/// What a top-level group held.
#[derive(Debug)]
pub enum TopGroup {
    /// A flat list of records.
    Unhandled(Vec<Record>),
    /// The groups under the top group of cells.
    Cell(Vec<Group>),
    /// The worlds under the top group of worlds.
    Worldspace(Vec<WorldEntry>),
    /// A group that was passed over by its declared size.
    Skipped,
}

/// The model of a [`TopGroup`].
pub enum TopGroupModel {
    Unhandled(Seq<RecordModel>),
    Cell(Seq<Group>),
    Worldspace(Seq<WorldEntryModel>),
    Skipped,
}

impl View for TopGroup {
    type V = TopGroupModel;

    open spec fn view(&self) -> TopGroupModel {
        match self {
            TopGroup::Unhandled(records) => TopGroupModel::Unhandled(models(records@)),
            TopGroup::Cell(groups) => TopGroupModel::Cell(groups@),
            TopGroup::Worldspace(worlds) => TopGroupModel::Worldspace(models(worlds@)),
            TopGroup::Skipped => TopGroupModel::Skipped,
        }
    }
}

} // verus!
