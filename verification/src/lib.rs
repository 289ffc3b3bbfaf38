//! A parser for a hierarchical, length-prefixed container format: records,
//! groups and fields, each of which declares its own byte length.
//!
//! The parser walks a buffer by the declared sizes alone. Its loops hold
//! every handler to the size that its chunk declared, and its contracts say
//! for every buffer what is returned and where the cursor is left.

pub mod cursor;
pub mod dispatch;
pub mod engine;
pub mod error;
pub mod grammar;
pub mod handlers;
pub mod header;
pub mod inflate;
pub mod laws;
pub mod layout;
pub mod tree;

pub use cursor::{ESMParser2, ParserModel};
pub use engine::{FieldHandler, Producer, RecordHandler};
pub use error::Error;
pub use grammar::{CellChildRecords, Cells, Dialogs, Groups, Records, TopGroups, WorldEntries};
pub use handlers::{
    FieldList, KnownFields, RecordFields, RecordList, SkipFields, Trace, TraceEntry,
};
pub use header::{FieldHeader, GroupHeader, GroupLabel, RecordHeader, TypeId};
pub use layout::FixedLayout;
pub use tree::{
    Cell, CellChildren, CellPersistentChildren, CellTemporaryChildren, Dialog,
    ExteriorCellBlock, ExteriorCellSubBlock, Field, Group, Quest, Record, TopGroup,
    WorldChildren, WorldEntry,
};
