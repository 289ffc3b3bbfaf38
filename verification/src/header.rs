//! Chunk headers: the three shapes, the type tags and the label of a group.

use vstd::prelude::*;
use crate::layout::{le_u16, le_u32, u16_at, u32_at, FixedLayout};

verus! {

/// The number of bytes of a record header and of a group header.
pub const HEADER_SIZE: u64 = 24;

/// A four-character type tag, held as the little-endian integer of its four
/// bytes: the first character is the lowest byte.
#[derive(Clone, Copy, Debug, PartialEq, Eq, Structural)]
pub struct TypeId {
    pub code: u32,
}

/// The tag of every group header.
pub const GRUP: u32 = 0x5055_5247;

/// The tag of world records, and of the top group that holds them.
pub const WRLD: u32 = 0x444c_5257;

/// The tag of cell records, and of the top group that holds them.
pub const CELL: u32 = 0x4c4c_4543;

/// The tag of dialog records, and of the top group that holds them.
pub const DIAL: u32 = 0x4c41_4944;

/// The tags of the records that may stand in the persistent and temporary
/// children of a cell: REFR, ACHR, PHZD, LAND, NAVM, PGRE, PMIS.
pub const CELL_CHILD_TAGS: [u32; 7] = [
    0x5246_4552,
    0x5248_4341,
    0x445a_4850,
    0x444e_414c,
    0x4d56_414e,
    0x4552_4750,
    0x5349_4d50,
];

/// The tags of the top groups that are a flat list of records, each with
/// its four characters beside it.
pub const FLAT_GROUP_TAGS: [u32; 123] = [
    0x5443_4141, // A A C T
    0x4954_4341, // A C T I
    0x4e44_4441, // A D D N
    0x4843_4541, // A E C H
    0x4843_4c41, // A L C H
    0x4c44_4d41, // A M D L
    0x4f4d_4d41, // A M M O
    0x4f49_4e41, // A N I O
    0x5552_4f41, // A O R U
    0x414d_5241, // A R M A
    0x4f4d_5241, // A R M O
    0x4f54_5241, // A R T O
    0x4350_5341, // A S P C
    0x5054_5341, // A S T P
    0x4649_5641, // A V I F
    0x5344_4e42, // B N D S
    0x4b4f_4f42, // B O O K
    0x4454_5042, // B P T D
    0x534d_4143, // C A M S
    0x5341_4c43, // C L A S
    0x4d46_4c43, // C L F M
    0x544d_4c43, // C L M T
    0x4f50_4d43, // C M P O
    0x4a42_4f43, // C O B J
    0x4c4c_4f43, // C O L L
    0x544e_4f43, // C O N T
    0x4854_5043, // C P T H
    0x5954_5343, // C S T Y
    0x5242_4544, // D E B R
    0x424f_4644, // D F O B
    0x5756_4c44, // D L V W
    0x5447_4d44, // D M G T
    0x4a42_4f44, // D O B J
    0x524f_4f44, // D O O R
    0x4e5a_4345, // E C Z N
    0x4853_4645, // E F S H
    0x4843_4e45, // E N C H
    0x5055_5145, // E Q U P
    0x4c50_5845, // E X P L
    0x5443_4146, // F A C T
    0x524f_4c46, // F L O R
    0x5453_4c46, // F L S T
    0x5054_5346, // F S T P
    0x5354_5346, // F S T S
    0x4e52_5546, // F U R N
    0x5952_4447, // G D R Y
    0x424f_4c47, // G L O B
    0x5453_4d47, // G M S T
    0x5341_5247, // G R A S
    0x445a_4148, // H A Z D
    0x5450_4448, // H D P T
    0x454c_4449, // I D L E
    0x4d4c_4449, // I D L M
    0x4441_4d49, // I M A D
    0x5347_4d49, // I M G S
    0x5247_4e49, // I N G R
    0x524e_4e49, // I N N R
    0x5443_5049, // I P C T
    0x5344_5049, // I P D S
    0x4d59_454b, // K E Y M
    0x4d53_534b, // K S S M
    0x4457_594b, // K Y W D
    0x5259_414c, // L A Y R
    0x5452_434c, // L C R T
    0x4e54_434c, // L C T N
    0x534e_454c, // L E N S
    0x4d54_474c, // L G T M
    0x4847_494c, // L I G H
    0x5243_534c, // L S C R
    0x5845_544c, // L T E X
    0x494c_564c, // L V L I
    0x4e4c_564c, // L V L N
    0x4f54_414d, // M A T O
    0x5454_414d, // M A T T
    0x4753_454d, // M E S G
    0x4645_474d, // M G E F
    0x4353_494d, // M I S C
    0x5456_4f4d, // M O V T
    0x5454_534d, // M S T T
    0x5057_534d, // M S W P
    0x4353_554d, // M U S C
    0x5453_554d, // M U S T
    0x4956_414e, // N A V I
    0x4d43_4f4e, // N O C M
    0x4554_4f4e, // N O T E
    0x5f43_504e, // N P C _
    0x444f_4d4f, // O M O D
    0x5446_544f, // O T F T
    0x5349_564f, // O V I S
    0x4b43_4150, // P A C K
    0x4b52_4550, // P E R K
    0x4e49_4b50, // P K I N
    0x4a4f_5250, // P R O J
    0x4543_4152, // R A C E
    0x4e47_4552, // R E G N
    0x414c_4552, // R E L A
    0x4256_4552, // R E V B
    0x5443_4652, // R F C T
    0x5047_4652, // R F G P
    0x4f43_4353, // S C C O
    0x4c4f_4353, // S C O L
    0x4e53_4353, // S C S N
    0x4e42_4d53, // S M B N
    0x4e45_4d53, // S M E N
    0x4e51_4d53, // S M Q N
    0x5443_4e53, // S N C T
    0x5244_4e53, // S N D R
    0x4d50_4f53, // S O P M
    0x4e55_4f53, // S O U N
    0x4c45_5053, // S P E L
    0x4447_5053, // S P G D
    0x4741_5453, // S T A G
    0x5441_5453, // S T A T
    0x5443_4154, // T A C T
    0x4d52_4554, // T E R M
    0x4545_5254, // T R E E
    0x534e_5254, // T R N S
    0x5453_5854, // T X S T
    0x5059_5456, // V T Y P
    0x5254_4157, // W A T R
    0x5041_4557, // W E A P
    0x5248_5457, // W T H R
    0x4d4f_4f5a, // Z O O M
];

/// Whether `code` occurs among the first `n` entries of `tags`.
fn tag_among(tags: &[u32], code: u32) -> (r: bool)
    ensures
        r == tags@.contains(code),
{
    let mut i: usize = 0;
    while i < tags.len()
        invariant
            i <= tags@.len(),
            forall|j: int| 0 <= j < i ==> tags@[j] != code,
        decreases tags@.len() - i,
    {
        if tags[i] == code {
            return true;
        }
        i = i + 1;
    }
    false
}

impl TypeId {
    /// The tag made of four bytes, first character first.
    pub fn from_bytes(bytes: [u8; 4]) -> (tag: TypeId)
        ensures
            tag.code == le_u32(bytes@, 0),
    {
        let low: u16 = bytes[0] as u16 + bytes[1] as u16 * 0x100;
        let high: u16 = bytes[2] as u16 + bytes[3] as u16 * 0x100;
        TypeId { code: low as u32 + high as u32 * 0x1_0000 }
    }

    /// The `i`-th character of the tag, `i` from 0 to 3.
    pub open spec fn byte(self, i: int) -> u8 {
        if i == 0 {
            (self.code % 0x100) as u8
        } else if i == 1 {
            (self.code / 0x100 % 0x100) as u8
        } else if i == 2 {
            (self.code / 0x1_0000 % 0x100) as u8
        } else {
            (self.code / 0x100_0000) as u8
        }
    }

    /// The four bytes of the tag, first character first.
    pub fn to_bytes(self) -> (bytes: [u8; 4])
        ensures
            forall|i: int| 0 <= i < 4 ==> bytes@[i] == self.byte(i),
            le_u32(bytes@, 0) == self.code,
    {
        let c = self.code;
        [
            (c % 0x100) as u8,
            (c / 0x100 % 0x100) as u8,
            (c / 0x1_0000 % 0x100) as u8,
            (c / 0x100_0000) as u8,
        ]
    }

    /// Whether this is the tag of a group header.
    pub open spec fn is_group(self) -> bool {
        self.code == GRUP
    }

    /// Whether a top group with this tag is a flat list of records.
    pub open spec fn is_flat_group(self) -> bool {
        FLAT_GROUP_TAGS@.contains(self.code)
    }

    /// Whether a record with this tag may stand among a cell's children.
    pub open spec fn is_cell_child(self) -> bool {
        CELL_CHILD_TAGS@.contains(self.code)
    }

    /// Whether a top group with this tag is a flat list of records.
    pub fn flat_group(self) -> (r: bool)
        ensures
            r == self.is_flat_group(),
    {
        tag_among(FLAT_GROUP_TAGS.as_slice(), self.code)
    }

    /// Whether a record with this tag may stand among a cell's children.
    pub fn cell_child(self) -> (r: bool)
        ensures
            r == self.is_cell_child(),
    {
        tag_among(CELL_CHILD_TAGS.as_slice(), self.code)
    }
}

/// The flag bit of a record whose field data is deflate-compressed.
pub const FLAG_COMPRESSED: u32 = 0x0004_0000;

/// The flag bit, in the file header record, of a master file.
pub const FLAG_MASTER: u32 = 0x0000_0001;

/// The flag bit of a deleted record.
pub const FLAG_DELETED: u32 = 0x0000_0020;

/// The flag bit, in the file header record, of a file with localised strings.
pub const FLAG_LOCALISED: u32 = 0x0000_0080;

/// The flag bit, in the file header record, of a light master file.
pub const FLAG_LIGHT_MASTER: u32 = 0x0000_0200;

/// The header of a record: 24 bytes. `size` counts the bytes of the content
/// and leaves the header out.
#[derive(Clone, Copy, Debug, PartialEq, Eq, Structural)]
pub struct RecordHeader {
    pub type_id: TypeId,
    pub size: u32,
    pub flags: u32,
    pub id: u32,
    pub revision: u32,
    pub version: u16,
    pub unknown: u16,
}

/// The header of a group: 24 bytes, tagged GRUP. As stored, `size` counts
/// the header too. What `label` means depends on `group_type`.
#[derive(Clone, Copy, Debug, PartialEq, Eq, Structural)]
pub struct GroupHeader {
    pub type_id: TypeId,
    pub size: u32,
    pub label: u32,
    pub group_type: u32,
    pub stamp: u32,
    pub version: u16,
    pub unknown: u16,
}

/// The header of a field: 6 bytes. `size` counts the bytes of the content.
#[derive(Clone, Copy, Debug, PartialEq, Eq, Structural)]
pub struct FieldHeader {
    pub type_id: TypeId,
    pub size: u16,
}

impl FixedLayout for RecordHeader {
    open spec fn layout_size() -> nat {
        24
    }

    open spec fn decode(bytes: Seq<u8>) -> RecordHeader {
        RecordHeader {
            type_id: TypeId { code: le_u32(bytes, 0) },
            size: le_u32(bytes, 4),
            flags: le_u32(bytes, 8),
            id: le_u32(bytes, 12),
            revision: le_u32(bytes, 16),
            version: le_u16(bytes, 20),
            unknown: le_u16(bytes, 22),
        }
    }

    fn size() -> (n: usize) {
        24
    }

    fn from_bytes(bytes: &[u8]) -> (v: RecordHeader) {
        RecordHeader {
            type_id: TypeId { code: u32_at(bytes, 0) },
            size: u32_at(bytes, 4),
            flags: u32_at(bytes, 8),
            id: u32_at(bytes, 12),
            revision: u32_at(bytes, 16),
            version: u16_at(bytes, 20),
            unknown: u16_at(bytes, 22),
        }
    }
}

impl FixedLayout for GroupHeader {
    open spec fn layout_size() -> nat {
        24
    }

    open spec fn decode(bytes: Seq<u8>) -> GroupHeader {
        GroupHeader {
            type_id: TypeId { code: le_u32(bytes, 0) },
            size: le_u32(bytes, 4),
            label: le_u32(bytes, 8),
            group_type: le_u32(bytes, 12),
            stamp: le_u32(bytes, 16),
            version: le_u16(bytes, 20),
            unknown: le_u16(bytes, 22),
        }
    }

    fn size() -> (n: usize) {
        24
    }

    fn from_bytes(bytes: &[u8]) -> (v: GroupHeader) {
        GroupHeader {
            type_id: TypeId { code: u32_at(bytes, 0) },
            size: u32_at(bytes, 4),
            label: u32_at(bytes, 8),
            group_type: u32_at(bytes, 12),
            stamp: u32_at(bytes, 16),
            version: u16_at(bytes, 20),
            unknown: u16_at(bytes, 22),
        }
    }
}

impl FixedLayout for FieldHeader {
    open spec fn layout_size() -> nat {
        6
    }

    open spec fn decode(bytes: Seq<u8>) -> FieldHeader {
        FieldHeader { type_id: TypeId { code: le_u32(bytes, 0) }, size: le_u16(bytes, 4) }
    }

    fn size() -> (n: usize) {
        6
    }

    fn from_bytes(bytes: &[u8]) -> (v: FieldHeader) {
        FieldHeader { type_id: TypeId { code: u32_at(bytes, 0) }, size: u16_at(bytes, 4) }
    }
}

impl RecordHeader {
    /// Whether the 24 bytes are in truth the header of a group.
    pub open spec fn is_group(self) -> bool {
        self.type_id.is_group()
    }

    /// Whether the field data is deflate-compressed.
    pub open spec fn is_compressed(self) -> bool {
        self.flags & FLAG_COMPRESSED != 0
    }

    /// The same 24 bytes read as the header of a group.
    pub open spec fn as_group(self) -> GroupHeader {
        GroupHeader {
            type_id: self.type_id,
            size: self.size,
            label: self.flags,
            group_type: self.id,
            stamp: self.revision,
            version: self.version,
            unknown: self.unknown,
        }
    }

    /// Whether the 24 bytes are in truth the header of a group.
    pub fn group(&self) -> (r: bool)
        ensures
            r == self.is_group(),
    {
        self.type_id.code == GRUP
    }

    /// Whether the field data is deflate-compressed.
    pub fn compressed(&self) -> (r: bool)
        ensures
            r == self.is_compressed(),
    {
        self.flags & FLAG_COMPRESSED != 0
    }

    /// Whether the record is marked deleted.
    pub fn deleted(&self) -> (r: bool)
        ensures
            r == (self.flags & FLAG_DELETED != 0),
    {
        self.flags & FLAG_DELETED != 0
    }

    /// Whether, as the file header record, it marks a master file.
    pub fn master(&self) -> (r: bool)
        ensures
            r == (self.flags & FLAG_MASTER != 0),
    {
        self.flags & FLAG_MASTER != 0
    }

    /// Whether, as the file header record, it marks a light master file.
    pub fn light_master(&self) -> (r: bool)
        ensures
            r == (self.flags & FLAG_LIGHT_MASTER != 0),
    {
        self.flags & FLAG_LIGHT_MASTER != 0
    }

    /// Whether, as the file header record, it marks localised strings.
    pub fn localised(&self) -> (r: bool)
        ensures
            r == (self.flags & FLAG_LOCALISED != 0),
    {
        self.flags & FLAG_LOCALISED != 0
    }

    /// The same 24 bytes read as the header of a group.
    pub fn to_group(&self) -> (g: GroupHeader)
        ensures
            g == self.as_group(),
    {
        GroupHeader {
            type_id: self.type_id,
            size: self.size,
            label: self.flags,
            group_type: self.id,
            stamp: self.revision,
            version: self.version,
            unknown: self.unknown,
        }
    }
}

/// A record header and a group header are two readings of the same bytes.
pub proof fn lemma_group_reading(bytes: Seq<u8>)
    ensures
        GroupHeader::decode(bytes) == RecordHeader::decode(bytes).as_group(),
{
}

/// The value of `group_type` in a top-level group.
pub const GROUP_TOP: u32 = 0;

/// The value of `group_type` in the children of a world.
pub const GROUP_WORLD_CHILDREN: u32 = 1;

/// The value of `group_type` in a block of interior cells.
pub const GROUP_INTERIOR_CELL_BLOCK: u32 = 2;

/// The value of `group_type` in a sub-block of interior cells.
pub const GROUP_INTERIOR_CELL_SUB_BLOCK: u32 = 3;

/// The value of `group_type` in a block of exterior cells.
pub const GROUP_EXTERIOR_CELL_BLOCK: u32 = 4;

/// The value of `group_type` in a sub-block of exterior cells.
pub const GROUP_EXTERIOR_CELL_SUB_BLOCK: u32 = 5;

/// The value of `group_type` in the children of a cell.
pub const GROUP_CELL_CHILDREN: u32 = 6;

/// The value of `group_type` in the children of a dialog topic.
pub const GROUP_TOPIC_CHILDREN: u32 = 7;

/// The value of `group_type` in the persistent children of a cell.
pub const GROUP_CELL_PERSISTENT_CHILDREN: u32 = 8;

/// The value of `group_type` in the temporary children of a cell.
pub const GROUP_CELL_TEMPORARY_CHILDREN: u32 = 9;

/// The value of `group_type` in the visible distant children of a cell.
pub const GROUP_CELL_VISIBLE_DISTANT_CHILDREN: u32 = 10;

/// What the label of a group says, by the group's type.
#[derive(Clone, Copy, Debug, PartialEq, Eq, Structural)]
pub enum GroupLabel {
    /// A top-level group of records of one type.
    Top(TypeId),
    /// The children of the world with this form id.
    WorldChildren(u32),
    /// A block of interior cells, by its number.
    InteriorCellBlock(i32),
    /// A sub-block of interior cells, by its number.
    InteriorCellSubBlock(i32),
    /// A block of exterior cells, at grid position x, y.
    ExteriorCellBlock(i16, i16),
    /// A sub-block of exterior cells, at grid position x, y.
    ExteriorCellSubBlock(i16, i16),
    /// The children of the cell with this form id.
    CellChildren(u32),
    /// The children of the dialog topic with this form id.
    TopicChildren(u32),
    /// The persistent children of the cell with this form id.
    CellPersistentChildren(u32),
    /// The temporary children of the cell with this form id.
    CellTemporaryChildren(u32),
    /// The visible distant children of the cell with this form id.
    CellVisibleDistantChildren(u32),
    /// A group of a type that is not known, with its label as stored.
    Unknown(u32),
}

/// The signed reading of 16 bits.
pub open spec fn signed16(v: u16) -> i16 {
    if v < 0x8000 {
        v as i16
    } else {
        (v - 0x1_0000) as i16
    }
}

/// The signed reading of 32 bits.
pub open spec fn signed32(v: u32) -> i32 {
    if v < 0x8000_0000 {
        v as i32
    } else {
        (v - 0x1_0000_0000) as i32
    }
}

/// The signed reading of 16 bits.
pub fn to_signed16(v: u16) -> (r: i16)
    ensures
        r == signed16(v),
{
    if v < 0x8000 {
        v as i16
    } else {
        (v as i32 - 0x1_0000) as i16
    }
}

/// The signed reading of 32 bits.
pub fn to_signed32(v: u32) -> (r: i32)
    ensures
        r == signed32(v),
{
    if v < 0x8000_0000 {
        v as i32
    } else {
        (v as i64 - 0x1_0000_0000) as i32
    }
}

impl GroupHeader {
    /// The first grid coordinate of the label: its low 16 bits, signed.
    pub open spec fn grid_x(self) -> i16 {
        signed16((self.label % 0x1_0000) as u16)
    }

    /// The second grid coordinate of the label: its high 16 bits, signed.
    pub open spec fn grid_y(self) -> i16 {
        signed16((self.label / 0x1_0000) as u16)
    }

    /// What the label says. A group type outside 0 to 10 gives `Unknown`,
    /// whatever the label holds.
    pub open spec fn label_of(self) -> GroupLabel {
        if self.group_type == GROUP_TOP {
            GroupLabel::Top(TypeId { code: self.label })
        } else if self.group_type == GROUP_WORLD_CHILDREN {
            GroupLabel::WorldChildren(self.label)
        } else if self.group_type == GROUP_INTERIOR_CELL_BLOCK {
            GroupLabel::InteriorCellBlock(signed32(self.label))
        } else if self.group_type == GROUP_INTERIOR_CELL_SUB_BLOCK {
            GroupLabel::InteriorCellSubBlock(signed32(self.label))
        } else if self.group_type == GROUP_EXTERIOR_CELL_BLOCK {
            GroupLabel::ExteriorCellBlock(self.grid_x(), self.grid_y())
        } else if self.group_type == GROUP_EXTERIOR_CELL_SUB_BLOCK {
            GroupLabel::ExteriorCellSubBlock(self.grid_x(), self.grid_y())
        } else if self.group_type == GROUP_CELL_CHILDREN {
            GroupLabel::CellChildren(self.label)
        } else if self.group_type == GROUP_TOPIC_CHILDREN {
            GroupLabel::TopicChildren(self.label)
        } else if self.group_type == GROUP_CELL_PERSISTENT_CHILDREN {
            GroupLabel::CellPersistentChildren(self.label)
        } else if self.group_type == GROUP_CELL_TEMPORARY_CHILDREN {
            GroupLabel::CellTemporaryChildren(self.label)
        } else if self.group_type == GROUP_CELL_VISIBLE_DISTANT_CHILDREN {
            GroupLabel::CellVisibleDistantChildren(self.label)
        } else {
            GroupLabel::Unknown(self.label)
        }
    }

    /// Whether the header is tagged as a group.
    pub open spec fn is_group(self) -> bool {
        self.type_id.is_group()
    }

    /// How many bytes of content follow the header, where the declared
    /// size covers the header at all.
    pub open spec fn content_size(self) -> Option<nat> {
        if self.size >= HEADER_SIZE {
            Some((self.size - HEADER_SIZE) as nat)
        } else {
            None
        }
    }

    /// Whether the header is tagged as a group.
    pub fn group(&self) -> (r: bool)
        ensures
            r == self.is_group(),
    {
        self.type_id.code == GRUP
    }

    /// Classifies the label by the group's type. Total: no value of
    /// `group_type` is refused.
    pub fn get_label(&self) -> (label: GroupLabel)
        ensures
            label == self.label_of(),
    {
        let x = to_signed16((self.label % 0x1_0000) as u16);
        let y = to_signed16((self.label / 0x1_0000) as u16);
        match self.group_type {
            0 => GroupLabel::Top(TypeId { code: self.label }),
            1 => GroupLabel::WorldChildren(self.label),
            2 => GroupLabel::InteriorCellBlock(to_signed32(self.label)),
            3 => GroupLabel::InteriorCellSubBlock(to_signed32(self.label)),
            4 => GroupLabel::ExteriorCellBlock(x, y),
            5 => GroupLabel::ExteriorCellSubBlock(x, y),
            6 => GroupLabel::CellChildren(self.label),
            7 => GroupLabel::TopicChildren(self.label),
            8 => GroupLabel::CellPersistentChildren(self.label),
            9 => GroupLabel::CellTemporaryChildren(self.label),
            10 => GroupLabel::CellVisibleDistantChildren(self.label),
            _ => GroupLabel::Unknown(self.label),
        }
    }

    /// How many bytes of content follow the header: the declared size less
    /// the header. `None` where the declared size is smaller than the
    /// header.
    pub fn content_len(&self) -> (n: Option<u32>)
        ensures
            match n {
                Some(n) => self.content_size() == Some(n as nat),
                None => self.content_size() is None,
            },
    {
        if self.size >= 24 {
            Some(self.size - 24)
        } else {
            None
        }
    }
}

} // verus!
