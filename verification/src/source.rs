//! The source representation: the typed constructs a decoding component
//! hands over after parsing a binary module, as far as this bridge reads
//! them. Every field is a plain value copied out of the decoder's output.

use vstd::prelude::*;

verus! {

/// The category of referenced data a reference type points to: a reference
/// to a type-section entry by numeric index, or one of a closed set of
/// built-in heap kinds.
#[derive(Clone, Copy, Debug, PartialEq, Eq)]
pub enum HeapType {
    /// A concrete type, referred to by its index in the type section.
    Indexed(u32),
    /// The untyped function heap kind.
    Func,
    /// The opaque external heap kind.
    Extern,
    /// The common supertype of all internal references.
    Any,
    /// The common subtype of all internal references.
    NoneRef,
    /// The common subtype of all external references.
    NoExtern,
    /// The common subtype of all function references.
    NoFunc,
    /// The supertype of all references that admit equality comparison.
    EqRef,
    /// The common supertype of all struct references.
    Struct,
    /// The common supertype of all array references.
    Array,
    /// The unboxed 31-bit integer heap kind.
    I31,
}

/// A reference type: a heap type together with a nullability flag.
#[derive(Clone, Copy, Debug, PartialEq, Eq)]
pub struct RefType {
    /// Whether the null reference inhabits this type.
    pub nullable: bool,
    /// The heap type the reference points into.
    pub heap_type: HeapType,
}

/// The type of a single value: one of the fixed numeric or vector kinds,
/// or a reference type.
#[derive(Clone, Copy, Debug, PartialEq, Eq)]
pub enum ValType {
    /// A 32-bit integer.
    I32,
    /// A 64-bit integer.
    I64,
    /// A 32-bit floating-point number (a tag only; no such value is held here).
    F32,
    /// A 64-bit floating-point number (a tag only; no such value is held here).
    F64,
    /// A 128-bit vector.
    V128,
    /// A reference.
    Ref(RefType),
}

/// The type of a structured control block.
#[derive(Clone, Copy, Debug, PartialEq, Eq)]
pub enum BlockType {
    /// The block neither consumes nor produces values.
    Empty,
    /// The block produces a single value of the given type.
    Type(ValType),
    /// The block's signature is a function type, referred to by its index
    /// in the type section.
    FuncType(u32),
}

/// A table's type: its element type and its size limits, in elements.
#[derive(Clone, Copy, Debug, PartialEq, Eq)]
pub struct TableType {
    /// The type of the table's elements.
    pub element_type: RefType,
    /// The table's initial size.
    pub initial: u64,
    /// The table's maximum size, if one is declared.
    pub maximum: Option<u64>,
}

/// A linear memory's type: its size limits, in pages, and its flags.
#[derive(Clone, Copy, Debug, PartialEq, Eq)]
pub struct MemoryType {
    /// Whether the memory is indexed by 64-bit addresses.
    pub memory64: bool,
    /// Whether the memory may be shared between threads.
    pub shared: bool,
    /// The memory's initial size.
    pub initial: u64,
    /// The memory's maximum size, if one is declared.
    pub maximum: Option<u64>,
}

/// A global variable's type.
#[derive(Clone, Copy, Debug, PartialEq, Eq)]
pub struct GlobalType {
    /// The type of the global's content.
    pub content_type: ValType,
    /// Whether the global may be assigned after instantiation.
    pub mutable: bool,
}

/// The kind of a tag. The format revision supported here knows exactly one.
#[derive(Clone, Copy, Debug, PartialEq, Eq)]
pub enum TagKind {
    /// The tag describes an exception.
    Exception,
}

/// An exception tag's type.
#[derive(Clone, Copy, Debug, PartialEq, Eq)]
pub struct TagType {
    /// The kind of the tag.
    pub kind: TagKind,
    /// The index of the function type the tag uses.
    pub func_type_idx: u32,
}

/// The type of an importable item, as the decoder reports it.
#[derive(Clone, Copy, Debug, PartialEq, Eq)]
pub enum TypeRef {
    /// A function, referred to by the index of its type.
    Func(u32),
    /// A table.
    Table(TableType),
    /// A linear memory.
    Memory(MemoryType),
    /// A global variable.
    Global(GlobalType),
    /// An exception tag.
    Tag(TagType),
}

/// The kind of an exported item, carrying no payload.
#[derive(Clone, Copy, Debug, PartialEq, Eq)]
pub enum ExternalKind {
    /// The export is a function.
    Func,
    /// The export is a table.
    Table,
    /// The export is a memory.
    Memory,
    /// The export is a global.
    Global,
    /// The export is a tag.
    Tag,
}

/// An already-encoded constant expression, exactly as the decoder's cursor
/// holds it: the encoded instruction sequence followed by its one-byte
/// terminator instruction.
#[derive(Clone, Debug, PartialEq, Eq)]
pub struct ConstExpr {
    /// The encoded bytes, terminator included.
    pub bytes: Vec<u8>,
}

impl ConstExpr {
    /// A well-formed constant expression ends in its one-byte terminator,
    /// so it holds at least one byte.
    pub open spec fn well_formed(&self) -> bool {
        self.bytes@.len() >= 1
    }
}

/// The operand bundle of a memory-access instruction. The alignment is the
/// base-2 logarithm of the byte alignment, held in a narrow field.
#[derive(Clone, Copy, Debug, PartialEq, Eq)]
pub struct MemArg {
    /// The base-2 logarithm of the access's byte alignment.
    pub align: u8,
    /// The static byte offset added to the address operand.
    pub offset: u64,
    /// The index of the memory the access refers to.
    pub memory: u32,
}

} // verus!
