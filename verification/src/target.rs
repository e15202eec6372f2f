//! The target representation: the typed constructs the re-encoding
//! component accepts for serialization. It is defined independently of the
//! source representation, so the two may diverge over time; the bridge maps
//! each source construct onto exactly one construct of this module.

use vstd::prelude::*;

verus! {

/// The category of referenced data a reference type points to, in the shape
/// the encoding side accepts.
#[derive(Clone, Copy, Debug, PartialEq, Eq)]
pub enum HeapType {
    /// A concrete type, referred to by its index in the type section.
    Indexed(u32),
    /// The untyped function heap kind.
    Func,
    /// The opaque external heap kind.
    Extern,
    /// The common supertype of all internal references.
    Any,
    /// The common subtype of all internal references.
    NoneRef,
    /// The common subtype of all external references.
    NoExtern,
    /// The common subtype of all function references.
    NoFunc,
    /// The supertype of all references that admit equality comparison.
    EqRef,
    /// The common supertype of all struct references.
    Struct,
    /// The common supertype of all array references.
    Array,
    /// The unboxed 31-bit integer heap kind.
    I31,
}

/// A reference type, as the encoding side accepts it.
#[derive(Clone, Copy, Debug, PartialEq, Eq)]
pub struct RefType {
    /// Whether the null reference inhabits this type.
    pub nullable: bool,
    /// The heap type the reference points into.
    pub heap_type: HeapType,
}

/// The type of a single value, as the encoding side accepts it.
#[derive(Clone, Copy, Debug, PartialEq, Eq)]
pub enum ValType {
    /// A 32-bit integer.
    I32,
    /// A 64-bit integer.
    I64,
    /// A 32-bit floating-point number (a tag only; no such value is held here).
    F32,
    /// A 64-bit floating-point number (a tag only; no such value is held here).
    F64,
    /// A 128-bit vector.
    V128,
    /// A reference.
    Ref(RefType),
}

/// The type of a structured control block, as the encoding side accepts it.
#[derive(Clone, Copy, Debug, PartialEq, Eq)]
pub enum BlockType {
    /// The block neither consumes nor produces values.
    Empty,
    /// The block produces a single value of the given type.
    ResultType(ValType),
    /// The block's signature is a function type, referred to by its index
    /// in the type section. The encoding side resolves the index against
    /// its own type section; no structural re-derivation happens here.
    FunctionType(u32),
}

/// A table's type, as the encoding side accepts it.
#[derive(Clone, Copy, Debug, PartialEq, Eq)]
pub struct TableType {
    /// The type of the table's elements.
    pub element_type: RefType,
    /// The table's minimum size.
    pub minimum: u64,
    /// The table's maximum size, if one is declared.
    pub maximum: Option<u64>,
}

/// A linear memory's type, as the encoding side accepts it.
#[derive(Clone, Copy, Debug, PartialEq, Eq)]
pub struct MemoryType {
    /// The memory's minimum size.
    pub minimum: u64,
    /// The memory's maximum size, if one is declared.
    pub maximum: Option<u64>,
    /// Whether the memory is indexed by 64-bit addresses.
    pub memory64: bool,
    /// Whether the memory may be shared between threads.
    pub shared: bool,
}

/// A global variable's type, as the encoding side accepts it.
#[derive(Clone, Copy, Debug, PartialEq, Eq)]
pub struct GlobalType {
    /// The type of the global's value.
    pub val_type: ValType,
    /// Whether the global may be assigned after instantiation.
    pub mutable: bool,
}

/// The kind of a tag, as the encoding side accepts it.
#[derive(Clone, Copy, Debug, PartialEq, Eq)]
pub enum TagKind {
    /// The tag describes an exception.
    Exception,
}

/// An exception tag's type, as the encoding side accepts it.
#[derive(Clone, Copy, Debug, PartialEq, Eq)]
pub struct TagType {
    /// The kind of the tag.
    pub kind: TagKind,
    /// The index of the function type the tag uses.
    pub func_type_idx: u32,
}

/// The type of an importable item, as the encoding side accepts it.
#[derive(Clone, Copy, Debug, PartialEq, Eq)]
pub enum EntityType {
    /// A function, referred to by the index of its type.
    Function(u32),
    /// A table.
    Table(TableType),
    /// A linear memory.
    Memory(MemoryType),
    /// A global variable.
    Global(GlobalType),
    /// An exception tag.
    Tag(TagType),
}

/// The kind of an exported item, carrying no payload.
#[derive(Clone, Copy, Debug, PartialEq, Eq)]
pub enum ExportKind {
    /// The export is a function.
    Func,
    /// The export is a table.
    Table,
    /// The export is a memory.
    Memory,
    /// The export is a global.
    Global,
    /// The export is a tag.
    Tag,
}

/// A pre-assembled constant-expression body, accepted verbatim by the
/// encoding side, which appends its own terminator at serialization time.
#[derive(Clone, Debug, PartialEq, Eq)]
pub struct ConstExpr {
    /// The encoded bytes, without a terminator.
    pub bytes: Vec<u8>,
}

/// The operand bundle of a memory-access instruction, as the encoding side
/// accepts it. The alignment exponent is held in a wider field than the
/// source representation's.
#[derive(Clone, Copy, Debug, PartialEq, Eq)]
pub struct MemArg {
    /// The static byte offset added to the address operand.
    pub offset: u64,
    /// The base-2 logarithm of the access's byte alignment.
    pub align: u32,
    /// The index of the memory the access refers to.
    pub memory_index: u32,
}

} // verus!
