//! The conversion operations of the bridge, one per construct. Each
//! executable converter is total over its source construct and its result
//! is pinned exactly by a spec-level mapping function; composite converters
//! invoke the converters of their sub-constructs.

use vstd::prelude::*;

use crate::source;
use crate::target;

verus! {

/// The unique target heap type a source heap type maps to: the same kind,
/// and for an indexed heap type the same index.
pub open spec fn map_heap_type(h: source::HeapType) -> target::HeapType {
    match h {
        source::HeapType::Indexed(index) => target::HeapType::Indexed(index),
        source::HeapType::Func => target::HeapType::Func,
        source::HeapType::Extern => target::HeapType::Extern,
        source::HeapType::Any => target::HeapType::Any,
        source::HeapType::NoneRef => target::HeapType::NoneRef,
        source::HeapType::NoExtern => target::HeapType::NoExtern,
        source::HeapType::NoFunc => target::HeapType::NoFunc,
        source::HeapType::EqRef => target::HeapType::EqRef,
        source::HeapType::Struct => target::HeapType::Struct,
        source::HeapType::Array => target::HeapType::Array,
        source::HeapType::I31 => target::HeapType::I31,
    }
}

/// The unique target reference type a source reference type maps to: the
/// nullability flag unchanged, the heap type converted.
pub open spec fn map_ref_type(r: source::RefType) -> target::RefType {
    target::RefType { nullable: r.nullable, heap_type: map_heap_type(r.heap_type) }
}

/// The unique target value type a source value type maps to: the same
/// numeric or vector kind, or the converted reference type.
pub open spec fn map_val_type(v: source::ValType) -> target::ValType {
    match v {
        source::ValType::I32 => target::ValType::I32,
        source::ValType::I64 => target::ValType::I64,
        source::ValType::F32 => target::ValType::F32,
        source::ValType::F64 => target::ValType::F64,
        source::ValType::V128 => target::ValType::V128,
        source::ValType::Ref(r) => target::ValType::Ref(map_ref_type(r)),
    }
}

/// The unique target block type a source block type maps to. A function
/// type passes its index through unchanged.
pub open spec fn map_block_type(b: source::BlockType) -> target::BlockType {
    match b {
        source::BlockType::Empty => target::BlockType::Empty,
        source::BlockType::Type(v) => target::BlockType::ResultType(map_val_type(v)),
        source::BlockType::FuncType(index) => target::BlockType::FunctionType(index),
    }
}

/// The unique target table type a source table type maps to: the element
/// type converted, both size limits unchanged.
pub open spec fn map_table_type(t: source::TableType) -> target::TableType {
    target::TableType {
        element_type: map_ref_type(t.element_type),
        minimum: t.initial,
        maximum: t.maximum,
    }
}

/// The unique target memory type a source memory type maps to: both flags
/// and both size limits unchanged.
pub open spec fn map_memory_type(m: source::MemoryType) -> target::MemoryType {
    target::MemoryType {
        minimum: m.initial,
        maximum: m.maximum,
        memory64: m.memory64,
        shared: m.shared,
    }
}

/// The unique target global type a source global type maps to: the content
/// type converted, the mutability flag unchanged.
pub open spec fn map_global_type(g: source::GlobalType) -> target::GlobalType {
    target::GlobalType { val_type: map_val_type(g.content_type), mutable: g.mutable }
}

/// The unique target tag kind a source tag kind maps to.
pub open spec fn map_tag_kind(k: source::TagKind) -> target::TagKind {
    match k {
        source::TagKind::Exception => target::TagKind::Exception,
    }
}

/// The unique target tag type a source tag type maps to: the kind
/// converted, the function type index unchanged.
pub open spec fn map_tag_type(t: source::TagType) -> target::TagType {
    target::TagType { kind: map_tag_kind(t.kind), func_type_idx: t.func_type_idx }
}

/// The unique target entity type a source type reference maps to: a bare
/// function index passes through unchanged, and each of the other four
/// payloads is converted by the converter of its construct.
pub open spec fn map_entity_type(t: source::TypeRef) -> target::EntityType {
    match t {
        source::TypeRef::Func(index) => target::EntityType::Function(index),
        source::TypeRef::Table(ty) => target::EntityType::Table(map_table_type(ty)),
        source::TypeRef::Memory(ty) => target::EntityType::Memory(map_memory_type(ty)),
        source::TypeRef::Global(ty) => target::EntityType::Global(map_global_type(ty)),
        source::TypeRef::Tag(ty) => target::EntityType::Tag(map_tag_type(ty)),
    }
}

/// The unique target export kind a source external kind maps to.
pub open spec fn map_export_kind(k: source::ExternalKind) -> target::ExportKind {
    match k {
        source::ExternalKind::Func => target::ExportKind::Func,
        source::ExternalKind::Table => target::ExportKind::Table,
        source::ExternalKind::Memory => target::ExportKind::Memory,
        source::ExternalKind::Global => target::ExportKind::Global,
        source::ExternalKind::Tag => target::ExportKind::Tag,
    }
}

/// The unique target memory immediate a source memory immediate maps to:
/// the offset and the memory index unchanged, the alignment exponent
/// widened to the target's field width.
pub open spec fn map_mem_arg(m: source::MemArg) -> target::MemArg {
    target::MemArg { offset: m.offset, align: m.align as u32, memory_index: m.memory }
}

/// Converts a heap type.
pub fn convert_heap_type(h: source::HeapType) -> (r: target::HeapType)
    ensures
        r == map_heap_type(h),
{
    match h {
        source::HeapType::Indexed(index) => target::HeapType::Indexed(index),
        source::HeapType::Func => target::HeapType::Func,
        source::HeapType::Extern => target::HeapType::Extern,
        source::HeapType::Any => target::HeapType::Any,
        source::HeapType::NoneRef => target::HeapType::NoneRef,
        source::HeapType::NoExtern => target::HeapType::NoExtern,
        source::HeapType::NoFunc => target::HeapType::NoFunc,
        source::HeapType::EqRef => target::HeapType::EqRef,
        source::HeapType::Struct => target::HeapType::Struct,
        source::HeapType::Array => target::HeapType::Array,
        source::HeapType::I31 => target::HeapType::I31,
    }
}

/// Converts a reference type, converting its heap type.
pub fn convert_ref_type(r: source::RefType) -> (t: target::RefType)
    ensures
        t == map_ref_type(r),
{
    target::RefType { nullable: r.nullable, heap_type: convert_heap_type(r.heap_type) }
}

/// Converts a value type, converting the reference type of its reference
/// variant.
pub fn convert_val_type(v: source::ValType) -> (t: target::ValType)
    ensures
        t == map_val_type(v),
{
    match v {
        source::ValType::I32 => target::ValType::I32,
        source::ValType::I64 => target::ValType::I64,
        source::ValType::F32 => target::ValType::F32,
        source::ValType::F64 => target::ValType::F64,
        source::ValType::V128 => target::ValType::V128,
        source::ValType::Ref(r) => target::ValType::Ref(convert_ref_type(r)),
    }
}

/// Converts a block type. A single result type is converted as a value
/// type; a function type index passes through unchanged, since the
/// encoding side resolves it from its own type section.
pub fn convert_block_type(b: source::BlockType) -> (t: target::BlockType)
    ensures
        t == map_block_type(b),
{
    match b {
        source::BlockType::Empty => target::BlockType::Empty,
        source::BlockType::Type(v) => target::BlockType::ResultType(convert_val_type(v)),
        source::BlockType::FuncType(index) => target::BlockType::FunctionType(index),
    }
}

/// Converts a table type, converting its element type and carrying both
/// size limits over unchanged.
pub fn convert_table_type(t: source::TableType) -> (r: target::TableType)
    ensures
        r == map_table_type(t),
{
    target::TableType {
        element_type: convert_ref_type(t.element_type),
        minimum: t.initial,
        maximum: t.maximum,
    }
}

/// Converts a memory type, carrying both flags and both size limits over
/// unchanged.
pub fn convert_memory_type(m: source::MemoryType) -> (r: target::MemoryType)
    ensures
        r == map_memory_type(m),
{
    target::MemoryType {
        minimum: m.initial,
        maximum: m.maximum,
        memory64: m.memory64,
        shared: m.shared,
    }
}

/// Converts a global type, converting its content type and carrying the
/// mutability flag over unchanged.
pub fn convert_global_type(g: source::GlobalType) -> (r: target::GlobalType)
    ensures
        r == map_global_type(g),
{
    target::GlobalType { val_type: convert_val_type(g.content_type), mutable: g.mutable }
}

/// Converts a tag kind.
pub fn convert_tag_kind(k: source::TagKind) -> (r: target::TagKind)
    ensures
        r == map_tag_kind(k),
{
    match k {
        source::TagKind::Exception => target::TagKind::Exception,
    }
}

/// Converts a tag type, converting its kind and carrying the function type
/// index over unchanged.
pub fn convert_tag_type(t: source::TagType) -> (r: target::TagType)
    ensures
        r == map_tag_type(t),
{
    target::TagType { kind: convert_tag_kind(t.kind), func_type_idx: t.func_type_idx }
}

/// Converts the type of an importable item. The function variant's payload
/// is a bare index and passes through unchanged; the other four payloads
/// are composite types and are converted by their own converters.
pub fn convert_entity_type(t: source::TypeRef) -> (r: target::EntityType)
    ensures
        r == map_entity_type(t),
{
    match t {
        source::TypeRef::Func(index) => target::EntityType::Function(index),
        source::TypeRef::Table(ty) => target::EntityType::Table(convert_table_type(ty)),
        source::TypeRef::Memory(ty) => target::EntityType::Memory(convert_memory_type(ty)),
        source::TypeRef::Global(ty) => target::EntityType::Global(convert_global_type(ty)),
        source::TypeRef::Tag(ty) => target::EntityType::Tag(convert_tag_type(ty)),
    }
}

/// Converts the kind of an exported item.
pub fn convert_export_kind(k: source::ExternalKind) -> (r: target::ExportKind)
    ensures
        r == map_export_kind(k),
{
    match k {
        source::ExternalKind::Func => target::ExportKind::Func,
        source::ExternalKind::Table => target::ExportKind::Table,
        source::ExternalKind::Memory => target::ExportKind::Memory,
        source::ExternalKind::Global => target::ExportKind::Global,
        source::ExternalKind::Tag => target::ExportKind::Tag,
    }
}

/// Converts a memory immediate, widening the alignment exponent to the
/// target's field width and carrying the offset and the memory index over
/// unchanged.
pub fn convert_mem_arg(m: source::MemArg) -> (r: target::MemArg)
    ensures
        r == map_mem_arg(m),
        r.offset == m.offset,
        r.align == m.align as u32,
        r.memory_index == m.memory,
{
    target::MemArg { offset: m.offset, align: m.align as u32, memory_index: m.memory }
}

/// Re-slices an already-encoded constant expression: the output is the
/// input's bytes minus exactly its one-byte trailing terminator, in the
/// same order. The input must be well formed, that is, it must hold its
/// terminator; supplying anything shorter is a precondition violation on
/// the caller's side, not a recoverable condition here.
pub fn convert_const_expr(e: &source::ConstExpr) -> (r: target::ConstExpr)
    requires
        e.well_formed(),
    ensures
        r.bytes@.len() == e.bytes@.len() - 1,
        r.bytes@ == e.bytes@.subrange(0, e.bytes@.len() - 1),
{
    let n: usize = e.bytes.len() - 1;
    let mut out: Vec<u8> = Vec::new();
    let mut i: usize = 0;
    while i < n
        invariant
            i <= n,
            n == e.bytes@.len() - 1,
            out@ == e.bytes@.subrange(0, i as int),
        decreases n - i,
    {
        out.push(e.bytes[i]);
        proof {
            assert(out@ =~= e.bytes@.subrange(0, i + 1 as int));
        }
        i = i + 1;
    }
    target::ConstExpr { bytes: out }
}

} // verus!
