//! The general laws of the bridge, stated over the spec-level mapping
//! functions that pin the converters' results: exhaustiveness of every
//! enumeration conversion, and preservation of every flag and numeric
//! field.

use vstd::prelude::*;

use crate::convert::map_block_type;
use crate::convert::map_entity_type;
use crate::convert::map_export_kind;
use crate::convert::map_global_type;
use crate::convert::map_heap_type;
use crate::convert::map_mem_arg;
use crate::convert::map_memory_type;
use crate::convert::map_ref_type;
use crate::convert::map_table_type;
use crate::convert::map_tag_kind;
use crate::convert::map_tag_type;
use crate::convert::map_val_type;
use crate::source;
use crate::target;

verus! {

/// Converting a heap type is exhaustive: each source variant maps to the
/// uniquely corresponding target variant, and an indexed heap type carries
/// its index through unchanged.
pub proof fn lemma_heap_type_exhaustive(h: source::HeapType)
    ensures
        h matches source::HeapType::Indexed(index) ==> map_heap_type(h)
            == target::HeapType::Indexed(index),
        h is Func ==> map_heap_type(h) == target::HeapType::Func,
        h is Extern ==> map_heap_type(h) == target::HeapType::Extern,
        h is Any ==> map_heap_type(h) == target::HeapType::Any,
        h is NoneRef ==> map_heap_type(h) == target::HeapType::NoneRef,
        h is NoExtern ==> map_heap_type(h) == target::HeapType::NoExtern,
        h is NoFunc ==> map_heap_type(h) == target::HeapType::NoFunc,
        h is EqRef ==> map_heap_type(h) == target::HeapType::EqRef,
        h is Struct ==> map_heap_type(h) == target::HeapType::Struct,
        h is Array ==> map_heap_type(h) == target::HeapType::Array,
        h is I31 ==> map_heap_type(h) == target::HeapType::I31,
{
}

/// Converting a reference type keeps the nullability flag and converts the
/// heap type, and nothing else.
pub proof fn lemma_ref_type_fields(r: source::RefType)
    ensures
        map_ref_type(r).nullable == r.nullable,
        map_ref_type(r).heap_type == map_heap_type(r.heap_type),
{
}

/// Converting a value type is exhaustive: each numeric or vector kind maps
/// to the same kind, and a reference carries its converted reference type.
pub proof fn lemma_val_type_exhaustive(v: source::ValType)
    ensures
        v is I32 ==> map_val_type(v) == target::ValType::I32,
        v is I64 ==> map_val_type(v) == target::ValType::I64,
        v is F32 ==> map_val_type(v) == target::ValType::F32,
        v is F64 ==> map_val_type(v) == target::ValType::F64,
        v is V128 ==> map_val_type(v) == target::ValType::V128,
        v matches source::ValType::Ref(r) ==> map_val_type(v)
            == target::ValType::Ref(map_ref_type(r)),
{
}

/// Converting a block type is exhaustive: an empty block stays empty, a
/// single result type is converted as a value type, and a function type
/// carries its index through unchanged.
pub proof fn lemma_block_type_exhaustive(b: source::BlockType)
    ensures
        b is Empty ==> map_block_type(b) == target::BlockType::Empty,
        b matches source::BlockType::Type(v) ==> map_block_type(b)
            == target::BlockType::ResultType(map_val_type(v)),
        b matches source::BlockType::FuncType(index) ==> map_block_type(b)
            == target::BlockType::FunctionType(index),
{
}

/// Converting a table type converts the element type and keeps both size
/// limits unchanged.
pub proof fn lemma_table_type_fields(t: source::TableType)
    ensures
        map_table_type(t).element_type == map_ref_type(t.element_type),
        map_table_type(t).minimum == t.initial,
        map_table_type(t).maximum == t.maximum,
{
}

/// Converting a memory type keeps both flags and both size limits
/// unchanged.
pub proof fn lemma_memory_type_fields(m: source::MemoryType)
    ensures
        map_memory_type(m).memory64 == m.memory64,
        map_memory_type(m).shared == m.shared,
        map_memory_type(m).minimum == m.initial,
        map_memory_type(m).maximum == m.maximum,
{
}

/// Converting a global type keeps the mutability flag unchanged and gives
/// the value type exactly the converted shape of the source's content
/// type.
pub proof fn lemma_global_type_fields(g: source::GlobalType)
    ensures
        map_global_type(g).mutable == g.mutable,
        map_global_type(g).val_type == map_val_type(g.content_type),
{
}

/// Converting a tag kind is exhaustive over the one kind the supported
/// format revision knows.
pub proof fn lemma_tag_kind_exhaustive(k: source::TagKind)
    ensures
        k is Exception ==> map_tag_kind(k) == target::TagKind::Exception,
{
}

/// Converting a tag type converts the kind and keeps the function type
/// index unchanged.
pub proof fn lemma_tag_type_fields(t: source::TagType)
    ensures
        map_tag_type(t).kind == map_tag_kind(t.kind),
        map_tag_type(t).func_type_idx == t.func_type_idx,
{
}

/// Converting the type of an importable item is exhaustive: a function
/// index passes through unchanged, and each composite payload is exactly
/// the converted shape of the source's payload.
pub proof fn lemma_entity_type_exhaustive(t: source::TypeRef)
    ensures
        t matches source::TypeRef::Func(index) ==> map_entity_type(t)
            == target::EntityType::Function(index),
        t matches source::TypeRef::Table(ty) ==> map_entity_type(t)
            == target::EntityType::Table(map_table_type(ty)),
        t matches source::TypeRef::Memory(ty) ==> map_entity_type(t)
            == target::EntityType::Memory(map_memory_type(ty)),
        t matches source::TypeRef::Global(ty) ==> map_entity_type(t)
            == target::EntityType::Global(map_global_type(ty)),
        t matches source::TypeRef::Tag(ty) ==> map_entity_type(t)
            == target::EntityType::Tag(map_tag_type(ty)),
{
}

/// Converting an export kind is exhaustive: each source variant maps to
/// the uniquely corresponding target variant.
pub proof fn lemma_export_kind_exhaustive(k: source::ExternalKind)
    ensures
        k is Func ==> map_export_kind(k) == target::ExportKind::Func,
        k is Table ==> map_export_kind(k) == target::ExportKind::Table,
        k is Memory ==> map_export_kind(k) == target::ExportKind::Memory,
        k is Global ==> map_export_kind(k) == target::ExportKind::Global,
        k is Tag ==> map_export_kind(k) == target::ExportKind::Tag,
{
}

/// Converting a memory immediate widens the alignment exponent and keeps
/// the offset and the memory index unchanged.
pub proof fn lemma_mem_arg_fields(m: source::MemArg)
    ensures
        map_mem_arg(m).align == m.align as u32,
        map_mem_arg(m).offset == m.offset,
        map_mem_arg(m).memory_index == m.memory,
{
}

} // verus!
