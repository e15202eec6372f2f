use wasm_bridge::convert::{
    convert_block_type, convert_entity_type, convert_export_kind, convert_global_type,
    convert_heap_type, convert_mem_arg, convert_memory_type, convert_ref_type,
    convert_table_type, convert_tag_kind, convert_tag_type, convert_val_type,
};
use wasm_bridge::{source, target};

#[test]
fn heap_type_every_variant() {
    assert_eq!(
        convert_heap_type(source::HeapType::Func),
        target::HeapType::Func
    );
    assert_eq!(
        convert_heap_type(source::HeapType::Extern),
        target::HeapType::Extern
    );
    assert_eq!(
        convert_heap_type(source::HeapType::Any),
        target::HeapType::Any
    );
    assert_eq!(
        convert_heap_type(source::HeapType::NoneRef),
        target::HeapType::NoneRef
    );
    assert_eq!(
        convert_heap_type(source::HeapType::NoExtern),
        target::HeapType::NoExtern
    );
    assert_eq!(
        convert_heap_type(source::HeapType::NoFunc),
        target::HeapType::NoFunc
    );
    assert_eq!(
        convert_heap_type(source::HeapType::EqRef),
        target::HeapType::EqRef
    );
    assert_eq!(
        convert_heap_type(source::HeapType::Struct),
        target::HeapType::Struct
    );
    assert_eq!(
        convert_heap_type(source::HeapType::Array),
        target::HeapType::Array
    );
    assert_eq!(
        convert_heap_type(source::HeapType::I31),
        target::HeapType::I31
    );
}

#[test]
fn heap_type_indexed_keeps_index() {
    assert_eq!(
        convert_heap_type(source::HeapType::Indexed(7)),
        target::HeapType::Indexed(7)
    );
    assert_eq!(
        convert_heap_type(source::HeapType::Indexed(0)),
        target::HeapType::Indexed(0)
    );
    assert_eq!(
        convert_heap_type(source::HeapType::Indexed(u32::MAX)),
        target::HeapType::Indexed(u32::MAX)
    );
}

#[test]
fn ref_type_non_nullable_func() {
    let r = convert_ref_type(source::RefType {
        nullable: false,
        heap_type: source::HeapType::Func,
    });
    assert_eq!(
        r,
        target::RefType {
            nullable: false,
            heap_type: target::HeapType::Func,
        }
    );
}

#[test]
fn ref_type_keeps_nullable_flag() {
    let r = convert_ref_type(source::RefType {
        nullable: true,
        heap_type: source::HeapType::Indexed(12),
    });
    assert_eq!(
        r,
        target::RefType {
            nullable: true,
            heap_type: target::HeapType::Indexed(12),
        }
    );
}

#[test]
fn val_type_every_variant() {
    assert_eq!(convert_val_type(source::ValType::I32), target::ValType::I32);
    assert_eq!(convert_val_type(source::ValType::I64), target::ValType::I64);
    assert_eq!(convert_val_type(source::ValType::F32), target::ValType::F32);
    assert_eq!(convert_val_type(source::ValType::F64), target::ValType::F64);
    assert_eq!(
        convert_val_type(source::ValType::V128),
        target::ValType::V128
    );
    let r = source::RefType {
        nullable: true,
        heap_type: source::HeapType::Extern,
    };
    assert_eq!(
        convert_val_type(source::ValType::Ref(r)),
        target::ValType::Ref(target::RefType {
            nullable: true,
            heap_type: target::HeapType::Extern,
        })
    );
}

#[test]
fn block_type_every_variant() {
    assert_eq!(
        convert_block_type(source::BlockType::Empty),
        target::BlockType::Empty
    );
    assert_eq!(
        convert_block_type(source::BlockType::Type(source::ValType::I64)),
        target::BlockType::ResultType(target::ValType::I64)
    );
    assert_eq!(
        convert_block_type(source::BlockType::FuncType(3)),
        target::BlockType::FunctionType(3)
    );
}

#[test]
fn table_type_keeps_limits() {
    let t = convert_table_type(source::TableType {
        element_type: source::RefType {
            nullable: true,
            heap_type: source::HeapType::Func,
        },
        initial: 4,
        maximum: Some(16),
    });
    assert_eq!(
        t,
        target::TableType {
            element_type: target::RefType {
                nullable: true,
                heap_type: target::HeapType::Func,
            },
            minimum: 4,
            maximum: Some(16),
        }
    );
}

#[test]
fn table_type_without_maximum() {
    let t = convert_table_type(source::TableType {
        element_type: source::RefType {
            nullable: false,
            heap_type: source::HeapType::Extern,
        },
        initial: 0,
        maximum: None,
    });
    assert_eq!(t.minimum, 0);
    assert_eq!(t.maximum, None);
}

#[test]
fn memory_type_keeps_flags_and_limits() {
    let m = convert_memory_type(source::MemoryType {
        memory64: true,
        shared: true,
        initial: 2,
        maximum: Some(8),
    });
    assert_eq!(
        m,
        target::MemoryType {
            minimum: 2,
            maximum: Some(8),
            memory64: true,
            shared: true,
        }
    );
}

#[test]
fn global_type_keeps_mutability() {
    let g = convert_global_type(source::GlobalType {
        content_type: source::ValType::F64,
        mutable: true,
    });
    assert_eq!(
        g,
        target::GlobalType {
            val_type: target::ValType::F64,
            mutable: true,
        }
    );
    let g = convert_global_type(source::GlobalType {
        content_type: source::ValType::I32,
        mutable: false,
    });
    assert_eq!(
        g,
        target::GlobalType {
            val_type: target::ValType::I32,
            mutable: false,
        }
    );
}

#[test]
fn tag_kind_and_tag_type() {
    assert_eq!(
        convert_tag_kind(source::TagKind::Exception),
        target::TagKind::Exception
    );
    let t = convert_tag_type(source::TagType {
        kind: source::TagKind::Exception,
        func_type_idx: 11,
    });
    assert_eq!(
        t,
        target::TagType {
            kind: target::TagKind::Exception,
            func_type_idx: 11,
        }
    );
}

#[test]
fn entity_type_function_passes_index_through() {
    assert_eq!(
        convert_entity_type(source::TypeRef::Func(42)),
        target::EntityType::Function(42)
    );
}

#[test]
fn entity_type_table() {
    let ty = source::TableType {
        element_type: source::RefType {
            nullable: true,
            heap_type: source::HeapType::Indexed(5),
        },
        initial: 1,
        maximum: None,
    };
    assert_eq!(
        convert_entity_type(source::TypeRef::Table(ty)),
        target::EntityType::Table(target::TableType {
            element_type: target::RefType {
                nullable: true,
                heap_type: target::HeapType::Indexed(5),
            },
            minimum: 1,
            maximum: None,
        })
    );
}

#[test]
fn entity_type_memory_identical_fields() {
    let ty = source::MemoryType {
        memory64: false,
        shared: false,
        initial: 1,
        maximum: None,
    };
    assert_eq!(
        convert_entity_type(source::TypeRef::Memory(ty)),
        target::EntityType::Memory(target::MemoryType {
            minimum: 1,
            maximum: None,
            memory64: false,
            shared: false,
        })
    );
}

#[test]
fn entity_type_global() {
    let ty = source::GlobalType {
        content_type: source::ValType::V128,
        mutable: false,
    };
    assert_eq!(
        convert_entity_type(source::TypeRef::Global(ty)),
        target::EntityType::Global(target::GlobalType {
            val_type: target::ValType::V128,
            mutable: false,
        })
    );
}

#[test]
fn entity_type_tag() {
    let ty = source::TagType {
        kind: source::TagKind::Exception,
        func_type_idx: 2,
    };
    assert_eq!(
        convert_entity_type(source::TypeRef::Tag(ty)),
        target::EntityType::Tag(target::TagType {
            kind: target::TagKind::Exception,
            func_type_idx: 2,
        })
    );
}

#[test]
fn export_kind_every_variant() {
    assert_eq!(
        convert_export_kind(source::ExternalKind::Func),
        target::ExportKind::Func
    );
    assert_eq!(
        convert_export_kind(source::ExternalKind::Table),
        target::ExportKind::Table
    );
    assert_eq!(
        convert_export_kind(source::ExternalKind::Memory),
        target::ExportKind::Memory
    );
    assert_eq!(
        convert_export_kind(source::ExternalKind::Global),
        target::ExportKind::Global
    );
    assert_eq!(
        convert_export_kind(source::ExternalKind::Tag),
        target::ExportKind::Tag
    );
}

#[test]
fn mem_arg_widens_alignment_and_keeps_the_rest() {
    let m = convert_mem_arg(source::MemArg {
        align: 3,
        offset: 1024,
        memory: 2,
    });
    assert_eq!(
        m,
        target::MemArg {
            offset: 1024,
            align: 3,
            memory_index: 2,
        }
    );
    let m = convert_mem_arg(source::MemArg {
        align: u8::MAX,
        offset: u64::MAX,
        memory: 0,
    });
    assert_eq!(m.align, u8::MAX as u32);
    assert_eq!(m.offset, u64::MAX);
    assert_eq!(m.memory_index, 0);
}
