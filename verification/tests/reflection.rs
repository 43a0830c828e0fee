//! The reflection queries over a seeded engine: names, decorations,
//! resources, sizes, ranges, constants, and the error paths of the
//! boundary discipline.

use spirv_cross::engine;
use spirv_cross::engine::CompilerInstance;
use spirv_cross::engine::ModuleReflection;
use spirv_cross::msl;
use spirv_cross::native;
use spirv_cross::spirv;
use spirv_cross::ErrorCode;

fn ast_of(seed: ModuleReflection) -> spirv::Ast<msl::Target> {
    spirv::Ast::<msl::Target>::from_instance(CompilerInstance::from_reflection(seed))
}

#[test]
fn names_set_then_get_round_trip() {
    let mut ast = ast_of(ModuleReflection::new());
    assert_eq!(ast.get_name(7).unwrap(), "");
    ast.set_name(7, "albedo").unwrap();
    assert_eq!(ast.get_name(7).unwrap(), "albedo");
    ast.set_member_name(7, 2, "uv").unwrap();
    assert_eq!(ast.get_member_name(7, 2).unwrap(), "uv");
    assert_eq!(ast.get_member_name(7, 3).unwrap(), "");
}

#[test]
fn a_name_with_an_interior_terminator_is_unhandled() {
    let mut ast = ast_of(ModuleReflection::new());
    assert_eq!(ast.set_name(7, "bad\0name"), Err(ErrorCode::Unhandled));
    assert_eq!(ast.set_member_name(7, 0, "bad\0name"), Err(ErrorCode::Unhandled));
    assert_eq!(ast.get_name(7).unwrap(), "");
}

#[test]
fn a_seeded_name_that_is_not_text_is_unhandled() {
    let mut seed = ModuleReflection::new();
    seed.names.push((engine::id_key(9), vec![0xFF, 0xFE]));
    let mut ast = ast_of(seed);
    assert_eq!(ast.get_name(9), Err(ErrorCode::Unhandled));
    assert_eq!(ast.live_native_allocations(), 0);
}

#[test]
fn decorations_set_get_and_unset() {
    let mut ast = ast_of(ModuleReflection::new());
    assert_eq!(ast.get_decoration(4, spirv::Decoration::Binding).unwrap(), 0);
    ast.set_decoration(4, spirv::Decoration::Binding, 11).unwrap();
    assert_eq!(ast.get_decoration(4, spirv::Decoration::Binding).unwrap(), 11);
    assert_eq!(ast.get_decoration(4, spirv::Decoration::DescriptorSet).unwrap(), 0);
    ast.unset_decoration(4, spirv::Decoration::Binding).unwrap();
    assert_eq!(ast.get_decoration(4, spirv::Decoration::Binding).unwrap(), 0);
    ast.set_member_decoration(4, 1, spirv::Decoration::Offset, 16).unwrap();
    assert_eq!(
        ast.get_member_decoration(4, 1, spirv::Decoration::Offset).unwrap(),
        16
    );
    assert_eq!(
        ast.get_member_decoration(4, 0, spirv::Decoration::Offset).unwrap(),
        0
    );
}

#[test]
fn shader_resources_carry_all_seeded_categories() {
    let mut seed = ModuleReflection::new();
    seed.uniform_buffers.push(native::ResourceRecord {
        id: 3,
        type_id: 4,
        base_type_id: 5,
        name: b"ubo".to_vec(),
    });
    seed.stage_inputs.push(native::ResourceRecord {
        id: 6,
        type_id: 7,
        base_type_id: 8,
        name: b"position".to_vec(),
    });
    seed.builtin_inputs.push(engine::BuiltInResourceSeed {
        builtin: spirv::BuiltIn::VertexIndex,
        value_type_id: 9,
        resource: native::ResourceRecord {
            id: 10,
            type_id: 11,
            base_type_id: 12,
            name: b"gl_VertexIndex".to_vec(),
        },
    });
    let mut ast = ast_of(seed);
    let resources = ast.get_shader_resources().unwrap();
    assert_eq!(resources.uniform_buffers.len(), 1);
    assert_eq!(resources.uniform_buffers[0].id, 3);
    assert_eq!(resources.uniform_buffers[0].type_id, 4);
    assert_eq!(resources.uniform_buffers[0].base_type_id, 5);
    assert_eq!(resources.uniform_buffers[0].name, "ubo");
    assert_eq!(resources.stage_inputs.len(), 1);
    assert_eq!(resources.stage_inputs[0].name, "position");
    assert_eq!(resources.builtin_inputs.len(), 1);
    assert_eq!(resources.builtin_inputs[0].builtin, spirv::BuiltIn::VertexIndex);
    assert_eq!(resources.builtin_inputs[0].value_type_id, 9);
    assert_eq!(resources.builtin_inputs[0].resource.id, 10);
    assert_eq!(resources.builtin_inputs[0].resource.name, "gl_VertexIndex");
    assert!(resources.storage_buffers.is_empty());
    assert!(resources.separate_samplers.is_empty());
    assert!(resources.builtin_outputs.is_empty());
    assert_eq!(ast.live_native_allocations(), 0);
}

#[test]
fn a_resource_name_that_is_not_text_is_unhandled_and_still_released() {
    let mut seed = ModuleReflection::new();
    seed.sampled_images.push(native::ResourceRecord {
        id: 3,
        type_id: 4,
        base_type_id: 5,
        name: vec![0xC0],
    });
    seed.separate_images.push(native::ResourceRecord {
        id: 6,
        type_id: 7,
        base_type_id: 8,
        name: b"fine".to_vec(),
    });
    let mut ast = ast_of(seed);
    assert!(matches!(ast.get_shader_resources(), Err(ErrorCode::Unhandled)));
    assert_eq!(ast.live_native_allocations(), 0);
}

#[test]
fn struct_sizes_read_from_the_seeded_tables() {
    let mut seed = ModuleReflection::new();
    seed.struct_sizes.push((engine::id_key(4), 64));
    seed.member_sizes.push((engine::member_key(4, 0), 16));
    let mut ast = ast_of(seed);
    assert_eq!(ast.get_declared_struct_size(4).unwrap(), 64);
    assert_eq!(ast.get_declared_struct_member_size(4, 0).unwrap(), 16);
    assert!(matches!(
        ast.get_declared_struct_size(5),
        Err(ErrorCode::CompilationError(_))
    ));
    assert!(matches!(
        ast.get_declared_struct_member_size(4, 1),
        Err(ErrorCode::CompilationError(_))
    ));
}

#[test]
fn buffer_ranges_read_from_the_seeded_table() {
    let mut seed = ModuleReflection::new();
    seed.buffer_ranges.push((
        engine::id_key(4),
        vec![
            native::BufferRangeRecord { index: 0, offset: 0, range: 16 },
            native::BufferRangeRecord { index: 2, offset: 32, range: 8 },
        ],
    ));
    let mut ast = ast_of(seed);
    let ranges = ast.get_active_buffer_ranges(4).unwrap();
    assert_eq!(ranges.len(), 2);
    assert_eq!(ranges[0].index, 0);
    assert_eq!(ranges[0].offset, 0);
    assert_eq!(ranges[0].range, 16);
    assert_eq!(ranges[1].index, 2);
    assert_eq!(ranges[1].offset, 32);
    assert_eq!(ranges[1].range, 8);
    assert!(ast.get_active_buffer_ranges(5).unwrap().is_empty());
}

#[test]
fn specialization_constants_read_from_the_seeded_tables() {
    let mut seed = ModuleReflection::new();
    seed.spec_constants.push(native::SpecializationConstantRecord { id: 5, constant_id: 1 });
    seed.spec_constants.push(native::SpecializationConstantRecord { id: 6, constant_id: 2 });
    seed.wgs_x = native::SpecializationConstantRecord { id: 5, constant_id: 1 };
    seed.wgs_y = native::SpecializationConstantRecord { id: 6, constant_id: 2 };
    let mut ast = ast_of(seed);
    let constants = ast.get_specialization_constants().unwrap();
    assert_eq!(constants.len(), 2);
    assert_eq!(constants[0], spirv::SpecializationConstant { id: 5, constant_id: 1 });
    assert_eq!(constants[1], spirv::SpecializationConstant { id: 6, constant_id: 2 });
    let wgs = ast.get_work_group_size_specialization_constants().unwrap();
    assert_eq!(wgs.x, spirv::SpecializationConstant { id: 5, constant_id: 1 });
    assert_eq!(wgs.y, spirv::SpecializationConstant { id: 6, constant_id: 2 });
    assert_eq!(wgs.z, spirv::SpecializationConstant { id: 0, constant_id: 0 });
    ast.set_scalar_constant(5, 0x1_0000_0002).unwrap();
}

#[test]
fn active_interface_variables_collapse_duplicates() {
    let mut seed = ModuleReflection::new();
    seed.active_variables = vec![3, 4, 3, 5, 4];
    let mut ast = ast_of(seed);
    let active = ast.get_active_interface_variables().unwrap();
    assert_eq!(active.len(), 3);
    assert!(active.contains(&3));
    assert!(active.contains(&4));
    assert!(active.contains(&5));
}

#[test]
fn get_type_serves_the_seeded_record_and_rejects_unknown_identifiers() {
    let mut seed = ModuleReflection::new();
    seed.types.push((
        engine::id_key(4),
        native::TypeRecord {
            base_type: native::BaseType::Float,
            vecsize: 4,
            columns: 4,
            member_types: Vec::new(),
            array: vec![6],
            array_size_literal: vec![true],
            image: native::ImageRecord {
                type_id: 0,
                dim: native::Dim::Dim1D,
                depth: false,
                arrayed: false,
                ms: false,
                sampled: 0,
                format: native::ImageFormat::Unknown,
            },
        },
    ));
    let mut ast = ast_of(seed);
    match ast.get_type(4).unwrap() {
        spirv::Type::Float { vecsize, columns, array, array_size_literal } => {
            assert_eq!(vecsize, 4);
            assert_eq!(columns, 4);
            assert_eq!(array, vec![6]);
            assert_eq!(array_size_literal, vec![true]);
        },
        other => panic!("wrong variant: {:?}", other),
    }
    assert!(matches!(ast.get_type(5), Err(ErrorCode::CompilationError(_))));
    assert_eq!(ast.live_native_allocations(), 0);
}

#[test]
fn renaming_applies_to_every_resource_at_the_location() {
    let mut seed = ModuleReflection::new();
    seed.decorations.push((engine::decoration_key(3, spirv::Decoration::Location), 1));
    seed.decorations.push((engine::decoration_key(4, spirv::Decoration::Location), 2));
    let mut ast = ast_of(seed);
    let resources = vec![
        spirv::Resource { id: 3, type_id: 0, base_type_id: 0, name: "a".to_string() },
        spirv::Resource { id: 4, type_id: 0, base_type_id: 0, name: "b".to_string() },
    ];
    ast.rename_interface_variable(&resources, 2, "renamed").unwrap();
    assert_eq!(ast.get_name(3).unwrap(), "");
    assert_eq!(ast.get_name(4).unwrap(), "renamed");
}

#[test]
fn renaming_rejects_unencodable_names_before_any_command() {
    let mut ast = ast_of(ModuleReflection::new());
    let resources = vec![spirv::Resource {
        id: 3,
        type_id: 0,
        base_type_id: 0,
        name: "bad\0name".to_string(),
    }];
    assert_eq!(
        ast.rename_interface_variable(&resources, 0, "renamed"),
        Err(ErrorCode::Unhandled)
    );
    let fine = vec![spirv::Resource {
        id: 3,
        type_id: 0,
        base_type_id: 0,
        name: "fine".to_string(),
    }];
    assert_eq!(
        ast.rename_interface_variable(&fine, 0, "bad\0name"),
        Err(ErrorCode::Unhandled)
    );
    assert_eq!(ast.get_name(3).unwrap(), "");
}
