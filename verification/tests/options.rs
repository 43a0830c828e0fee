//! The MSL options model: defaults, the ordered override tables, the
//! flattened arrays the engine receives, and the rasterization polarity.

use spirv_cross::engine::CompilerInstance;
use spirv_cross::engine::ModuleReflection;
use spirv_cross::msl;
use spirv_cross::native;
use spirv_cross::spirv;
use spirv_cross::ErrorCode;

fn seeded_ast() -> spirv::Ast<msl::Target> {
    let mut seed = ModuleReflection::new();
    seed.entry_points.push(native::EntryPointRecord {
        name: b"main_vs".to_vec(),
        execution_model: native::ExecutionModel::Vertex,
        work_group_size_x: 0,
        work_group_size_y: 0,
        work_group_size_z: 0,
    });
    seed.output_source = b"// source".to_vec();
    spirv::Ast::<msl::Target>::from_instance(CompilerInstance::from_reflection(seed))
}

#[test]
fn defaults_follow_the_documented_configuration() {
    let options = msl::CompilerOptions::default();
    assert_eq!(options.platform, msl::Platform::macOS);
    assert_eq!(options.version, msl::Version::V1_2);
    assert!(!options.vertex.invert_y);
    assert!(!options.vertex.transform_clip_space);
    assert_eq!(options.swizzle_buffer_index, 30);
    assert_eq!(options.indirect_params_buffer_index, 29);
    assert_eq!(options.output_buffer_index, 28);
    assert_eq!(options.patch_output_buffer_index, 27);
    assert_eq!(options.tessellation_factor_buffer_index, 26);
    assert_eq!(options.buffer_size_buffer_index, 25);
    assert!(options.enable_point_size_builtin);
    assert!(options.enable_rasterization);
    assert!(!options.capture_output_to_buffer);
    assert!(!options.swizzle_texture_samples);
    assert!(!options.tessellation_domain_origin_lower_left);
    assert!(!options.enable_argument_buffers);
    assert!(!options.pad_fragment_output_components);
    assert_eq!(options.resource_binding_overrides.len(), 0);
    assert_eq!(options.vertex_attribute_overrides.len(), 0);
    assert_eq!(options.const_samplers.len(), 0);
    assert!(!options.force_native_arrays);
    assert!(!options.force_zero_initialized_variables);
    assert!(!options.force_active_argument_buffer_resources);
    assert!(options.entry_point.is_none());
}

#[test]
fn version_numbers_follow_the_backend_scheme() {
    assert_eq!(msl::Version::V1_0.as_raw(), 10000);
    assert_eq!(msl::Version::V1_1.as_raw(), 10100);
    assert_eq!(msl::Version::V1_2.as_raw(), 10200);
    assert_eq!(msl::Version::V2_0.as_raw(), 20000);
    assert_eq!(msl::Version::V2_1.as_raw(), 20100);
    assert_eq!(msl::Version::V2_2.as_raw(), 20200);
    assert_eq!(msl::Version::V2_3.as_raw(), 20300);
}

#[test]
fn a_resource_binding_override_reaches_the_flattened_array_byte_for_byte() {
    let mut ast = seeded_ast();
    let mut options = msl::CompilerOptions::default();
    options.resource_binding_overrides.insert(
        msl::ResourceBindingLocation {
            stage: spirv::ExecutionModel::Vertex,
            desc_set: 0,
            binding: 0,
        },
        msl::ResourceBinding {
            base_type: spirv::BaseType::Image,
            buffer_id: 5,
            texture_id: 6,
            sampler_id: 7,
            count: 0,
        },
    );
    ast.set_compiler_options(&options).unwrap();
    ast.compile().unwrap();
    let (_, resource_bindings, _) = ast.received_overrides();
    assert_eq!(resource_bindings.len(), 1);
    let record = &resource_bindings[0];
    assert_eq!(record.stage, native::ExecutionModel::Vertex);
    assert_eq!(record.basetype, native::BaseType::Image);
    assert_eq!(record.desc_set, 0);
    assert_eq!(record.binding, 0);
    assert_eq!(record.msl_buffer, 5);
    assert_eq!(record.msl_texture, 6);
    assert_eq!(record.msl_sampler, 7);
    assert_eq!(record.count, 0);
}

#[test]
fn an_omitted_override_emits_no_record() {
    let mut ast = seeded_ast();
    let options = msl::CompilerOptions::default();
    ast.set_compiler_options(&options).unwrap();
    ast.compile().unwrap();
    let (interface_variables, resource_bindings, const_samplers) = ast.received_overrides();
    assert!(interface_variables.is_empty());
    assert!(resource_bindings.is_empty());
    assert!(const_samplers.is_empty());
}

#[test]
fn override_tables_flatten_in_key_order_whatever_the_insertion_order() {
    let binding = |buffer_id: u32| msl::ResourceBinding {
        base_type: spirv::BaseType::Float,
        buffer_id,
        texture_id: 0,
        sampler_id: 0,
        count: 1,
    };
    let loc = |stage, desc_set, binding| msl::ResourceBindingLocation { stage, desc_set, binding };
    let keys = [
        loc(spirv::ExecutionModel::Vertex, 0, 1),
        loc(spirv::ExecutionModel::Vertex, 1, 0),
        loc(spirv::ExecutionModel::Fragment, 0, 0),
        loc(spirv::ExecutionModel::Vertex, 0, 0),
    ];
    let mut forward = msl::CompilerOptions::default();
    for (i, k) in keys.iter().enumerate() {
        forward.resource_binding_overrides.insert(*k, binding(i as u32));
    }
    let mut backward = msl::CompilerOptions::default();
    for (i, k) in keys.iter().enumerate().rev() {
        backward.resource_binding_overrides.insert(*k, binding(i as u32));
    }
    let run = |options: &msl::CompilerOptions| {
        let mut ast = seeded_ast();
        ast.set_compiler_options(options).unwrap();
        ast.compile().unwrap();
        ast.received_overrides().1
    };
    let a = run(&forward);
    let b = run(&backward);
    assert_eq!(a, b);
    assert_eq!(a.len(), 4);
    // Vertex orders before Fragment; within a stage, set before binding.
    assert_eq!((a[0].desc_set, a[0].binding, a[0].msl_buffer), (0, 0, 3));
    assert_eq!((a[1].desc_set, a[1].binding, a[1].msl_buffer), (0, 1, 0));
    assert_eq!((a[2].desc_set, a[2].binding, a[2].msl_buffer), (1, 0, 1));
    assert_eq!(a[3].stage, native::ExecutionModel::Fragment);
    assert_eq!(a[3].msl_buffer, 2);
}

#[test]
fn inserting_an_equal_key_replaces_the_value() {
    let mut options = msl::CompilerOptions::default();
    let location = msl::VertexAttributeLocation(3);
    let attribute = |buffer_id: u32| msl::VertexAttribute {
        buffer_id,
        format: msl::Format::Other,
        rate: msl::Rate::PerVertex,
        built_in: None,
        vecsize: 4,
    };
    options.vertex_attribute_overrides.insert(location, attribute(1));
    options.vertex_attribute_overrides.insert(location, attribute(2));
    assert_eq!(options.vertex_attribute_overrides.len(), 1);
    let mut ast = seeded_ast();
    ast.set_compiler_options(&options).unwrap();
    ast.compile().unwrap();
    let (interface_variables, _, _) = ast.received_overrides();
    assert_eq!(interface_variables.len(), 1);
    assert_eq!(interface_variables[0].location, 3);
    assert_eq!(interface_variables[0].component, 0);
    assert_eq!(interface_variables[0].builtin, native::BuiltIn::Max);
    assert_eq!(interface_variables[0].vecsize, 4);
}

#[test]
fn a_vertex_attribute_built_in_flattens_to_the_native_member() {
    let mut options = msl::CompilerOptions::default();
    options.vertex_attribute_overrides.insert(
        msl::VertexAttributeLocation(0),
        msl::VertexAttribute {
            buffer_id: 0,
            format: msl::Format::Uint8,
            rate: msl::Rate::PerPrimitive,
            built_in: Some(spirv::BuiltIn::VertexIndex),
            vecsize: 1,
        },
    );
    let mut ast = seeded_ast();
    ast.set_compiler_options(&options).unwrap();
    ast.compile().unwrap();
    let (interface_variables, _, _) = ast.received_overrides();
    assert_eq!(interface_variables.len(), 1);
    assert_eq!(interface_variables[0].builtin, native::BuiltIn::VertexIndex);
    assert_eq!(interface_variables[0].format, native::ShaderVariableFormat::Uint8);
    assert_eq!(interface_variables[0].rate, native::ShaderVariableRate::PerPrimitive);
}

#[test]
fn constant_sampler_enables_derive_from_non_default_fields() {
    let sampler = |compare_func, lod_min: u8, lod_max: u8, anisotropy: i32| msl::SamplerData {
        coord: msl::SamplerCoord::Normalized,
        min_filter: msl::SamplerFilter::Nearest,
        mag_filter: msl::SamplerFilter::Linear,
        mip_filter: msl::SamplerMipFilter::NotMipmapped,
        s_address: msl::SamplerAddress::ClampToEdge,
        t_address: msl::SamplerAddress::Repeat,
        r_address: msl::SamplerAddress::ClampToZero,
        compare_func,
        border_color: msl::SamplerBorderColor::OpaqueBlack,
        lod_clamp_min: msl::LodBase16::from_bits(lod_min),
        lod_clamp_max: msl::LodBase16::from_bits(lod_max),
        max_anisotropy: anisotropy,
        planes: 1,
        resolution: msl::FormatResolution::FormatResolution444,
        chroma_filter: msl::SamplerFilter::Nearest,
        x_chroma_offset: msl::ChromaLocation::CositedEven,
        y_chroma_offset: msl::ChromaLocation::Midpoint,
        swizzle: [
            msl::ComponentSwizzle::Identity,
            msl::ComponentSwizzle::R,
            msl::ComponentSwizzle::G,
            msl::ComponentSwizzle::One,
        ],
        ycbcr_conversion_enable: false,
        ycbcr_model: msl::SamplerYCbCrModelConversion::RgbIdentity,
        ycbcr_range: msl::SamplerYCbCrRange::ItuFull,
        bpc: 8,
    };
    let mut options = msl::CompilerOptions::default();
    options.const_samplers.insert(
        msl::SamplerLocation { desc_set: 0, binding: 0 },
        sampler(msl::SamplerCompareFunc::Always, 0, 255, 0),
    );
    options.const_samplers.insert(
        msl::SamplerLocation { desc_set: 0, binding: 1 },
        sampler(msl::SamplerCompareFunc::Less, 8, 255, 4),
    );
    options.const_samplers.insert(
        msl::SamplerLocation { desc_set: 1, binding: 0 },
        sampler(msl::SamplerCompareFunc::Always, 0, 64, 0),
    );
    let mut ast = seeded_ast();
    ast.set_compiler_options(&options).unwrap();
    ast.compile().unwrap();
    let (_, _, const_samplers) = ast.received_overrides();
    assert_eq!(const_samplers.len(), 3);
    // All fields at their sentinels: every enable off.
    assert!(!const_samplers[0].sampler.compare_enable);
    assert!(!const_samplers[0].sampler.lod_clamp_enable);
    assert!(!const_samplers[0].sampler.anisotropy_enable);
    // A real compare function, a raised lower bound, and anisotropy.
    assert!(const_samplers[1].sampler.compare_enable);
    assert!(const_samplers[1].sampler.lod_clamp_enable);
    assert!(const_samplers[1].sampler.anisotropy_enable);
    assert_eq!(const_samplers[1].sampler.lod_clamp_min, 8);
    assert_eq!(const_samplers[1].sampler.lod_clamp_max, 255);
    assert_eq!(const_samplers[1].sampler.max_anisotropy, 4);
    // Only the upper bound lowered: just the clamp enable.
    assert!(!const_samplers[2].sampler.compare_enable);
    assert!(const_samplers[2].sampler.lod_clamp_enable);
    assert!(!const_samplers[2].sampler.anisotropy_enable);
}

#[test]
fn rasterization_polarity_inverts_at_the_boundary() {
    let mut ast = seeded_ast();
    let mut options = msl::CompilerOptions::default();
    options.enable_rasterization = false;
    ast.set_compiler_options(&options).unwrap();
    assert_eq!(ast.is_rasterization_enabled(), Ok(false));
    options.enable_rasterization = true;
    ast.set_compiler_options(&options).unwrap();
    assert_eq!(ast.is_rasterization_enabled(), Ok(true));
}

#[test]
fn a_named_entry_point_must_exist() {
    let mut ast = seeded_ast();
    let mut options = msl::CompilerOptions::default();
    options.entry_point = Some(("main_cs".to_string(), spirv::ExecutionModel::GlCompute));
    match ast.set_compiler_options(&options) {
        Err(ErrorCode::CompilationError(m)) => assert_eq!(m, "entry point not found"),
        other => panic!("expected a rejection, got {:?}", other),
    }
    options.entry_point = Some(("main_vs".to_string(), spirv::ExecutionModel::Vertex));
    ast.set_compiler_options(&options).unwrap();
}

#[test]
fn an_entry_point_name_with_an_interior_terminator_is_unhandled() {
    let mut ast = seeded_ast();
    let mut options = msl::CompilerOptions::default();
    options.entry_point = Some(("main\0vs".to_string(), spirv::ExecutionModel::Vertex));
    assert_eq!(ast.set_compiler_options(&options), Err(ErrorCode::Unhandled));
}

#[test]
fn automatic_bindings_read_from_the_seeded_table() {
    let mut seed = ModuleReflection::new();
    seed.automatic_bindings.push((spirv_cross::engine::id_key(12), 3));
    let ast = spirv::Ast::<msl::Target>::from_instance(CompilerInstance::from_reflection(seed));
    assert_eq!(ast.get_automatic_msl_resource_binding(12), Ok(3));
    assert_eq!(ast.get_automatic_msl_resource_binding(13), Ok(u32::MAX));
}
