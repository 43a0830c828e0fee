//! The handle lifecycle: parsing module words, the compile state machine,
//! and the instrumented allocation balance.

use spirv_cross::engine::CompilerInstance;
use spirv_cross::engine::ModuleReflection;
use spirv_cross::msl;
use spirv_cross::native;
use spirv_cross::spirv;
use spirv_cross::ErrorCode;

fn entry_point_instruction(model: u32, id: u32, name: &str) -> Vec<u32> {
    let mut bytes: Vec<u8> = name.as_bytes().to_vec();
    bytes.push(0);
    while bytes.len() % 4 != 0 {
        bytes.push(0);
    }
    let string_words: Vec<u32> = bytes
        .chunks(4)
        .map(|c| u32::from_le_bytes([c[0], c[1], c[2], c[3]]))
        .collect();
    let wc = (3 + string_words.len()) as u32;
    let mut v = vec![(wc << 16) | 15, model, id];
    v.extend(string_words);
    v
}

fn module_words(instructions: &[Vec<u32>]) -> Vec<u32> {
    let mut w = vec![0x0723_0203, 0x0001_0000, 0, 100, 0];
    for i in instructions {
        w.extend_from_slice(i);
    }
    w
}

fn two_entry_point_module() -> Vec<u32> {
    module_words(&[
        entry_point_instruction(0, 4, "main_vs"),
        entry_point_instruction(4, 5, "main_fs"),
    ])
}

#[test]
fn parsing_extracts_both_entry_points() {
    let words = two_entry_point_module();
    let module = spirv::Module::from_words(&words);
    let mut ast = spirv::Ast::<msl::Target>::parse(&module).unwrap();
    let entry_points = ast.get_entry_points().unwrap();
    assert_eq!(entry_points.len(), 2);
    assert_eq!(entry_points[0].name, "main_vs");
    assert_eq!(entry_points[0].execution_model, spirv::ExecutionModel::Vertex);
    assert_eq!(entry_points[0].work_group_size.x, 0);
    assert_eq!(entry_points[0].work_group_size.y, 0);
    assert_eq!(entry_points[0].work_group_size.z, 0);
    assert_eq!(entry_points[1].name, "main_fs");
    assert_eq!(entry_points[1].execution_model, spirv::ExecutionModel::Fragment);
    assert_eq!(entry_points[1].work_group_size.x, 0);
    assert_eq!(entry_points[1].work_group_size.y, 0);
    assert_eq!(entry_points[1].work_group_size.z, 0);
}

#[test]
fn parsing_rejects_a_bad_magic_number() {
    let mut words = two_entry_point_module();
    words[0] = 0xdead_beef;
    let module = spirv::Module::from_words(&words);
    match spirv::Ast::<msl::Target>::parse(&module) {
        Err(ErrorCode::CompilationError(m)) => assert_eq!(m, "invalid SPIR-V module"),
        Err(other) => panic!("expected a parse error, got {:?}", other),
        Ok(_) => panic!("expected a parse error"),
    }
}

#[test]
fn parsing_rejects_a_truncated_header() {
    let words = vec![0x0723_0203, 0, 0];
    let module = spirv::Module::from_words(&words);
    assert!(spirv::Ast::<msl::Target>::parse(&module).is_err());
}

#[test]
fn parsing_rejects_an_overrunning_instruction() {
    // A word count that runs past the end of the module.
    let words = module_words(&[vec![(9u32 << 16) | 15, 0, 4]]);
    let module = spirv::Module::from_words(&words);
    assert!(spirv::Ast::<msl::Target>::parse(&module).is_err());
}

#[test]
fn parsing_skips_unrelated_instructions() {
    // OpName (opcode 5) carries a string the scan does not index.
    let mut op_name = vec![(3u32 << 16) | 5, 7];
    op_name.push(u32::from_le_bytes([b'x', 0, 0, 0]));
    let words = module_words(&[op_name, entry_point_instruction(4, 5, "main_fs")]);
    let module = spirv::Module::from_words(&words);
    let mut ast = spirv::Ast::<msl::Target>::parse(&module).unwrap();
    let entry_points = ast.get_entry_points().unwrap();
    assert_eq!(entry_points.len(), 1);
    assert_eq!(entry_points[0].name, "main_fs");
}

#[test]
fn cleansed_name_requires_a_compile_first() {
    let words = two_entry_point_module();
    let module = spirv::Module::from_words(&words);
    let mut ast = spirv::Ast::<msl::Target>::parse(&module).unwrap();
    match ast.get_cleansed_entry_point_name("main_vs", spirv::ExecutionModel::Vertex) {
        Err(ErrorCode::CompilationError(m)) => {
            assert_eq!(m, "`compile` must be called first");
        },
        other => panic!("expected a precondition rejection, got {:?}", other),
    }
    ast.compile().unwrap();
    let cleansed = ast
        .get_cleansed_entry_point_name("main_vs", spirv::ExecutionModel::Vertex)
        .unwrap();
    assert_eq!(cleansed, "main_vs");
}

#[test]
fn cleansed_name_rejects_an_unknown_entry_point() {
    let words = two_entry_point_module();
    let module = spirv::Module::from_words(&words);
    let mut ast = spirv::Ast::<msl::Target>::parse(&module).unwrap();
    ast.compile().unwrap();
    match ast.get_cleansed_entry_point_name("main_cs", spirv::ExecutionModel::GlCompute) {
        Err(ErrorCode::CompilationError(m)) => assert_eq!(m, "entry point not found"),
        other => panic!("expected a rejection, got {:?}", other),
    }
}

#[test]
fn compiling_returns_the_seeded_source() {
    let mut seed = ModuleReflection::new();
    seed.output_source = b"fragment float4 main0() { return 0; }".to_vec();
    let mut ast = spirv::Ast::<msl::Target>::from_instance(CompilerInstance::from_reflection(seed));
    let source = ast.compile().unwrap();
    assert_eq!(source, "fragment float4 main0() { return 0; }");
}

#[test]
fn compiling_rejects_output_that_is_not_text() {
    let mut seed = ModuleReflection::new();
    seed.output_source = vec![0xFF, 0xFE, 0x80];
    let mut ast = spirv::Ast::<msl::Target>::from_instance(CompilerInstance::from_reflection(seed));
    assert_eq!(ast.compile(), Err(ErrorCode::Unhandled));
}

#[test]
fn every_operation_restores_the_allocation_balance() {
    let mut seed = ModuleReflection::new();
    seed.entry_points.push(native::EntryPointRecord {
        name: b"main_vs".to_vec(),
        execution_model: native::ExecutionModel::Vertex,
        work_group_size_x: 0,
        work_group_size_y: 0,
        work_group_size_z: 0,
    });
    seed.names.push((spirv_cross::engine::id_key(3), b"tint".to_vec()));
    seed.output_source = b"// empty".to_vec();
    let mut ast = spirv_cross::spirv::Ast::<msl::Target>::from_instance(
        CompilerInstance::from_reflection(seed),
    );
    assert_eq!(ast.live_native_allocations(), 0);
    ast.get_entry_points().unwrap();
    assert_eq!(ast.live_native_allocations(), 0);
    ast.get_name(3).unwrap();
    ast.get_shader_resources().unwrap();
    ast.get_specialization_constants().unwrap();
    ast.get_active_buffer_ranges(3).unwrap();
    ast.get_work_group_size_specialization_constants().unwrap();
    ast.get_active_interface_variables().unwrap();
    ast.set_name(3, "tinted").unwrap();
    ast.set_decoration(3, spirv::Decoration::Binding, 2).unwrap();
    ast.compile().unwrap();
    assert_eq!(ast.live_native_allocations(), 0);
}
