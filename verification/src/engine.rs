//! The model compiler engine behind the boundary command set.
//!
//! The engine of spec'd behaviour is an opaque service reachable through a
//! fixed command set; this module ships a reference engine that implements
//! that command set over explicit reflection tables, so that the typed
//! layer above it can be verified against exact command contracts and
//! exercised by tests.  The instance is instrumented: it counts every
//! buffer it hands out and every release it receives, and a command that
//! produces out-buffers demands that all buffers of the previous command
//! have been released.
//!
//! An instance comes either from parsing module words
//! ([`CompilerInstance::create_from_words`]), which validates the header
//! and instruction stream and extracts the entry points, or from explicit
//! reflection tables ([`CompilerInstance::from_reflection`]), the seam an
//! instrumented test harness uses.

use vstd::prelude::*;

use crate::native;
use crate::spirv;
use crate::table::IdTable;

verus! {

use vstd::slice::slice_to_vec;
use crate::table::assoc_map;
use crate::table::vmap;
use crate::table::lemma_vmap_empty;
use crate::table::lemma_vmap_insert;
use crate::table::lemma_vmap_index;

/// The sequence of ghost views of a record sequence.
pub open spec fn seq_view<T: View>(s: Seq<T>) -> Seq<T::V> {
    s.map_values(|r: T| r@)
}

/// The table key for state attached to an identifier alone.
pub open spec fn spec_id_key(id: u32) -> u128 {
    id as u128
}

/// The table key for state attached to an identifier alone.
pub fn id_key(id: u32) -> (k: u128)
    ensures
        k == spec_id_key(id),
{
    id as u128
}

/// The table key for state attached to an identifier and a member index.
pub open spec fn spec_member_key(id: u32, index: u32) -> u128 {
    (id * 0x1_0000_0000 + index) as u128
}

/// The table key for state attached to an identifier and a member index.
pub fn member_key(id: u32, index: u32) -> (k: u128)
    ensures
        k == spec_member_key(id, index),
{
    id as u128 * 0x1_0000_0000 + index as u128
}

/// The table key for a decoration of an identifier.
pub open spec fn spec_decoration_key(id: u32, d: native::Decoration) -> u128 {
    (id * 0x1_0000_0000 + native::spec_decoration_number(d)) as u128
}

/// The table key for a decoration of an identifier.
pub fn decoration_key(id: u32, d: native::Decoration) -> (k: u128)
    ensures
        k == spec_decoration_key(id, d),
{
    id as u128 * 0x1_0000_0000 + native::decoration_number(d) as u128
}

/// The table key for a decoration of a struct member.
pub open spec fn spec_member_decoration_key(id: u32, index: u32, d: native::Decoration) -> u128 {
    (id * 0x1_0000_0000_0000_0000 + index * 0x1_0000_0000 + native::spec_decoration_number(d)) as u128
}

/// The table key for a decoration of a struct member.
pub fn member_decoration_key(id: u32, index: u32, d: native::Decoration) -> (k: u128)
    ensures
        k == spec_member_decoration_key(id, index, d),
{
    id as u128 * 0x1_0000_0000_0000_0000 + index as u128 * 0x1_0000_0000
        + native::decoration_number(d) as u128
}

/// The fifteen categories of resource records an instance serves, in the
/// engine's record shapes.
pub struct ResourceTables {
    pub uniform_buffers: Vec<native::ResourceRecord>,
    pub storage_buffers: Vec<native::ResourceRecord>,
    pub stage_inputs: Vec<native::ResourceRecord>,
    pub stage_outputs: Vec<native::ResourceRecord>,
    pub subpass_inputs: Vec<native::ResourceRecord>,
    pub storage_images: Vec<native::ResourceRecord>,
    pub sampled_images: Vec<native::ResourceRecord>,
    pub atomic_counters: Vec<native::ResourceRecord>,
    pub acceleration_structures: Vec<native::ResourceRecord>,
    pub push_constant_buffers: Vec<native::ResourceRecord>,
    pub shader_record_buffers: Vec<native::ResourceRecord>,
    pub separate_images: Vec<native::ResourceRecord>,
    pub separate_samplers: Vec<native::ResourceRecord>,
    pub builtin_inputs: Vec<native::BuiltInResourceRecord>,
    pub builtin_outputs: Vec<native::BuiltInResourceRecord>,
}

/// The ghost value of the fifteen resource categories.
#[verifier::ext_equal]
pub ghost struct ResourcesModel {
    pub uniform_buffers: Seq<native::ResourceModel>,
    pub storage_buffers: Seq<native::ResourceModel>,
    pub stage_inputs: Seq<native::ResourceModel>,
    pub stage_outputs: Seq<native::ResourceModel>,
    pub subpass_inputs: Seq<native::ResourceModel>,
    pub storage_images: Seq<native::ResourceModel>,
    pub sampled_images: Seq<native::ResourceModel>,
    pub atomic_counters: Seq<native::ResourceModel>,
    pub acceleration_structures: Seq<native::ResourceModel>,
    pub push_constant_buffers: Seq<native::ResourceModel>,
    pub shader_record_buffers: Seq<native::ResourceModel>,
    pub separate_images: Seq<native::ResourceModel>,
    pub separate_samplers: Seq<native::ResourceModel>,
    pub builtin_inputs: Seq<native::BuiltInResourceModel>,
    pub builtin_outputs: Seq<native::BuiltInResourceModel>,
}

impl View for ResourceTables {
    type V = ResourcesModel;

    open spec fn view(&self) -> ResourcesModel {
        ResourcesModel {
            uniform_buffers: seq_view(self.uniform_buffers@),
            storage_buffers: seq_view(self.storage_buffers@),
            stage_inputs: seq_view(self.stage_inputs@),
            stage_outputs: seq_view(self.stage_outputs@),
            subpass_inputs: seq_view(self.subpass_inputs@),
            storage_images: seq_view(self.storage_images@),
            sampled_images: seq_view(self.sampled_images@),
            atomic_counters: seq_view(self.atomic_counters@),
            acceleration_structures: seq_view(self.acceleration_structures@),
            push_constant_buffers: seq_view(self.push_constant_buffers@),
            shader_record_buffers: seq_view(self.shader_record_buffers@),
            separate_images: seq_view(self.separate_images@),
            separate_samplers: seq_view(self.separate_samplers@),
            builtin_inputs: seq_view(self.builtin_inputs@),
            builtin_outputs: seq_view(self.builtin_outputs@),
        }
    }
}

/// The ghost state of one engine instance: its reflection tables, the
/// mutations accepted so far, what the last compile command received, and
/// the count of live out-buffers.
#[verifier::ext_equal]
pub ghost struct InstanceModel {
    /// Out-buffers handed out and not yet released.
    pub live: nat,
    pub entry_points: Seq<native::EntryPointModel>,
    pub names: Map<u128, Seq<u8>>,
    pub member_names: Map<u128, Seq<u8>>,
    pub decorations: Map<u128, u32>,
    pub member_decorations: Map<u128, u32>,
    pub scalar_constants: Map<u128, (u32, u32)>,
    pub types: Map<u128, native::TypeModel>,
    pub struct_sizes: Map<u128, u32>,
    pub member_sizes: Map<u128, u32>,
    pub buffer_ranges: Map<u128, Seq<native::BufferRangeRecord>>,
    pub spec_constants: Seq<native::SpecializationConstantRecord>,
    pub wgs_x: native::SpecializationConstantRecord,
    pub wgs_y: native::SpecializationConstantRecord,
    pub wgs_z: native::SpecializationConstantRecord,
    pub resources: ResourcesModel,
    pub active_variables: Seq<u32>,
    pub automatic_bindings: Map<u128, u32>,
    pub selected_entry_point: Option<(Seq<u8>, native::ExecutionModel)>,
    pub msl_options: native::MslOptionsRecord,
    pub received_interface_variables: Seq<native::ShaderInterfaceVariableRecord>,
    pub received_resource_bindings: Seq<native::ResourceBindingRecord>,
    pub received_const_samplers: Seq<native::ConstSamplerMappingRecord>,
    pub output_source: Seq<u8>,
    pub latest_error: Seq<char>,
}

/// No built-in resource record carries the sentinel.
pub open spec fn builtins_wf(s: Seq<native::BuiltInResourceModel>) -> bool {
    forall|i: int| 0 <= i < s.len() ==> s[i].builtin != native::BuiltIn::Max
}

/// The invariants the engine keeps over its seeded tables: built-in
/// resource records never carry the sentinel, and every type record
/// describes its array dimensions and their literal flags at equal length.
pub open spec fn tables_wf(m: InstanceModel) -> bool {
    &&& builtins_wf(m.resources.builtin_inputs)
    &&& builtins_wf(m.resources.builtin_outputs)
    &&& forall|k: u128|
        m.types.dom().contains(k) ==> (#[trigger] m.types[k]).array.len()
            == m.types[k].array_size_literal.len()
}

/// A built-in resource for seeding an instance, named in the public,
/// sentinel-free vocabulary.
pub struct BuiltInResourceSeed {
    pub builtin: spirv::BuiltIn,
    pub value_type_id: u32,
    pub resource: native::ResourceRecord,
}

/// The ghost value a built-in resource seed stands for once it enters the
/// engine's vocabulary.
pub open spec fn builtin_seed_views(
    s: Seq<BuiltInResourceSeed>,
) -> Seq<native::BuiltInResourceModel> {
    s.map_values(
        |b: BuiltInResourceSeed| native::BuiltInResourceModel {
            builtin: spirv::spec_built_in_as_raw(Some(b.builtin)),
            value_type_id: b.value_type_id,
            resource: b.resource@,
        },
    )
}

/// Explicit reflection tables for seeding an instance: the seam through
/// which a test harness builds an instrumented engine with known contents.
/// Table entries are keyed with [`id_key`], [`member_key`],
/// [`decoration_key`] and [`member_decoration_key`]; a later entry wins
/// over an earlier one with the same key.
pub struct ModuleReflection {
    pub entry_points: Vec<native::EntryPointRecord>,
    pub names: Vec<(u128, Vec<u8>)>,
    pub member_names: Vec<(u128, Vec<u8>)>,
    pub decorations: Vec<(u128, u32)>,
    pub member_decorations: Vec<(u128, u32)>,
    pub types: Vec<(u128, native::TypeRecord)>,
    pub struct_sizes: Vec<(u128, u32)>,
    pub member_sizes: Vec<(u128, u32)>,
    pub buffer_ranges: Vec<(u128, Vec<native::BufferRangeRecord>)>,
    pub automatic_bindings: Vec<(u128, u32)>,
    pub spec_constants: Vec<native::SpecializationConstantRecord>,
    pub wgs_x: native::SpecializationConstantRecord,
    pub wgs_y: native::SpecializationConstantRecord,
    pub wgs_z: native::SpecializationConstantRecord,
    pub uniform_buffers: Vec<native::ResourceRecord>,
    pub storage_buffers: Vec<native::ResourceRecord>,
    pub stage_inputs: Vec<native::ResourceRecord>,
    pub stage_outputs: Vec<native::ResourceRecord>,
    pub subpass_inputs: Vec<native::ResourceRecord>,
    pub storage_images: Vec<native::ResourceRecord>,
    pub sampled_images: Vec<native::ResourceRecord>,
    pub atomic_counters: Vec<native::ResourceRecord>,
    pub acceleration_structures: Vec<native::ResourceRecord>,
    pub push_constant_buffers: Vec<native::ResourceRecord>,
    pub shader_record_buffers: Vec<native::ResourceRecord>,
    pub separate_images: Vec<native::ResourceRecord>,
    pub separate_samplers: Vec<native::ResourceRecord>,
    pub builtin_inputs: Vec<BuiltInResourceSeed>,
    pub builtin_outputs: Vec<BuiltInResourceSeed>,
    pub active_variables: Vec<u32>,
    pub output_source: Vec<u8>,
}

impl ModuleReflection {
    /// Every seeded type record describes its array dimensions and their
    /// literal flags at equal length.
    pub open spec fn wf(&self) -> bool {
        forall|i: int|
            0 <= i < self.types@.len() ==> (#[trigger] self.types@[i]).1.array@.len()
                == self.types@[i].1.array_size_literal@.len()
    }

    /// Empty tables: a module that reflects nothing.
    pub fn new() -> (r: ModuleReflection)
        ensures
            r.wf(),
            r.entry_points@.len() == 0,
            r.names@.len() == 0,
            r.member_names@.len() == 0,
            r.decorations@.len() == 0,
            r.member_decorations@.len() == 0,
            r.types@.len() == 0,
            r.struct_sizes@.len() == 0,
            r.member_sizes@.len() == 0,
            r.buffer_ranges@.len() == 0,
            r.automatic_bindings@.len() == 0,
            r.spec_constants@.len() == 0,
            r.wgs_x == (native::SpecializationConstantRecord { id: 0, constant_id: 0 }),
            r.wgs_y == (native::SpecializationConstantRecord { id: 0, constant_id: 0 }),
            r.wgs_z == (native::SpecializationConstantRecord { id: 0, constant_id: 0 }),
            r.uniform_buffers@.len() == 0,
            r.storage_buffers@.len() == 0,
            r.stage_inputs@.len() == 0,
            r.stage_outputs@.len() == 0,
            r.subpass_inputs@.len() == 0,
            r.storage_images@.len() == 0,
            r.sampled_images@.len() == 0,
            r.atomic_counters@.len() == 0,
            r.acceleration_structures@.len() == 0,
            r.push_constant_buffers@.len() == 0,
            r.shader_record_buffers@.len() == 0,
            r.separate_images@.len() == 0,
            r.separate_samplers@.len() == 0,
            r.builtin_inputs@.len() == 0,
            r.builtin_outputs@.len() == 0,
            r.active_variables@.len() == 0,
            r.output_source@.len() == 0,
    {
        ModuleReflection {
            entry_points: Vec::new(),
            names: Vec::new(),
            member_names: Vec::new(),
            decorations: Vec::new(),
            member_decorations: Vec::new(),
            types: Vec::new(),
            struct_sizes: Vec::new(),
            member_sizes: Vec::new(),
            buffer_ranges: Vec::new(),
            automatic_bindings: Vec::new(),
            spec_constants: Vec::new(),
            wgs_x: native::SpecializationConstantRecord { id: 0, constant_id: 0 },
            wgs_y: native::SpecializationConstantRecord { id: 0, constant_id: 0 },
            wgs_z: native::SpecializationConstantRecord { id: 0, constant_id: 0 },
            uniform_buffers: Vec::new(),
            storage_buffers: Vec::new(),
            stage_inputs: Vec::new(),
            stage_outputs: Vec::new(),
            subpass_inputs: Vec::new(),
            storage_images: Vec::new(),
            sampled_images: Vec::new(),
            atomic_counters: Vec::new(),
            acceleration_structures: Vec::new(),
            push_constant_buffers: Vec::new(),
            shader_record_buffers: Vec::new(),
            separate_images: Vec::new(),
            separate_samplers: Vec::new(),
            builtin_inputs: Vec::new(),
            builtin_outputs: Vec::new(),
            active_variables: Vec::new(),
            output_source: Vec::new(),
        }
    }
}

/// The configuration record an instance starts with, before any
/// set-options command: everything off and every index zero.
pub open spec fn spec_initial_msl_options() -> native::MslOptionsRecord {
    native::MslOptionsRecord {
        vertex_invert_y: false,
        vertex_transform_clip_space: false,
        platform: 0,
        version: 0,
        enable_point_size_builtin: false,
        disable_rasterization: false,
        swizzle_buffer_index: 0,
        indirect_params_buffer_index: 0,
        shader_output_buffer_index: 0,
        shader_patch_output_buffer_index: 0,
        shader_tess_factor_buffer_index: 0,
        buffer_size_buffer_index: 0,
        capture_output_to_buffer: false,
        swizzle_texture_samples: false,
        tess_domain_origin_lower_left: false,
        argument_buffers: false,
        pad_fragment_output_components: false,
        force_native_arrays: false,
        force_zero_initialized_variables: false,
        force_active_argument_buffer_resources: false,
    }
}

fn initial_msl_options() -> (r: native::MslOptionsRecord)
    ensures
        r == spec_initial_msl_options(),
{
    native::MslOptionsRecord {
        vertex_invert_y: false,
        vertex_transform_clip_space: false,
        platform: 0,
        version: 0,
        enable_point_size_builtin: false,
        disable_rasterization: false,
        swizzle_buffer_index: 0,
        indirect_params_buffer_index: 0,
        shader_output_buffer_index: 0,
        shader_patch_output_buffer_index: 0,
        shader_tess_factor_buffer_index: 0,
        buffer_size_buffer_index: 0,
        capture_output_to_buffer: false,
        swizzle_texture_samples: false,
        tess_domain_origin_lower_left: false,
        argument_buffers: false,
        pad_fragment_output_components: false,
        force_native_arrays: false,
        force_zero_initialized_variables: false,
        force_active_argument_buffer_resources: false,
    }
}

/// One model compiler engine instance.
pub struct CompilerInstance {
    live: u128,
    entry_points: Vec<native::EntryPointRecord>,
    names: IdTable<Vec<u8>>,
    member_names: IdTable<Vec<u8>>,
    decorations: IdTable<u32>,
    member_decorations: IdTable<u32>,
    scalar_constants: IdTable<(u32, u32)>,
    types: IdTable<native::TypeRecord>,
    struct_sizes: IdTable<u32>,
    member_sizes: IdTable<u32>,
    buffer_ranges: IdTable<Vec<native::BufferRangeRecord>>,
    spec_constants: Vec<native::SpecializationConstantRecord>,
    wgs_x: native::SpecializationConstantRecord,
    wgs_y: native::SpecializationConstantRecord,
    wgs_z: native::SpecializationConstantRecord,
    resources: ResourceTables,
    active_variables: Vec<u32>,
    automatic_bindings: IdTable<u32>,
    selected_entry_point: Option<(Vec<u8>, native::ExecutionModel)>,
    msl_options: native::MslOptionsRecord,
    received_interface_variables: Vec<native::ShaderInterfaceVariableRecord>,
    received_resource_bindings: Vec<native::ResourceBindingRecord>,
    received_const_samplers: Vec<native::ConstSamplerMappingRecord>,
    output_source: Vec<u8>,
    latest_error: String,
}

/// The ghost value of a selected entry point.
pub open spec fn selected_view(
    s: Option<(Vec<u8>, native::ExecutionModel)>,
) -> Option<(Seq<u8>, native::ExecutionModel)> {
    match s {
        None => None,
        Some((name, model)) => Some((name@, model)),
    }
}

impl View for CompilerInstance {
    type V = InstanceModel;

    /// The instance's ghost state.
    closed spec fn view(&self) -> InstanceModel {
        InstanceModel {
            live: self.live as nat,
            entry_points: seq_view(self.entry_points@),
            names: vmap(self.names@),
            member_names: vmap(self.member_names@),
            decorations: vmap(self.decorations@),
            member_decorations: vmap(self.member_decorations@),
            scalar_constants: vmap(self.scalar_constants@),
            types: vmap(self.types@),
            struct_sizes: vmap(self.struct_sizes@),
            member_sizes: vmap(self.member_sizes@),
            buffer_ranges: vmap(self.buffer_ranges@),
            spec_constants: self.spec_constants@,
            wgs_x: self.wgs_x,
            wgs_y: self.wgs_y,
            wgs_z: self.wgs_z,
            resources: self.resources@,
            active_variables: self.active_variables@,
            automatic_bindings: vmap(self.automatic_bindings@),
            selected_entry_point: selected_view(self.selected_entry_point),
            msl_options: self.msl_options,
            received_interface_variables: self.received_interface_variables@,
            received_resource_bindings: self.received_resource_bindings@,
            received_const_samplers: self.received_const_samplers@,
            output_source: self.output_source@,
            latest_error: self.latest_error@,
        }
    }
}

/// An exact copy of a resource record.
fn copy_resource_record(r: &native::ResourceRecord) -> (c: native::ResourceRecord)
    ensures
        c@ == r@,
{
    native::ResourceRecord {
        id: r.id,
        type_id: r.type_id,
        base_type_id: r.base_type_id,
        name: slice_to_vec(r.name.as_slice()),
    }
}

/// The engine records of a sequence of built-in resource seeds: the public
/// built-in becomes the corresponding native member, never the sentinel.
fn convert_builtin_seeds(seeds: Vec<BuiltInResourceSeed>) -> (r: Vec<
    native::BuiltInResourceRecord,
>)
    ensures
        seq_view(r@) == builtin_seed_views(seeds@),
        builtins_wf(seq_view(r@)),
{
    let ghost all = seeds@;
    let mut seeds = seeds;
    let mut out: Vec<native::BuiltInResourceRecord> = Vec::new();
    while seeds.len() > 0
        invariant
            out@.len() + seeds@.len() == all.len(),
            all =~= all.take(out@.len() as int) + seeds@,
            forall|i: int|
                0 <= i < out@.len() ==> (#[trigger] out@[i])@ == builtin_seed_views(all)[i],
            forall|i: int|
                0 <= i < out@.len() ==> (#[trigger] out@[i]).builtin != native::BuiltIn::Max,
        decreases seeds.len(),
    {
        let ghost done = out@.len() as int;
        let seed = seeds.remove(0);
        proof {
            assert(all[done] == seed);
            spirv::lemma_no_built_in_is_sentinel(Some(seed.builtin));
        }
        let rec = native::BuiltInResourceRecord {
            builtin: spirv::built_in_as_raw(Some(seed.builtin)),
            value_type_id: seed.value_type_id,
            resource: seed.resource,
        };
        out.push(rec);
        proof {
            assert(all.take(done + 1) =~= all.take(done).push(seed));
        }
    }
    proof {
        assert(all.take(out@.len() as int) =~= all);
        assert(seq_view(out@) =~= builtin_seed_views(all));
    }
    out
}

impl CompilerInstance {
    /// An instance with empty tables: what remains while a handle's
    /// instance is temporarily taken out.
    pub(crate) fn empty() -> (inst: CompilerInstance)
        ensures
            inst@ == CompilerInstance::spec_empty_model(),
            inst@.live == 0,
            tables_wf(inst@),
    {
        let inst = CompilerInstance {
            live: 0,
            entry_points: Vec::new(),
            names: IdTable::new(),
            member_names: IdTable::new(),
            decorations: IdTable::new(),
            member_decorations: IdTable::new(),
            scalar_constants: IdTable::new(),
            types: IdTable::new(),
            struct_sizes: IdTable::new(),
            member_sizes: IdTable::new(),
            buffer_ranges: IdTable::new(),
            spec_constants: Vec::new(),
            wgs_x: native::SpecializationConstantRecord { id: 0, constant_id: 0 },
            wgs_y: native::SpecializationConstantRecord { id: 0, constant_id: 0 },
            wgs_z: native::SpecializationConstantRecord { id: 0, constant_id: 0 },
            resources: ResourceTables {
                uniform_buffers: Vec::new(),
                storage_buffers: Vec::new(),
                stage_inputs: Vec::new(),
                stage_outputs: Vec::new(),
                subpass_inputs: Vec::new(),
                storage_images: Vec::new(),
                sampled_images: Vec::new(),
                atomic_counters: Vec::new(),
                acceleration_structures: Vec::new(),
                push_constant_buffers: Vec::new(),
                shader_record_buffers: Vec::new(),
                separate_images: Vec::new(),
                separate_samplers: Vec::new(),
                builtin_inputs: Vec::new(),
                builtin_outputs: Vec::new(),
            },
            active_variables: Vec::new(),
            automatic_bindings: IdTable::new(),
            selected_entry_point: None,
            msl_options: initial_msl_options(),
            received_interface_variables: Vec::new(),
            received_resource_bindings: Vec::new(),
            received_const_samplers: Vec::new(),
            output_source: Vec::new(),
            latest_error: String::new(),
        };
        proof {
            lemma_vmap_empty::<Vec<u8>>();
            lemma_vmap_empty::<u32>();
            lemma_vmap_empty::<(u32, u32)>();
            lemma_vmap_empty::<native::TypeRecord>();
            lemma_vmap_empty::<Vec<native::BufferRangeRecord>>();
            assert(inst@ =~= CompilerInstance::spec_empty_model());
        }
        inst
    }

    /// An instance serving the given reflection tables, with no live
    /// buffers: the instrumented fake engine a test seeds.
    pub fn from_reflection(seed: ModuleReflection) -> (inst: CompilerInstance)
        requires
            seed.wf(),
        ensures
            inst@.live == 0,
            tables_wf(inst@),
            inst@.entry_points == seq_view(seed.entry_points@),
            inst@.names == vmap(assoc_map(seed.names@)),
            inst@.member_names == vmap(assoc_map(seed.member_names@)),
            inst@.decorations == vmap(assoc_map(seed.decorations@)),
            inst@.member_decorations == vmap(assoc_map(seed.member_decorations@)),
            inst@.scalar_constants == Map::<u128, (u32, u32)>::empty(),
            inst@.types == vmap(assoc_map(seed.types@)),
            inst@.struct_sizes == vmap(assoc_map(seed.struct_sizes@)),
            inst@.member_sizes == vmap(assoc_map(seed.member_sizes@)),
            inst@.buffer_ranges == vmap(assoc_map(seed.buffer_ranges@)),
            inst@.spec_constants == seed.spec_constants@,
            inst@.wgs_x == seed.wgs_x,
            inst@.wgs_y == seed.wgs_y,
            inst@.wgs_z == seed.wgs_z,
            inst@.resources.uniform_buffers == seq_view(seed.uniform_buffers@),
            inst@.resources.storage_buffers == seq_view(seed.storage_buffers@),
            inst@.resources.stage_inputs == seq_view(seed.stage_inputs@),
            inst@.resources.stage_outputs == seq_view(seed.stage_outputs@),
            inst@.resources.subpass_inputs == seq_view(seed.subpass_inputs@),
            inst@.resources.storage_images == seq_view(seed.storage_images@),
            inst@.resources.sampled_images == seq_view(seed.sampled_images@),
            inst@.resources.atomic_counters == seq_view(seed.atomic_counters@),
            inst@.resources.acceleration_structures == seq_view(seed.acceleration_structures@),
            inst@.resources.push_constant_buffers == seq_view(seed.push_constant_buffers@),
            inst@.resources.shader_record_buffers == seq_view(seed.shader_record_buffers@),
            inst@.resources.separate_images == seq_view(seed.separate_images@),
            inst@.resources.separate_samplers == seq_view(seed.separate_samplers@),
            inst@.resources.builtin_inputs == builtin_seed_views(seed.builtin_inputs@),
            inst@.resources.builtin_outputs == builtin_seed_views(seed.builtin_outputs@),
            inst@.active_variables == seed.active_variables@,
            inst@.automatic_bindings == vmap(assoc_map(seed.automatic_bindings@)),
            inst@.selected_entry_point is None,
            inst@.msl_options == spec_initial_msl_options(),
            inst@.received_interface_variables == Seq::<
                native::ShaderInterfaceVariableRecord,
            >::empty(),
            inst@.received_resource_bindings == Seq::<native::ResourceBindingRecord>::empty(),
            inst@.received_const_samplers == Seq::<native::ConstSamplerMappingRecord>::empty(),
            inst@.output_source == seed.output_source@,
            inst@.latest_error == Seq::<char>::empty(),
    {
        let ModuleReflection {
            entry_points,
            names,
            member_names,
            decorations,
            member_decorations,
            types,
            struct_sizes,
            member_sizes,
            buffer_ranges,
            automatic_bindings,
            spec_constants,
            wgs_x,
            wgs_y,
            wgs_z,
            uniform_buffers,
            storage_buffers,
            stage_inputs,
            stage_outputs,
            subpass_inputs,
            storage_images,
            sampled_images,
            atomic_counters,
            acceleration_structures,
            push_constant_buffers,
            shader_record_buffers,
            separate_images,
            separate_samplers,
            builtin_inputs,
            builtin_outputs,
            active_variables,
            output_source,
        } = seed;
        let ghost types_seq = types@;
        let builtin_inputs = convert_builtin_seeds(builtin_inputs);
        let builtin_outputs = convert_builtin_seeds(builtin_outputs);
        let types_table = IdTable::from_entries(types);
        let inst = CompilerInstance {
            live: 0,
            entry_points,
            names: IdTable::from_entries(names),
            member_names: IdTable::from_entries(member_names),
            decorations: IdTable::from_entries(decorations),
            member_decorations: IdTable::from_entries(member_decorations),
            scalar_constants: IdTable::new(),
            types: types_table,
            struct_sizes: IdTable::from_entries(struct_sizes),
            member_sizes: IdTable::from_entries(member_sizes),
            buffer_ranges: IdTable::from_entries(buffer_ranges),
            spec_constants,
            wgs_x,
            wgs_y,
            wgs_z,
            resources: ResourceTables {
                uniform_buffers,
                storage_buffers,
                stage_inputs,
                stage_outputs,
                subpass_inputs,
                storage_images,
                sampled_images,
                atomic_counters,
                acceleration_structures,
                push_constant_buffers,
                shader_record_buffers,
                separate_images,
                separate_samplers,
                builtin_inputs,
                builtin_outputs,
            },
            active_variables,
            automatic_bindings: IdTable::from_entries(automatic_bindings),
            selected_entry_point: None,
            msl_options: initial_msl_options(),
            received_interface_variables: Vec::new(),
            received_resource_bindings: Vec::new(),
            received_const_samplers: Vec::new(),
            output_source,
            latest_error: String::new(),
        };
        proof {
            lemma_vmap_empty::<(u32, u32)>();
            assert forall|k: u128| inst@.types.dom().contains(k) implies (
            #[trigger] inst@.types[k]).array.len() == inst@.types[k].array_size_literal.len() by {
                lemma_assoc_dom_index(types_seq, k);
                crate::table::lemma_assoc_map_from_entry(types_seq, k);
            }
        }
        inst
    }

    /// How many out-buffers the instance has handed out and not yet seen
    /// released.  The boundary discipline keeps this at zero between
    /// operations.
    pub fn live_allocations(&self) -> (n: u128)
        ensures
            n as nat == self@.live,
    {
        self.live
    }

    /// Releases one out-buffer of the previous command.
    pub fn free_buffer(&mut self)
        requires
            old(self)@.live >= 1,
        ensures
            final(self)@ == (InstanceModel { live: (old(self)@.live - 1) as nat, ..old(self)@ }),
    {
        self.live = self.live - 1;
    }

    /// The diagnostic message of the latest rejected command.
    pub fn latest_error_message(&self) -> (m: String)
        ensures
            m@ == self@.latest_error,
    {
        self.latest_error.as_str().to_owned()
    }

    /// The argument of a decoration on an identifier; an absent decoration
    /// reads as zero.
    pub fn get_decoration(&self, id: u32, decoration: native::Decoration) -> (r: (
        native::Status,
        u32,
    ))
        ensures
            r.0 == native::Status::Success,
            r.1 == spec_lookup_or(self@.decorations, spec_decoration_key(id, decoration), 0u32),
    {
        let k = decoration_key(id, decoration);
        match self.decorations.get(k) {
            Some(v) => {
                proof {
                    lemma_vmap_index(self.decorations@, k);
                }
                (native::Status::Success, *v)
            },
            None => (native::Status::Success, 0),
        }
    }

    /// Sets the argument of a decoration on an identifier.
    pub fn set_decoration(&mut self, id: u32, decoration: native::Decoration, argument: u32) -> (r:
        native::Status)
        ensures
            r == native::Status::Success,
            final(self)@ == (InstanceModel {
                decorations: old(self)@.decorations.insert(
                    spec_decoration_key(id, decoration),
                    argument,
                ),
                ..old(self)@
            }),
    {
        let k = decoration_key(id, decoration);
        let mut t: IdTable<u32> = IdTable::new();
        core::mem::swap(&mut t, &mut self.decorations);
        t.set(k, argument);
        self.decorations = t;
        proof {
            lemma_vmap_insert(old(self).decorations@, k, argument);
        }
        native::Status::Success
    }

    /// Removes a decoration from an identifier.
    pub fn unset_decoration(&mut self, id: u32, decoration: native::Decoration) -> (r:
        native::Status)
        ensures
            r == native::Status::Success,
            final(self)@ == (InstanceModel {
                decorations: old(self)@.decorations.remove(spec_decoration_key(id, decoration)),
                ..old(self)@
            }),
    {
        let k = decoration_key(id, decoration);
        let mut t: IdTable<u32> = IdTable::new();
        core::mem::swap(&mut t, &mut self.decorations);
        t.remove(k);
        self.decorations = t;
        proof {
            crate::table::lemma_vmap_remove(old(self).decorations@, k);
        }
        native::Status::Success
    }

    /// The argument of a decoration on a struct member; an absent
    /// decoration reads as zero.
    pub fn get_member_decoration(&self, id: u32, index: u32, decoration: native::Decoration) -> (r:
        (native::Status, u32))
        ensures
            r.0 == native::Status::Success,
            r.1 == spec_lookup_or(
                self@.member_decorations,
                spec_member_decoration_key(id, index, decoration),
                0u32,
            ),
    {
        let k = member_decoration_key(id, index, decoration);
        match self.member_decorations.get(k) {
            Some(v) => {
                proof {
                    lemma_vmap_index(self.member_decorations@, k);
                }
                (native::Status::Success, *v)
            },
            None => (native::Status::Success, 0),
        }
    }

    /// Sets the argument of a decoration on a struct member.
    pub fn set_member_decoration(
        &mut self,
        id: u32,
        index: u32,
        decoration: native::Decoration,
        argument: u32,
    ) -> (r: native::Status)
        ensures
            r == native::Status::Success,
            final(self)@ == (InstanceModel {
                member_decorations: old(self)@.member_decorations.insert(
                    spec_member_decoration_key(id, index, decoration),
                    argument,
                ),
                ..old(self)@
            }),
    {
        let k = member_decoration_key(id, index, decoration);
        let mut t: IdTable<u32> = IdTable::new();
        core::mem::swap(&mut t, &mut self.member_decorations);
        t.set(k, argument);
        self.member_decorations = t;
        proof {
            lemma_vmap_insert(old(self).member_decorations@, k, argument);
        }
        native::Status::Success
    }

    /// The name attached to an identifier, as one out-buffer of native
    /// text; an unset name reads as the empty buffer.
    pub fn get_name(&mut self, id: u32) -> (r: (native::Status, Vec<u8>))
        requires
            old(self)@.live == 0,
        ensures
            r.0 == native::Status::Success,
            final(self)@ == (InstanceModel { live: 1, ..old(self)@ }),
            r.1@ == spec_lookup_or(old(self)@.names, spec_id_key(id), Seq::<u8>::empty()),
    {
        let k = id_key(id);
        let bytes = match self.names.get(k) {
            Some(v) => {
                proof {
                    lemma_vmap_index(self.names@, k);
                }
                slice_to_vec(v.as_slice())
            },
            None => Vec::new(),
        };
        self.live = 1;
        (native::Status::Success, bytes)
    }

    /// Stores a name for an identifier.
    pub fn set_name(&mut self, id: u32, name: Vec<u8>) -> (r: native::Status)
        ensures
            r == native::Status::Success,
            final(self)@ == (InstanceModel {
                names: old(self)@.names.insert(spec_id_key(id), name@),
                ..old(self)@
            }),
    {
        let k = id_key(id);
        let ghost bytes = name@;
        let mut t: IdTable<Vec<u8>> = IdTable::new();
        core::mem::swap(&mut t, &mut self.names);
        t.set(k, name);
        self.names = t;
        proof {
            lemma_vmap_insert(old(self).names@, k, old(self).names@.insert(k, name).index(k));
            assert(vmap(self.names@) =~= old(self)@.names.insert(k, bytes));
        }
        native::Status::Success
    }

    /// The name attached to a struct member, as one out-buffer of native
    /// text; an unset name reads as the empty buffer.
    pub fn get_member_name(&mut self, id: u32, index: u32) -> (r: (native::Status, Vec<u8>))
        requires
            old(self)@.live == 0,
        ensures
            r.0 == native::Status::Success,
            final(self)@ == (InstanceModel { live: 1, ..old(self)@ }),
            r.1@ == spec_lookup_or(
                old(self)@.member_names,
                spec_member_key(id, index),
                Seq::<u8>::empty(),
            ),
    {
        let k = member_key(id, index);
        let bytes = match self.member_names.get(k) {
            Some(v) => {
                proof {
                    lemma_vmap_index(self.member_names@, k);
                }
                slice_to_vec(v.as_slice())
            },
            None => Vec::new(),
        };
        self.live = 1;
        (native::Status::Success, bytes)
    }

    /// Stores a name for a struct member.
    pub fn set_member_name(&mut self, id: u32, index: u32, name: Vec<u8>) -> (r: native::Status)
        ensures
            r == native::Status::Success,
            final(self)@ == (InstanceModel {
                member_names: old(self)@.member_names.insert(spec_member_key(id, index), name@),
                ..old(self)@
            }),
    {
        let k = member_key(id, index);
        let ghost bytes = name@;
        let mut t: IdTable<Vec<u8>> = IdTable::new();
        core::mem::swap(&mut t, &mut self.member_names);
        t.set(k, name);
        self.member_names = t;
        proof {
            lemma_vmap_insert(
                old(self).member_names@,
                k,
                old(self).member_names@.insert(k, name).index(k),
            );
            assert(vmap(self.member_names@) =~= old(self)@.member_names.insert(k, bytes));
        }
        native::Status::Success
    }

    /// Overrides a scalar constant with a 64-bit value split into two
    /// 32-bit halves.
    pub fn set_scalar_constant(&mut self, id: u32, high_bits: u32, low_bits: u32) -> (r:
        native::Status)
        ensures
            r == native::Status::Success,
            final(self)@ == (InstanceModel {
                scalar_constants: old(self)@.scalar_constants.insert(
                    spec_id_key(id),
                    (high_bits, low_bits),
                ),
                ..old(self)@
            }),
    {
        let k = id_key(id);
        let mut t: IdTable<(u32, u32)> = IdTable::new();
        core::mem::swap(&mut t, &mut self.scalar_constants);
        t.set(k, (high_bits, low_bits));
        self.scalar_constants = t;
        proof {
            lemma_vmap_insert(old(self).scalar_constants@, k, (high_bits, low_bits));
        }
        native::Status::Success
    }
}

/// The value stored under a key, or the given default.
pub open spec fn spec_lookup_or<V>(m: Map<u128, V>, k: u128, default: V) -> V {
    if m.dom().contains(k) {
        m[k]
    } else {
        default
    }
}

proof fn lemma_assoc_dom_index<V: View>(s: Seq<(u128, V)>, k: u128)
    requires
        vmap(assoc_map(s)).dom().contains(k),
    ensures
        assoc_map(s).dom().contains(k),
        vmap(assoc_map(s))[k] == assoc_map(s)[k]@,
{
}

/// The number of out-buffers one shader-resources query hands out: one
/// array per category and one name buffer per record.
pub open spec fn resources_buffer_count(m: ResourcesModel) -> nat {
    (15 + m.uniform_buffers.len() + m.storage_buffers.len() + m.stage_inputs.len()
        + m.stage_outputs.len() + m.subpass_inputs.len() + m.storage_images.len()
        + m.sampled_images.len() + m.atomic_counters.len() + m.acceleration_structures.len()
        + m.push_constant_buffers.len() + m.shader_record_buffers.len() + m.separate_images.len()
        + m.separate_samplers.len() + m.builtin_inputs.len() + m.builtin_outputs.len()) as nat
}

/// The number of out-buffers one type query hands out on success: the
/// record, plus the member list and the array list where they are not
/// empty, which the engine then does not allocate.
pub open spec fn type_buffer_count(t: native::TypeModel) -> nat {
    (1 + (if t.member_types.len() > 0 {
        1int
    } else {
        0int
    }) + (if t.array.len() > 0 {
        1int
    } else {
        0int
    })) as nat
}

/// Whether the instance knows an entry point with this name and model.
pub open spec fn spec_has_entry_point(
    eps: Seq<native::EntryPointModel>,
    name: Seq<u8>,
    model: native::ExecutionModel,
) -> bool {
    exists|i: int|
        0 <= i < eps.len() && (#[trigger] eps[i]).name == name && eps[i].execution_model == model
}

/// The name table after renaming, in slice order, every resource whose
/// location decoration matches.
pub open spec fn spec_apply_rename(
    names: Map<u128, Seq<u8>>,
    decorations: Map<u128, u32>,
    rs: Seq<native::ResourceModel>,
    location: u32,
    name: Seq<u8>,
) -> Map<u128, Seq<u8>>
    decreases rs.len(),
{
    if rs.len() == 0 {
        names
    } else {
        let renamed = if spec_lookup_or(
            decorations,
            spec_decoration_key(rs[0].id, native::Decoration::Location),
            0u32,
        ) == location {
            names.insert(spec_id_key(rs[0].id), name)
        } else {
            names
        };
        spec_apply_rename(renamed, decorations, rs.drop_first(), location, name)
    }
}

/// An exact copy of an entry point record.
fn copy_entry_point_record(r: &native::EntryPointRecord) -> (c: native::EntryPointRecord)
    ensures
        c@ == r@,
{
    native::EntryPointRecord {
        name: slice_to_vec(r.name.as_slice()),
        execution_model: r.execution_model,
        work_group_size_x: r.work_group_size_x,
        work_group_size_y: r.work_group_size_y,
        work_group_size_z: r.work_group_size_z,
    }
}

/// An exact copy of a resource record list.
fn copy_resource_records(v: &Vec<native::ResourceRecord>) -> (c: Vec<native::ResourceRecord>)
    ensures
        seq_view(c@) == seq_view(v@),
        c@.len() == v@.len(),
{
    let mut out: Vec<native::ResourceRecord> = Vec::new();
    let n = v.len();
    for i in 0..n
        invariant
            n == v@.len(),
            out@.len() == i,
            forall|j: int| 0 <= j < i ==> (#[trigger] out@[j])@ == v@[j]@,
    {
        out.push(copy_resource_record(&v[i]));
    }
    proof {
        assert(seq_view(out@) =~= seq_view(v@));
    }
    out
}

/// An exact copy of a built-in resource record list.
fn copy_builtin_resource_records(v: &Vec<native::BuiltInResourceRecord>) -> (c: Vec<
    native::BuiltInResourceRecord,
>)
    ensures
        seq_view(c@) == seq_view(v@),
        c@.len() == v@.len(),
{
    let mut out: Vec<native::BuiltInResourceRecord> = Vec::new();
    let n = v.len();
    for i in 0..n
        invariant
            n == v@.len(),
            out@.len() == i,
            forall|j: int| 0 <= j < i ==> (#[trigger] out@[j])@ == v@[j]@,
    {
        let r = &v[i];
        out.push(
            native::BuiltInResourceRecord {
                builtin: r.builtin,
                value_type_id: r.value_type_id,
                resource: copy_resource_record(&r.resource),
            },
        );
    }
    proof {
        assert(seq_view(out@) =~= seq_view(v@));
    }
    out
}

/// Whether two byte buffers hold the same bytes.
fn bytes_eq(a: &[u8], b: &[u8]) -> (r: bool)
    ensures
        r == (a@ == b@),
{
    if a.len() != b.len() {
        proof {
            assert(a@.len() != b@.len());
        }
        return false;
    }
    let n = a.len();
    for i in 0..n
        invariant
            n == a@.len(),
            n == b@.len(),
            forall|j: int| 0 <= j < i ==> a@[j] == b@[j],
    {
        if a[i] != b[i] {
            return false;
        }
    }
    proof {
        assert(a@ =~= b@);
    }
    true
}

impl CompilerInstance {
    /// The position of the entry point with this name and model, if any.
    fn find_entry_point(&self, name: &[u8], model: native::ExecutionModel) -> (r: Option<usize>)
        ensures
            r is Some <==> spec_has_entry_point(self@.entry_points, name@, model),
    {
        let n = self.entry_points.len();
        for i in 0..n
            invariant
                n == self.entry_points@.len(),
                forall|j: int|
                    0 <= j < i ==> !((#[trigger] self.entry_points@[j])@.name == name@
                        && self.entry_points@[j]@.execution_model == model),
        {
            let ep = &self.entry_points[i];
            if ep.execution_model == model && bytes_eq(ep.name.as_slice(), name) {
                proof {
                    assert(self@.entry_points[i as int].name == name@);
                }
                return Some(i);
            }
        }
        None
    }

    /// Every entry point of the module, each name one out-buffer of native
    /// text beside the records' own array.
    pub fn get_entry_points(&mut self) -> (r: (native::Status, Vec<native::EntryPointRecord>))
        requires
            old(self)@.live == 0,
        ensures
            r.0 == native::Status::Success,
            final(self)@ == (InstanceModel {
                live: old(self)@.entry_points.len() + 1,
                ..old(self)@
            }),
            seq_view(r.1@) == old(self)@.entry_points,
    {
        let mut out: Vec<native::EntryPointRecord> = Vec::new();
        let n = self.entry_points.len();
        for i in 0..n
            invariant
                n == self.entry_points@.len(),
                out@.len() == i,
                forall|j: int| 0 <= j < i ==> (#[trigger] out@[j])@ == self.entry_points@[j]@,
        {
            out.push(copy_entry_point_record(&self.entry_points[i]));
        }
        self.live = (n as u128) + 1;
        proof {
            assert(seq_view(out@) =~= seq_view(self.entry_points@));
        }
        (native::Status::Success, out)
    }

    /// Every specialization constant of the module, as one out-buffer.
    pub fn get_specialization_constants(&mut self) -> (r: (
        native::Status,
        Vec<native::SpecializationConstantRecord>,
    ))
        requires
            old(self)@.live == 0,
        ensures
            r.0 == native::Status::Success,
            final(self)@ == (InstanceModel { live: 1, ..old(self)@ }),
            r.1@ == old(self)@.spec_constants,
    {
        let out = slice_to_vec(self.spec_constants.as_slice());
        self.live = 1;
        (native::Status::Success, out)
    }

    /// The three work-group-size specialization constants, as one
    /// out-buffer.
    pub fn get_work_group_size_specialization_constants(&mut self) -> (r: (
        native::Status,
        native::SpecializationConstantRecord,
        native::SpecializationConstantRecord,
        native::SpecializationConstantRecord,
    ))
        requires
            old(self)@.live == 0,
        ensures
            r.0 == native::Status::Success,
            final(self)@ == (InstanceModel { live: 1, ..old(self)@ }),
            r.1 == old(self)@.wgs_x,
            r.2 == old(self)@.wgs_y,
            r.3 == old(self)@.wgs_z,
    {
        self.live = 1;
        (native::Status::Success, self.wgs_x, self.wgs_y, self.wgs_z)
    }

    /// The buffer ranges a buffer's members statically use, as one
    /// out-buffer; a buffer the module does not reach reads as empty.
    pub fn get_active_buffer_ranges(&mut self, id: u32) -> (r: (
        native::Status,
        Vec<native::BufferRangeRecord>,
    ))
        requires
            old(self)@.live == 0,
        ensures
            r.0 == native::Status::Success,
            final(self)@ == (InstanceModel { live: 1, ..old(self)@ }),
            r.1@ == spec_lookup_or(
                old(self)@.buffer_ranges,
                spec_id_key(id),
                Seq::<native::BufferRangeRecord>::empty(),
            ),
    {
        let k = id_key(id);
        let out = match self.buffer_ranges.get(k) {
            Some(v) => {
                proof {
                    lemma_vmap_index(self.buffer_ranges@, k);
                }
                slice_to_vec(v.as_slice())
            },
            None => Vec::new(),
        };
        self.live = 1;
        (native::Status::Success, out)
    }

    /// The declared byte size of a buffer block; an identifier without one
    /// is rejected.
    pub fn get_declared_struct_size(&mut self, id: u32) -> (r: (native::Status, u32))
        ensures
            old(self)@.struct_sizes.dom().contains(spec_id_key(id)) ==> r.0
                == native::Status::Success && r.1 == old(self)@.struct_sizes[spec_id_key(id)]
                && final(self)@ == old(self)@,
            !old(self)@.struct_sizes.dom().contains(spec_id_key(id)) ==> r.0
                == native::Status::CompilationError && r.1 == 0 && final(self)@ == (InstanceModel {
                latest_error: "no declared struct size for the identifier"@,
                ..old(self)@
            }),
    {
        let k = id_key(id);
        match self.struct_sizes.get(k) {
            Some(v) => {
                proof {
                    lemma_vmap_index(self.struct_sizes@, k);
                }
                (native::Status::Success, *v)
            },
            None => {
                self.latest_error = "no declared struct size for the identifier".to_owned();
                (native::Status::CompilationError, 0)
            },
        }
    }

    /// The declared byte size of one member of a buffer block; a member
    /// without one is rejected.
    pub fn get_declared_struct_member_size(&mut self, id: u32, index: u32) -> (r: (
        native::Status,
        u32,
    ))
        ensures
            old(self)@.member_sizes.dom().contains(spec_member_key(id, index)) ==> r.0
                == native::Status::Success && r.1 == old(self)@.member_sizes[spec_member_key(
                id,
                index,
            )] && final(self)@ == old(self)@,
            !old(self)@.member_sizes.dom().contains(spec_member_key(id, index)) ==> r.0
                == native::Status::CompilationError && r.1 == 0 && final(self)@ == (InstanceModel {
                latest_error: "no declared struct size for the member"@,
                ..old(self)@
            }),
    {
        let k = member_key(id, index);
        match self.member_sizes.get(k) {
            Some(v) => {
                proof {
                    lemma_vmap_index(self.member_sizes@, k);
                }
                (native::Status::Success, *v)
            },
            None => {
                self.latest_error = "no declared struct size for the member".to_owned();
                (native::Status::CompilationError, 0)
            },
        }
    }

    /// The automatically assigned resource binding of an identifier; one
    /// the backend did not assign reads as the all-ones index.
    pub fn get_automatic_resource_binding(&self, id: u32) -> (r: (native::Status, u32))
        ensures
            r.0 == native::Status::Success,
            r.1 == spec_lookup_or(self@.automatic_bindings, spec_id_key(id), 0xFFFF_FFFFu32),
    {
        let k = id_key(id);
        match self.automatic_bindings.get(k) {
            Some(v) => {
                proof {
                    lemma_vmap_index(self.automatic_bindings@, k);
                }
                (native::Status::Success, *v)
            },
            None => (native::Status::Success, 0xFFFF_FFFF),
        }
    }

    /// The identifiers of the interface variables the module actually
    /// uses, as one out-buffer.
    pub fn get_active_interface_variables(&mut self) -> (r: (native::Status, Vec<u32>))
        requires
            old(self)@.live == 0,
        ensures
            r.0 == native::Status::Success,
            final(self)@ == (InstanceModel { live: 1, ..old(self)@ }),
            r.1@ == old(self)@.active_variables,
    {
        let out = slice_to_vec(self.active_variables.as_slice());
        self.live = 1;
        (native::Status::Success, out)
    }

    /// The type record of an identifier, as up to three out-buffers; an
    /// identifier without a type record is rejected.
    pub fn get_type(&mut self, id: u32) -> (r: (native::Status, Option<native::TypeRecord>))
        requires
            old(self)@.live == 0,
        ensures
            old(self)@.types.dom().contains(spec_id_key(id)) ==> {
                &&& r.0 == native::Status::Success
                &&& r.1 matches Some(rec) && rec@ == old(self)@.types[spec_id_key(id)]
                &&& final(self)@ == (InstanceModel {
                    live: type_buffer_count(old(self)@.types[spec_id_key(id)]),
                    ..old(self)@
                })
            },
            !old(self)@.types.dom().contains(spec_id_key(id)) ==> {
                &&& r.0 == native::Status::CompilationError
                &&& r.1 is None
                &&& final(self)@ == (InstanceModel {
                    latest_error: "no type for the identifier"@,
                    ..old(self)@
                })
            },
    {
        let k = id_key(id);
        match self.types.get(k) {
            Some(t) => {
                proof {
                    lemma_vmap_index(self.types@, k);
                }
                let rec = native::TypeRecord {
                    base_type: t.base_type,
                    vecsize: t.vecsize,
                    columns: t.columns,
                    member_types: slice_to_vec(t.member_types.as_slice()),
                    array: slice_to_vec(t.array.as_slice()),
                    array_size_literal: slice_to_vec(t.array_size_literal.as_slice()),
                    image: t.image,
                };
                let mut count: u128 = 1;
                if rec.member_types.len() > 0 {
                    count = count + 1;
                }
                if rec.array.len() > 0 {
                    count = count + 1;
                }
                self.live = count;
                (native::Status::Success, Some(rec))
            },
            None => {
                self.latest_error = "no type for the identifier".to_owned();
                (native::Status::CompilationError, None)
            },
        }
    }

    /// All fifteen categories of shader resources, as one out-buffer per
    /// category array and one per record name.
    pub fn get_shader_resources(&mut self) -> (r: (native::Status, ResourceTables))
        requires
            old(self)@.live == 0,
        ensures
            r.0 == native::Status::Success,
            final(self)@ == (InstanceModel {
                live: resources_buffer_count(old(self)@.resources),
                ..old(self)@
            }),
            r.1@ == old(self)@.resources,
    {
        let t = &self.resources;
        let out = ResourceTables {
            uniform_buffers: copy_resource_records(&t.uniform_buffers),
            storage_buffers: copy_resource_records(&t.storage_buffers),
            stage_inputs: copy_resource_records(&t.stage_inputs),
            stage_outputs: copy_resource_records(&t.stage_outputs),
            subpass_inputs: copy_resource_records(&t.subpass_inputs),
            storage_images: copy_resource_records(&t.storage_images),
            sampled_images: copy_resource_records(&t.sampled_images),
            atomic_counters: copy_resource_records(&t.atomic_counters),
            acceleration_structures: copy_resource_records(&t.acceleration_structures),
            push_constant_buffers: copy_resource_records(&t.push_constant_buffers),
            shader_record_buffers: copy_resource_records(&t.shader_record_buffers),
            separate_images: copy_resource_records(&t.separate_images),
            separate_samplers: copy_resource_records(&t.separate_samplers),
            builtin_inputs: copy_builtin_resource_records(&t.builtin_inputs),
            builtin_outputs: copy_builtin_resource_records(&t.builtin_outputs),
        };
        let count: u128 = 15 + (self.resources.uniform_buffers.len() as u128) + (
        self.resources.storage_buffers.len() as u128) + (self.resources.stage_inputs.len()
            as u128) + (self.resources.stage_outputs.len() as u128) + (
        self.resources.subpass_inputs.len() as u128) + (self.resources.storage_images.len()
            as u128) + (self.resources.sampled_images.len() as u128) + (
        self.resources.atomic_counters.len() as u128) + (
        self.resources.acceleration_structures.len() as u128) + (
        self.resources.push_constant_buffers.len() as u128) + (
        self.resources.shader_record_buffers.len() as u128) + (
        self.resources.separate_images.len() as u128) + (self.resources.separate_samplers.len()
            as u128) + (self.resources.builtin_inputs.len() as u128) + (
        self.resources.builtin_outputs.len() as u128);
        self.live = count;
        (native::Status::Success, out)
    }

    /// The name under which the backend emits an entry point, as one
    /// out-buffer; the model engine emits entry points under their own
    /// names.  An entry point the module does not have is rejected.
    pub fn get_cleansed_entry_point_name(
        &mut self,
        name: &[u8],
        model: native::ExecutionModel,
    ) -> (r: (native::Status, Vec<u8>))
        requires
            old(self)@.live == 0,
        ensures
            spec_has_entry_point(old(self)@.entry_points, name@, model) ==> {
                &&& r.0 == native::Status::Success
                &&& r.1@ == name@
                &&& final(self)@ == (InstanceModel { live: 1, ..old(self)@ })
            },
            !spec_has_entry_point(old(self)@.entry_points, name@, model) ==> {
                &&& r.0 == native::Status::CompilationError
                &&& final(self)@ == (InstanceModel {
                    latest_error: "entry point not found"@,
                    ..old(self)@
                })
            },
    {
        match self.find_entry_point(name, model) {
            Some(_) => {
                let out = slice_to_vec(name);
                self.live = 1;
                (native::Status::Success, out)
            },
            None => {
                self.latest_error = "entry point not found".to_owned();
                (native::Status::CompilationError, Vec::new())
            },
        }
    }

    /// Selects the entry point later commands and compilation apply to; an
    /// entry point the module does not have is rejected.
    pub fn set_entry_point(&mut self, name: Vec<u8>, model: native::ExecutionModel) -> (r:
        native::Status)
        ensures
            spec_has_entry_point(old(self)@.entry_points, name@, model) ==> r
                == native::Status::Success && final(self)@ == (InstanceModel {
                selected_entry_point: Some((name@, model)),
                ..old(self)@
            }),
            !spec_has_entry_point(old(self)@.entry_points, name@, model) ==> r
                == native::Status::CompilationError && final(self)@ == (InstanceModel {
                latest_error: "entry point not found"@,
                ..old(self)@
            }),
    {
        match self.find_entry_point(name.as_slice(), model) {
            Some(_) => {
                self.selected_entry_point = Some((name, model));
                native::Status::Success
            },
            None => {
                self.latest_error = "entry point not found".to_owned();
                native::Status::CompilationError
            },
        }
    }

    /// Stores the backend configuration record later compilation uses.
    pub fn msl_set_options(&mut self, options: native::MslOptionsRecord) -> (r: native::Status)
        ensures
            r == native::Status::Success,
            final(self)@ == (InstanceModel { msl_options: options, ..old(self)@ }),
    {
        self.msl_options = options;
        native::Status::Success
    }

    /// Whether the stored configuration disables rasterization.
    pub fn msl_get_is_rasterization_disabled(&self) -> (r: (native::Status, bool))
        ensures
            r.0 == native::Status::Success,
            r.1 == self@.msl_options.disable_rasterization,
    {
        (native::Status::Success, self.msl_options.disable_rasterization)
    }

    /// Compiles the module under the stored configuration and the three
    /// flattened override arrays, and returns the emitted source as one
    /// out-buffer.  The instance records the arrays it received.
    pub fn msl_compile(
        &mut self,
        interface_variables: &Vec<native::ShaderInterfaceVariableRecord>,
        resource_bindings: &Vec<native::ResourceBindingRecord>,
        const_samplers: &Vec<native::ConstSamplerMappingRecord>,
    ) -> (r: (native::Status, Vec<u8>))
        requires
            old(self)@.live == 0,
        ensures
            r.0 == native::Status::Success,
            final(self)@ == (InstanceModel {
                live: 1,
                received_interface_variables: interface_variables@,
                received_resource_bindings: resource_bindings@,
                received_const_samplers: const_samplers@,
                ..old(self)@
            }),
            r.1@ == old(self)@.output_source,
    {
        self.received_interface_variables = slice_to_vec(interface_variables.as_slice());
        self.received_resource_bindings = slice_to_vec(resource_bindings.as_slice());
        self.received_const_samplers = slice_to_vec(const_samplers.as_slice());
        let out = slice_to_vec(self.output_source.as_slice());
        self.live = 1;
        (native::Status::Success, out)
    }

    /// The arrays the last compile command received, for an instrumented
    /// harness to inspect.
    pub fn received_overrides(&self) -> (r: (
        Vec<native::ShaderInterfaceVariableRecord>,
        Vec<native::ResourceBindingRecord>,
        Vec<native::ConstSamplerMappingRecord>,
    ))
        ensures
            r.0@ == self@.received_interface_variables,
            r.1@ == self@.received_resource_bindings,
            r.2@ == self@.received_const_samplers,
    {
        (
            slice_to_vec(self.received_interface_variables.as_slice()),
            slice_to_vec(self.received_resource_bindings.as_slice()),
            slice_to_vec(self.received_const_samplers.as_slice()),
        )
    }

    /// Renames, in slice order, every resource of the slice whose location
    /// decoration matches the given location.
    pub fn rename_interface_variable(
        &mut self,
        resources: &Vec<native::ResourceRecord>,
        location: u32,
        name: &[u8],
    ) -> (r: native::Status)
        ensures
            r == native::Status::Success,
            final(self)@ == (InstanceModel {
                names: spec_apply_rename(
                    old(self)@.names,
                    old(self)@.decorations,
                    seq_view(resources@),
                    location,
                    name@,
                ),
                ..old(self)@
            }),
    {
        let n = resources.len();
        let ghost rs = seq_view(resources@);
        let ghost decorations = self@.decorations;
        let ghost target = spec_apply_rename(self@.names, decorations, rs, location, name@);
        proof {
            assert(rs.skip(0) =~= rs);
        }
        for i in 0..n
            invariant
                n == resources@.len(),
                rs == seq_view(resources@),
                decorations == self@.decorations,
                target == spec_apply_rename(
                    self@.names,
                    decorations,
                    rs.skip(i as int),
                    location,
                    name@,
                ),
                self@ == (InstanceModel { names: self@.names, ..old(self)@ }),
        {
            let ghost before = self@.names;
            let r = &resources[i];
            proof {
                assert(rs[i as int] == resources@[i as int]@);
            }
            let (_, argument) = self.get_decoration(r.id, native::Decoration::Location);
            if argument == location {
                let k = id_key(r.id);
                let bytes = slice_to_vec(name);
                let ghost bytes_v = bytes;
                let ghost table_before = self.names@;
                let mut t: IdTable<Vec<u8>> = IdTable::new();
                core::mem::swap(&mut t, &mut self.names);
                t.set(k, bytes);
                self.names = t;
                proof {
                    lemma_vmap_insert(table_before, k, bytes_v);
                }
            }
            proof {
                assert(rs.skip(i as int)[0] == rs[i as int]);
                assert(rs.skip(i as int).drop_first() =~= rs.skip(i as int + 1));
            }
        }
        proof {
            assert(rs.skip(n as int) =~= Seq::<native::ResourceModel>::empty());
        }
        native::Status::Success
    }
}

/// The magic number that opens a module's words.
pub open spec fn spec_module_magic() -> u32 {
    0x0723_0203
}

/// The operand count of an instruction word, including the word itself.
pub open spec fn spec_word_count(w: u32) -> u32 {
    w / 0x1_0000
}

/// The opcode of an instruction word.
pub open spec fn spec_opcode(w: u32) -> u32 {
    w % 0x1_0000
}

/// Byte `j` of a word, lowest byte first, as a module's words pack
/// literal strings.
pub open spec fn spec_word_byte(w: u32, j: int) -> u8
    recommends
        0 <= j < 4,
{
    if j == 0 {
        (w % 256) as u8
    } else if j == 1 {
        ((w / 256) % 256) as u8
    } else if j == 2 {
        ((w / 0x1_0000) % 256) as u8
    } else {
        (w / 0x100_0000) as u8
    }
}

/// Byte `n` of the byte stream that the words from index `s` on carry.
pub open spec fn spec_byte_at(w: Seq<u32>, s: int, n: int) -> u8 {
    spec_word_byte(w[s + n / 4], n % 4)
}

/// The position of the first zero byte carried by the words in `[s, e)`,
/// from byte `n` on.
pub open spec fn spec_nul_pos(w: Seq<u32>, s: int, e: int, n: int) -> Option<int>
    decreases 4 * (e - s) - n,
    when n >= 0
{
    if n >= 4 * (e - s) {
        None
    } else if spec_byte_at(w, s, n) == 0 {
        Some(n)
    } else {
        spec_nul_pos(w, s, e, n + 1)
    }
}

/// The literal string carried by the words in `[s, e)`: the bytes before
/// the terminator, which must lie within the range.
pub open spec fn spec_string_bytes(w: Seq<u32>, s: int, e: int) -> Option<Seq<u8>> {
    match spec_nul_pos(w, s, e, 0) {
        None => None,
        Some(p) => Some(Seq::new(p as nat, |n: int| spec_byte_at(w, s, n))),
    }
}

/// The entry point an instruction at `i` declares, if it is well formed:
/// a known execution model and a terminated name.  A model that scans no
/// execution modes reports a zero work group size.
pub open spec fn spec_entry_point_of(w: Seq<u32>, i: int) -> Option<native::EntryPointModel> {
    let wc = spec_word_count(w[i]) as int;
    if wc < 4 {
        None
    } else {
        match native::spec_execution_model_from_number(w[i + 1]) {
            None => None,
            Some(model) => match spec_string_bytes(w, i + 3, i + wc) {
                None => None,
                Some(name) => Some(
                    native::EntryPointModel {
                        name: name,
                        execution_model: model,
                        work_group_size_x: 0,
                        work_group_size_y: 0,
                        work_group_size_z: 0,
                    },
                ),
            },
        }
    }
}

/// The entry points declared from word `i` on, in declaration order, or
/// nothing if the instruction stream or an entry point instruction is
/// malformed.
pub open spec fn spec_scan_entry_points(w: Seq<u32>, i: int) -> Option<
    Seq<native::EntryPointModel>,
>
    decreases w.len() - i,
    when i >= 0
{
    if i >= w.len() {
        Some(Seq::empty())
    } else {
        let wc = spec_word_count(w[i]) as int;
        if wc < 1 || i + wc > w.len() {
            None
        } else {
            let rest = spec_scan_entry_points(w, i + wc);
            if spec_opcode(w[i]) == 15 {
                match spec_entry_point_of(w, i) {
                    None => None,
                    Some(ep) => match rest {
                        None => None,
                        Some(eps) => Some(seq![ep] + eps),
                    },
                }
            } else {
                rest
            }
        }
    }
}

/// Whether the words form a module the engine accepts: the magic header
/// and a well-formed instruction stream.
pub open spec fn spec_module_ok(w: Seq<u32>) -> bool {
    &&& w.len() >= 5
    &&& w[0] == spec_module_magic()
    &&& spec_scan_entry_points(w, 5) is Some
}

/// Byte `j` of a word, lowest byte first.
fn word_byte(w: u32, j: usize) -> (b: u8)
    requires
        j < 4,
    ensures
        b == spec_word_byte(w, j as int),
{
    if j == 0 {
        (w % 256) as u8
    } else if j == 1 {
        ((w / 256) % 256) as u8
    } else if j == 2 {
        ((w / 0x1_0000) % 256) as u8
    } else {
        (w / 0x100_0000) as u8
    }
}

/// The literal string carried by the words in `[s, e)`, or nothing if no
/// terminator lies within the range.
fn read_literal_string(words: &[u32], s: usize, e: usize) -> (r: Option<Vec<u8>>)
    requires
        s <= e <= words@.len(),
        e - s < 0x2_0000,
    ensures
        match r {
            Some(v) => spec_string_bytes(words@, s as int, e as int) == Some(v@),
            None => spec_string_bytes(words@, s as int, e as int) is None,
        },
{
    let total = (e - s) * 4;
    let mut out: Vec<u8> = Vec::new();
    let mut n: usize = 0;
    while n < total
        invariant
            s <= e <= words@.len(),
            total == 4 * (e - s),
            n <= total,
            out@.len() == n,
            forall|m: int| 0 <= m < n ==> spec_byte_at(words@, s as int, m) != 0,
            forall|m: int| 0 <= m < n ==> out@[m] == spec_byte_at(words@, s as int, m),
            spec_nul_pos(words@, s as int, e as int, 0) == spec_nul_pos(
                words@,
                s as int,
                e as int,
                n as int,
            ),
        decreases total - n,
    {
        let b = word_byte(words[s + n / 4], n % 4);
        proof {
            assert(b == spec_byte_at(words@, s as int, n as int));
        }
        if b == 0 {
            proof {
                assert(spec_nul_pos(words@, s as int, e as int, n as int) == Some(n as int));
                assert(Seq::new(n as nat, |m: int| spec_byte_at(words@, s as int, m)) =~= out@);
            }
            return Some(out);
        }
        out.push(b);
        n = n + 1;
    }
    proof {
        assert(spec_nul_pos(words@, s as int, e as int, n as int) is None);
    }
    None
}

impl CompilerInstance {
    /// An instance created from a module's words: the header is checked,
    /// the instruction stream is walked, and the entry points are
    /// extracted; every other table starts empty.  Malformed words are
    /// rejected with a diagnostic message.
    pub fn create_from_words(words: &[u32]) -> (r: Result<CompilerInstance, String>)
        ensures
            match r {
                Ok(inst) => {
                    &&& spec_module_ok(words@)
                    &&& inst@.live == 0
                    &&& tables_wf(inst@)
                    &&& Some(inst@.entry_points) == spec_scan_entry_points(words@, 5)
                    &&& inst@ == (InstanceModel {
                        live: 0,
                        entry_points: inst@.entry_points,
                        ..CompilerInstance::spec_empty_model()
                    })
                },
                Err(m) => {
                    &&& !spec_module_ok(words@)
                    &&& m@ == "invalid SPIR-V module"@
                },
            },
    {
        if words.len() < 5 {
            return Err("invalid SPIR-V module".to_owned());
        }
        if words[0] != 0x0723_0203u32 {
            return Err("invalid SPIR-V module".to_owned());
        }
        let ghost target = spec_scan_entry_points(words@, 5);
        let mut eps: Vec<native::EntryPointRecord> = Vec::new();
        let mut i: usize = 5;
        let n = words.len();
        while i < n
            invariant
                5 <= i <= n,
                n == words@.len(),
                target == spec_scan_entry_points(words@, 5),
                match spec_scan_entry_points(words@, i as int) {
                    Some(rest) => target matches Some(all) && all == seq_view(eps@) + rest,
                    None => target is None,
                },
            decreases n - i,
        {
            let instr = words[i];
            let wc = (instr / 0x1_0000) as usize;
            let op = instr % 0x1_0000;
            proof {
                assert(spec_word_count(words@[i as int]) as int == wc as int);
                assert(spec_opcode(words@[i as int]) == op);
            }
            if wc < 1 || wc > n - i {
                proof {
                    assert(spec_scan_entry_points(words@, i as int) is None);
                }
                return Err("invalid SPIR-V module".to_owned());
            }
            if op == 15 {
                if wc < 4 {
                    proof {
                        assert(spec_entry_point_of(words@, i as int) is None);
                        assert(spec_scan_entry_points(words@, i as int) is None);
                    }
                    return Err("invalid SPIR-V module".to_owned());
                }
                let model = match native::execution_model_from_number(words[i + 1]) {
                    Some(m) => m,
                    None => {
                        proof {
                            assert(spec_entry_point_of(words@, i as int) is None);
                            assert(spec_scan_entry_points(words@, i as int) is None);
                        }
                        return Err("invalid SPIR-V module".to_owned());
                    },
                };
                let name = match read_literal_string(words, i + 3, i + wc) {
                    Some(v) => v,
                    None => {
                        proof {
                            assert(spec_entry_point_of(words@, i as int) is None);
                            assert(spec_scan_entry_points(words@, i as int) is None);
                        }
                        return Err("invalid SPIR-V module".to_owned());
                    },
                };
                let rec = native::EntryPointRecord {
                    name,
                    execution_model: model,
                    work_group_size_x: 0,
                    work_group_size_y: 0,
                    work_group_size_z: 0,
                };
                let ghost before = seq_view(eps@);
                eps.push(rec);
                proof {
                    let rest = spec_scan_entry_points(words@, i + wc);
                    assert(spec_entry_point_of(words@, i as int) == Some(rec@));
                    assert(seq_view(eps@) =~= before.push(rec@));
                    if rest is Some {
                        assert(seq_view(eps@) + rest.unwrap() =~= before + (seq![rec@]
                            + rest.unwrap()));
                    }
                }
            }
            i = i + wc;
        }
        let mut inst = CompilerInstance::empty();
        inst.entry_points = eps;
        proof {
            assert(spec_scan_entry_points(words@, n as int) == Some(
                Seq::<native::EntryPointModel>::empty(),
            ));
            assert(seq_view(eps@) + Seq::<native::EntryPointModel>::empty() =~= seq_view(eps@));
            assert(inst@ =~= (InstanceModel {
                live: 0,
                entry_points: seq_view(eps@),
                ..CompilerInstance::spec_empty_model()
            }));
        }
        Ok(inst)
    }

    /// The ghost state of an instance with empty tables.
    pub open spec fn spec_empty_model() -> InstanceModel {
        InstanceModel {
            live: 0,
            entry_points: Seq::empty(),
            names: Map::empty(),
            member_names: Map::empty(),
            decorations: Map::empty(),
            member_decorations: Map::empty(),
            scalar_constants: Map::empty(),
            types: Map::empty(),
            struct_sizes: Map::empty(),
            member_sizes: Map::empty(),
            buffer_ranges: Map::empty(),
            spec_constants: Seq::empty(),
            wgs_x: native::SpecializationConstantRecord { id: 0, constant_id: 0 },
            wgs_y: native::SpecializationConstantRecord { id: 0, constant_id: 0 },
            wgs_z: native::SpecializationConstantRecord { id: 0, constant_id: 0 },
            resources: ResourcesModel {
                uniform_buffers: Seq::empty(),
                storage_buffers: Seq::empty(),
                stage_inputs: Seq::empty(),
                stage_outputs: Seq::empty(),
                subpass_inputs: Seq::empty(),
                storage_images: Seq::empty(),
                sampled_images: Seq::empty(),
                atomic_counters: Seq::empty(),
                acceleration_structures: Seq::empty(),
                push_constant_buffers: Seq::empty(),
                shader_record_buffers: Seq::empty(),
                separate_images: Seq::empty(),
                separate_samplers: Seq::empty(),
                builtin_inputs: Seq::empty(),
                builtin_outputs: Seq::empty(),
            },
            active_variables: Seq::empty(),
            automatic_bindings: Map::empty(),
            selected_entry_point: None,
            msl_options: spec_initial_msl_options(),
            received_interface_variables: Seq::empty(),
            received_resource_bindings: Seq::empty(),
            received_const_samplers: Seq::empty(),
            output_source: Seq::empty(),
            latest_error: Seq::empty(),
        }
    }
}

} // verus!
