//! The native engine's vocabulary: the status code of every boundary
//! command, the engine-side enumerations (including the sentinel-carrying
//! built-in enumeration), and the record shapes in which the engine hands
//! out and accepts variable-size reflection data.
//!
//! Values of these types are exactly what crosses the engine boundary;
//! the owned, public data model built from them lives in [`crate::spirv`].

use vstd::prelude::*;

verus! {

/// The status code every boundary command returns.
#[derive(Copy, Clone, Debug, PartialEq, Eq, Structural)]
pub enum Status {
    /// The command completed; its out-parameters are meaningful.
    Success,
    /// The engine rejected the input or configuration; a diagnostic message
    /// is available from the instance.
    CompilationError,
    /// An unclassified failure.
    Unhandled,
}

/// A shader stage or compute kernel, in the engine's vocabulary.
#[derive(Copy, Clone, Debug, Hash, PartialEq, Eq, PartialOrd, Ord, Structural)]
pub enum ExecutionModel {
    Vertex,
    TessellationControl,
    TessellationEvaluation,
    Geometry,
    Fragment,
    GlCompute,
    Kernel,
    TaskNv,
    MeshNv,
    RayGenerationKhr,
    IntersectionKhr,
    AnyHitKhr,
    ClosestHitKhr,
    MissKhr,
    CallableKhr,
    TaskExt,
    MeshExt,
}

/// The number a module's words use for an execution model.
pub open spec fn spec_execution_model_number(m: ExecutionModel) -> u32 {
    match m {
        ExecutionModel::Vertex => 0,
        ExecutionModel::TessellationControl => 1,
        ExecutionModel::TessellationEvaluation => 2,
        ExecutionModel::Geometry => 3,
        ExecutionModel::Fragment => 4,
        ExecutionModel::GlCompute => 5,
        ExecutionModel::Kernel => 6,
        ExecutionModel::TaskNv => 5267,
        ExecutionModel::MeshNv => 5268,
        ExecutionModel::RayGenerationKhr => 5313,
        ExecutionModel::IntersectionKhr => 5314,
        ExecutionModel::AnyHitKhr => 5315,
        ExecutionModel::ClosestHitKhr => 5316,
        ExecutionModel::MissKhr => 5317,
        ExecutionModel::CallableKhr => 5318,
        ExecutionModel::TaskExt => 5364,
        ExecutionModel::MeshExt => 5365,
    }
}

/// The number a module's words use for an execution model.
pub fn execution_model_number(m: ExecutionModel) -> (n: u32)
    ensures
        n == spec_execution_model_number(m),
{
    match m {
        ExecutionModel::Vertex => 0,
        ExecutionModel::TessellationControl => 1,
        ExecutionModel::TessellationEvaluation => 2,
        ExecutionModel::Geometry => 3,
        ExecutionModel::Fragment => 4,
        ExecutionModel::GlCompute => 5,
        ExecutionModel::Kernel => 6,
        ExecutionModel::TaskNv => 5267,
        ExecutionModel::MeshNv => 5268,
        ExecutionModel::RayGenerationKhr => 5313,
        ExecutionModel::IntersectionKhr => 5314,
        ExecutionModel::AnyHitKhr => 5315,
        ExecutionModel::ClosestHitKhr => 5316,
        ExecutionModel::MissKhr => 5317,
        ExecutionModel::CallableKhr => 5318,
        ExecutionModel::TaskExt => 5364,
        ExecutionModel::MeshExt => 5365,
    }
}

/// The execution model named by a number in a module's words, if any.
pub open spec fn spec_execution_model_from_number(n: u32) -> Option<ExecutionModel> {
    if n == 0 {
        Some(ExecutionModel::Vertex)
    } else if n == 1 {
        Some(ExecutionModel::TessellationControl)
    } else if n == 2 {
        Some(ExecutionModel::TessellationEvaluation)
    } else if n == 3 {
        Some(ExecutionModel::Geometry)
    } else if n == 4 {
        Some(ExecutionModel::Fragment)
    } else if n == 5 {
        Some(ExecutionModel::GlCompute)
    } else if n == 6 {
        Some(ExecutionModel::Kernel)
    } else if n == 5267 {
        Some(ExecutionModel::TaskNv)
    } else if n == 5268 {
        Some(ExecutionModel::MeshNv)
    } else if n == 5313 {
        Some(ExecutionModel::RayGenerationKhr)
    } else if n == 5314 {
        Some(ExecutionModel::IntersectionKhr)
    } else if n == 5315 {
        Some(ExecutionModel::AnyHitKhr)
    } else if n == 5316 {
        Some(ExecutionModel::ClosestHitKhr)
    } else if n == 5317 {
        Some(ExecutionModel::MissKhr)
    } else if n == 5318 {
        Some(ExecutionModel::CallableKhr)
    } else if n == 5364 {
        Some(ExecutionModel::TaskExt)
    } else if n == 5365 {
        Some(ExecutionModel::MeshExt)
    } else {
        None
    }
}

/// The execution model named by a number in a module's words, if any.
pub fn execution_model_from_number(n: u32) -> (r: Option<ExecutionModel>)
    ensures
        r == spec_execution_model_from_number(n),
{
    if n == 0 {
        Some(ExecutionModel::Vertex)
    } else if n == 1 {
        Some(ExecutionModel::TessellationControl)
    } else if n == 2 {
        Some(ExecutionModel::TessellationEvaluation)
    } else if n == 3 {
        Some(ExecutionModel::Geometry)
    } else if n == 4 {
        Some(ExecutionModel::Fragment)
    } else if n == 5 {
        Some(ExecutionModel::GlCompute)
    } else if n == 6 {
        Some(ExecutionModel::Kernel)
    } else if n == 5267 {
        Some(ExecutionModel::TaskNv)
    } else if n == 5268 {
        Some(ExecutionModel::MeshNv)
    } else if n == 5313 {
        Some(ExecutionModel::RayGenerationKhr)
    } else if n == 5314 {
        Some(ExecutionModel::IntersectionKhr)
    } else if n == 5315 {
        Some(ExecutionModel::AnyHitKhr)
    } else if n == 5316 {
        Some(ExecutionModel::ClosestHitKhr)
    } else if n == 5317 {
        Some(ExecutionModel::MissKhr)
    } else if n == 5318 {
        Some(ExecutionModel::CallableKhr)
    } else if n == 5364 {
        Some(ExecutionModel::TaskExt)
    } else if n == 5365 {
        Some(ExecutionModel::MeshExt)
    } else {
        None
    }
}

/// An attribute attached to an identifier or a struct member.
#[derive(Copy, Clone, Debug, Hash, PartialEq, Eq, Structural)]
pub enum Decoration {
    RelaxedPrecision,
    SpecId,
    Block,
    BufferBlock,
    RowMajor,
    ColMajor,
    ArrayStride,
    MatrixStride,
    GlslShared,
    GlslPacked,
    CPacked,
    BuiltIn,
    NoPerspective,
    Flat,
    Patch,
    Centroid,
    Sample,
    Invariant,
    Restrict,
    Aliased,
    Volatile,
    Constant,
    Coherent,
    NonWritable,
    NonReadable,
    Uniform,
    UniformId,
    SaturatedConversion,
    Stream,
    Location,
    Component,
    Index,
    Binding,
    DescriptorSet,
    Offset,
    XfbBuffer,
    XfbStride,
    FuncParamAttr,
    FpRoundingMode,
    FpFastMathMode,
    LinkageAttributes,
    NoContraction,
    InputAttachmentIndex,
    Alignment,
    MaxByteOffset,
    AlignmentId,
    MaxByteOffsetId,
}

/// The number a module's words use for a decoration.
pub open spec fn spec_decoration_number(d: Decoration) -> u32 {
    match d {
        Decoration::RelaxedPrecision => 0,
        Decoration::SpecId => 1,
        Decoration::Block => 2,
        Decoration::BufferBlock => 3,
        Decoration::RowMajor => 4,
        Decoration::ColMajor => 5,
        Decoration::ArrayStride => 6,
        Decoration::MatrixStride => 7,
        Decoration::GlslShared => 8,
        Decoration::GlslPacked => 9,
        Decoration::CPacked => 10,
        Decoration::BuiltIn => 11,
        Decoration::NoPerspective => 13,
        Decoration::Flat => 14,
        Decoration::Patch => 15,
        Decoration::Centroid => 16,
        Decoration::Sample => 17,
        Decoration::Invariant => 18,
        Decoration::Restrict => 19,
        Decoration::Aliased => 20,
        Decoration::Volatile => 21,
        Decoration::Constant => 22,
        Decoration::Coherent => 23,
        Decoration::NonWritable => 24,
        Decoration::NonReadable => 25,
        Decoration::Uniform => 26,
        Decoration::UniformId => 27,
        Decoration::SaturatedConversion => 28,
        Decoration::Stream => 29,
        Decoration::Location => 30,
        Decoration::Component => 31,
        Decoration::Index => 32,
        Decoration::Binding => 33,
        Decoration::DescriptorSet => 34,
        Decoration::Offset => 35,
        Decoration::XfbBuffer => 36,
        Decoration::XfbStride => 37,
        Decoration::FuncParamAttr => 38,
        Decoration::FpRoundingMode => 39,
        Decoration::FpFastMathMode => 40,
        Decoration::LinkageAttributes => 41,
        Decoration::NoContraction => 42,
        Decoration::InputAttachmentIndex => 43,
        Decoration::Alignment => 44,
        Decoration::MaxByteOffset => 45,
        Decoration::AlignmentId => 46,
        Decoration::MaxByteOffsetId => 47,
    }
}

/// The number a module's words use for a decoration.
pub fn decoration_number(d: Decoration) -> (n: u32)
    ensures
        n == spec_decoration_number(d),
{
    match d {
        Decoration::RelaxedPrecision => 0,
        Decoration::SpecId => 1,
        Decoration::Block => 2,
        Decoration::BufferBlock => 3,
        Decoration::RowMajor => 4,
        Decoration::ColMajor => 5,
        Decoration::ArrayStride => 6,
        Decoration::MatrixStride => 7,
        Decoration::GlslShared => 8,
        Decoration::GlslPacked => 9,
        Decoration::CPacked => 10,
        Decoration::BuiltIn => 11,
        Decoration::NoPerspective => 13,
        Decoration::Flat => 14,
        Decoration::Patch => 15,
        Decoration::Centroid => 16,
        Decoration::Sample => 17,
        Decoration::Invariant => 18,
        Decoration::Restrict => 19,
        Decoration::Aliased => 20,
        Decoration::Volatile => 21,
        Decoration::Constant => 22,
        Decoration::Coherent => 23,
        Decoration::NonWritable => 24,
        Decoration::NonReadable => 25,
        Decoration::Uniform => 26,
        Decoration::UniformId => 27,
        Decoration::SaturatedConversion => 28,
        Decoration::Stream => 29,
        Decoration::Location => 30,
        Decoration::Component => 31,
        Decoration::Index => 32,
        Decoration::Binding => 33,
        Decoration::DescriptorSet => 34,
        Decoration::Offset => 35,
        Decoration::XfbBuffer => 36,
        Decoration::XfbStride => 37,
        Decoration::FuncParamAttr => 38,
        Decoration::FpRoundingMode => 39,
        Decoration::FpFastMathMode => 40,
        Decoration::LinkageAttributes => 41,
        Decoration::NoContraction => 42,
        Decoration::InputAttachmentIndex => 43,
        Decoration::Alignment => 44,
        Decoration::MaxByteOffset => 45,
        Decoration::AlignmentId => 46,
        Decoration::MaxByteOffsetId => 47,
    }
}

/// The dimensionality of an image.
#[derive(Copy, Clone, Debug, Hash, PartialEq, Eq, Structural)]
pub enum Dim {
    Dim1D,
    Dim2D,
    Dim3D,
    DimCube,
    DimRect,
    DimBuffer,
    DimSubpassData,
}

/// The texel format of an image.
#[derive(Copy, Clone, Debug, Hash, PartialEq, Eq, Structural)]
pub enum ImageFormat {
    Unknown,
    Rgba32f,
    Rgba16f,
    R32f,
    Rgba8,
    Rgba8Snorm,
    Rg32f,
    Rg16f,
    R11fG11fB10f,
    R16f,
    Rgba16,
    Rgb10A2,
    Rg16,
    Rg8,
    R16,
    R8,
    Rgba16Snorm,
    Rg16Snorm,
    Rg8Snorm,
    R16Snorm,
    R8Snorm,
    Rgba32i,
    Rgba16i,
    Rgba8i,
    R32i,
    Rg32i,
    Rg16i,
    Rg8i,
    R16i,
    R8i,
    Rgba32ui,
    Rgba16ui,
    Rgba8ui,
    R32ui,
    Rgb10a2ui,
    Rg32ui,
    Rg16ui,
    Rg8ui,
    R16ui,
    R8ui,
    R64ui,
    R64i,
}

/// The base tag of a reflected type record.
#[derive(Copy, Clone, Debug, Hash, PartialEq, Eq, Structural)]
pub enum BaseType {
    Unknown,
    Void,
    Boolean,
    SByte,
    UByte,
    Short,
    UShort,
    Int,
    UInt,
    Int64,
    UInt64,
    AtomicCounter,
    Half,
    Float,
    Double,
    Struct,
    Image,
    SampledImage,
    Sampler,
    AccelerationStructure,
    RayQuery,
    ControlPointArray,
    Interpolant,
    Char,
}

/// The format of a shader interface variable override.
#[derive(Copy, Clone, Debug, Hash, PartialEq, Eq, Structural)]
pub enum ShaderVariableFormat {
    Other,
    Uint8,
    Uint16,
    Any16,
    Any32,
}

/// The rate at which a shader interface variable is consumed.
#[derive(Copy, Clone, Debug, Hash, PartialEq, Eq, Structural)]
pub enum ShaderVariableRate {
    PerVertex,
    PerPrimitive,
    PerPatch,
}

/// The coordinate system of a constant sampler.
#[derive(Copy, Clone, Debug, Hash, PartialEq, Eq, Structural)]
pub enum SamplerCoord {
    Normalized,
    Pixel,
}

/// The filter of a constant sampler.
#[derive(Copy, Clone, Debug, Hash, PartialEq, Eq, Structural)]
pub enum SamplerFilter {
    Nearest,
    Linear,
}

/// The mip filter of a constant sampler.
#[derive(Copy, Clone, Debug, Hash, PartialEq, Eq, Structural)]
pub enum SamplerMipFilter {
    NotMipmapped,
    Nearest,
    Linear,
}

/// The addressing mode of a constant sampler.
#[derive(Copy, Clone, Debug, Hash, PartialEq, Eq, Structural)]
pub enum SamplerAddress {
    ClampToZero,
    ClampToEdge,
    ClampToBorder,
    Repeat,
    MirroredRepeat,
}

/// The comparison function of a constant sampler.
#[derive(Copy, Clone, Debug, Hash, PartialEq, Eq, Structural)]
pub enum SamplerCompareFunc {
    Never,
    Less,
    LessEqual,
    Greater,
    GreaterEqual,
    Equal,
    NotEqual,
    Always,
}

/// The border color of a constant sampler.
#[derive(Copy, Clone, Debug, Hash, PartialEq, Eq, Structural)]
pub enum SamplerBorderColor {
    TransparentBlack,
    OpaqueBlack,
    OpaqueWhite,
}

/// The chroma resolution of a sampled plane.
#[derive(Copy, Clone, Debug, Hash, PartialEq, Eq, Structural)]
pub enum FormatResolution {
    FormatResolution444,
    FormatResolution422,
    FormatResolution420,
}

/// The chroma sample location of a sampled plane.
#[derive(Copy, Clone, Debug, Hash, PartialEq, Eq, Structural)]
pub enum ChromaLocation {
    CositedEven,
    Midpoint,
}

/// One lane of a component swizzle.
#[derive(Copy, Clone, Debug, Hash, PartialEq, Eq, Structural)]
pub enum ComponentSwizzle {
    Identity,
    Zero,
    One,
    R,
    G,
    B,
    A,
}

/// The YCbCr model conversion of a constant sampler.
#[derive(Copy, Clone, Debug, Hash, PartialEq, Eq, Structural)]
pub enum SamplerYCbCrModelConversion {
    RgbIdentity,
    YCbCrIdentity,
    YCbCrBt709,
    YCbCrBt601,
    YCbCrBt2020,
}

/// The YCbCr range of a constant sampler.
#[derive(Copy, Clone, Debug, Hash, PartialEq, Eq, Structural)]
pub enum SamplerYCbCrRange {
    ItuFull,
    ItuNarrow,
}

/// A predefined shader input or output, in the engine's vocabulary.  The
/// `Max` member is the sentinel meaning "no built-in": it never names a
/// real built-in and the correspondence tables in [`crate::spirv`] keep it
/// from crossing into the public vocabulary.
#[derive(Copy, Clone, Debug, Hash, PartialEq, Eq, Structural)]
pub enum BuiltIn {
    Position,
    PointSize,
    ClipDistance,
    CullDistance,
    VertexId,
    InstanceId,
    PrimitiveId,
    InvocationId,
    Layer,
    ViewportIndex,
    TessLevelOuter,
    TessLevelInner,
    TessCoord,
    PatchVertices,
    FragCoord,
    PointCoord,
    FrontFacing,
    SampleId,
    SamplePosition,
    SampleMask,
    FragDepth,
    HelperInvocation,
    NumWorkgroups,
    WorkgroupSize,
    WorkgroupId,
    LocalInvocationId,
    GlobalInvocationId,
    LocalInvocationIndex,
    WorkDim,
    GlobalSize,
    EnqueuedWorkgroupSize,
    GlobalOffset,
    GlobalLinearId,
    SubgroupSize,
    SubgroupMaxSize,
    NumSubgroups,
    NumEnqueuedSubgroups,
    SubgroupId,
    SubgroupLocalInvocationId,
    VertexIndex,
    InstanceIndex,
    SubgroupEqMask,
    SubgroupGeMask,
    SubgroupGtMask,
    SubgroupLeMask,
    SubgroupLtMask,
    BaseVertex,
    BaseInstance,
    DrawIndex,
    PrimitiveShadingRateKhr,
    DeviceIndex,
    ViewIndex,
    ShadingRateKhr,
    BaryCoordNoPerspAmd,
    BaryCoordNoPerspCentroidAmd,
    BaryCoordNoPerspSampleAmd,
    BaryCoordSmoothAmd,
    BaryCoordSmoothCentroidAmd,
    BaryCoordSmoothSampleAmd,
    BaryCoordPullModelAmd,
    FragStencilRefExt,
    ViewportMaskNv,
    SecondaryPositionNv,
    SecondaryViewportMaskNv,
    PositionPerViewNv,
    ViewportMaskPerViewNv,
    FullyCoveredExt,
    TaskCountNv,
    PrimitiveCountNv,
    PrimitiveIndicesNv,
    ClipDistancePerViewNv,
    CullDistancePerViewNv,
    LayerPerViewNv,
    MeshViewCountNv,
    MeshViewIndicesNv,
    BaryCoordKhr,
    BaryCoordNoPerspKhr,
    FragSizeExt,
    FragInvocationCountExt,
    PrimitivePointIndicesExt,
    PrimitiveLineIndicesExt,
    PrimitiveTriangleIndicesExt,
    CullPrimitiveExt,
    LaunchIdKhr,
    LaunchSizeKhr,
    WorldRayOriginKhr,
    WorldRayDirectionKhr,
    ObjectRayOriginKhr,
    ObjectRayDirectionKhr,
    RayTminKhr,
    RayTmaxKhr,
    InstanceCustomIndexKhr,
    ObjectToWorldKhr,
    WorldToObjectKhr,
    HitTnv,
    HitKindKhr,
    CurrentRayTimeNv,
    IncomingRayFlagsKhr,
    RayGeometryIndexKhr,
    WarpsPerSmnv,
    SmCountNv,
    WarpIdnv,
    Smidnv,
    CullMaskKhr,
    Max,
}

/// The image half of a reflected type record.
#[derive(Copy, Clone, Debug)]
pub struct ImageRecord {
    pub type_id: u32,
    pub dim: Dim,
    pub depth: bool,
    pub arrayed: bool,
    pub ms: bool,
    pub sampled: u32,
    pub format: ImageFormat,
}

/// A reflected type record, as the engine hands it out.  The `array` and
/// `array_size_literal` sequences describe the same dimensions and the
/// engine keeps them at equal length.
#[derive(Clone, Debug)]
pub struct TypeRecord {
    pub base_type: BaseType,
    pub vecsize: u32,
    pub columns: u32,
    pub member_types: Vec<u32>,
    pub array: Vec<u32>,
    pub array_size_literal: Vec<bool>,
    pub image: ImageRecord,
}

/// An entry point record; the name travels as native text.
#[derive(Clone, Debug)]
pub struct EntryPointRecord {
    pub name: Vec<u8>,
    pub execution_model: ExecutionModel,
    pub work_group_size_x: u32,
    pub work_group_size_y: u32,
    pub work_group_size_z: u32,
}

/// A resource record; the name travels as native text.
#[derive(Clone, Debug)]
pub struct ResourceRecord {
    pub id: u32,
    pub type_id: u32,
    pub base_type_id: u32,
    pub name: Vec<u8>,
}

/// A built-in resource record.
#[derive(Clone, Debug)]
pub struct BuiltInResourceRecord {
    pub builtin: BuiltIn,
    pub value_type_id: u32,
    pub resource: ResourceRecord,
}

/// A buffer range record.
#[derive(Copy, Clone, Debug, PartialEq, Eq, Structural)]
pub struct BufferRangeRecord {
    pub index: u32,
    pub offset: usize,
    pub range: usize,
}

/// A specialization constant record.
#[derive(Copy, Clone, Debug, PartialEq, Eq, Structural)]
pub struct SpecializationConstantRecord {
    pub id: u32,
    pub constant_id: u32,
}

/// The flattened configuration record the MSL backend consumes.  Note the
/// negated polarity of `disable_rasterization`: the public option reads
/// positively and is inverted at the boundary.
#[derive(Copy, Clone, Debug)]
pub struct MslOptionsRecord {
    pub vertex_invert_y: bool,
    pub vertex_transform_clip_space: bool,
    pub platform: u8,
    pub version: u32,
    pub enable_point_size_builtin: bool,
    pub disable_rasterization: bool,
    pub swizzle_buffer_index: u32,
    pub indirect_params_buffer_index: u32,
    pub shader_output_buffer_index: u32,
    pub shader_patch_output_buffer_index: u32,
    pub shader_tess_factor_buffer_index: u32,
    pub buffer_size_buffer_index: u32,
    pub capture_output_to_buffer: bool,
    pub swizzle_texture_samples: bool,
    pub tess_domain_origin_lower_left: bool,
    pub argument_buffers: bool,
    pub pad_fragment_output_components: bool,
    pub force_native_arrays: bool,
    pub force_zero_initialized_variables: bool,
    pub force_active_argument_buffer_resources: bool,
}

/// A flattened resource binding override, one element of the array handed
/// to the MSL compile command.
#[derive(Copy, Clone, Debug, PartialEq, Eq, Structural)]
pub struct ResourceBindingRecord {
    pub stage: ExecutionModel,
    pub basetype: BaseType,
    pub desc_set: u32,
    pub binding: u32,
    pub msl_buffer: u32,
    pub msl_texture: u32,
    pub msl_sampler: u32,
    pub count: u32,
}

/// A flattened shader interface variable override.
#[derive(Copy, Clone, Debug, PartialEq, Eq, Structural)]
pub struct ShaderInterfaceVariableRecord {
    pub location: u32,
    pub component: u32,
    pub format: ShaderVariableFormat,
    pub builtin: BuiltIn,
    pub vecsize: u32,
    pub rate: ShaderVariableRate,
}

/// A flattened constant sampler definition.  The three `*_enable` flags are
/// derived from the public sampler data at flatten time and stored nowhere
/// else; the LOD clamp bounds travel in units of one sixteenth.
#[derive(Copy, Clone, Debug, PartialEq, Eq)]
pub struct ConstexprSamplerRecord {
    pub coord: SamplerCoord,
    pub min_filter: SamplerFilter,
    pub mag_filter: SamplerFilter,
    pub mip_filter: SamplerMipFilter,
    pub s_address: SamplerAddress,
    pub t_address: SamplerAddress,
    pub r_address: SamplerAddress,
    pub compare_func: SamplerCompareFunc,
    pub border_color: SamplerBorderColor,
    pub lod_clamp_min: u8,
    pub lod_clamp_max: u8,
    pub max_anisotropy: i32,
    pub compare_enable: bool,
    pub lod_clamp_enable: bool,
    pub anisotropy_enable: bool,
    pub planes: u32,
    pub resolution: FormatResolution,
    pub chroma_filter: SamplerFilter,
    pub x_chroma_offset: ChromaLocation,
    pub y_chroma_offset: ChromaLocation,
    pub swizzle: [ComponentSwizzle; 4],
    pub ycbcr_conversion_enable: bool,
    pub ycbcr_model: SamplerYCbCrModelConversion,
    pub ycbcr_range: SamplerYCbCrRange,
    pub bpc: u32,
}

/// A flattened constant sampler override keyed by its binding point.
#[derive(Copy, Clone, Debug, PartialEq, Eq)]
pub struct ConstSamplerMappingRecord {
    pub desc_set: u32,
    pub binding: u32,
    pub sampler: ConstexprSamplerRecord,
}

/// The ghost value of an entry point record: its name as a byte sequence
/// beside the plain fields.
pub ghost struct EntryPointModel {
    pub name: Seq<u8>,
    pub execution_model: ExecutionModel,
    pub work_group_size_x: u32,
    pub work_group_size_y: u32,
    pub work_group_size_z: u32,
}

impl View for EntryPointRecord {
    type V = EntryPointModel;

    open spec fn view(&self) -> EntryPointModel {
        EntryPointModel {
            name: self.name@,
            execution_model: self.execution_model,
            work_group_size_x: self.work_group_size_x,
            work_group_size_y: self.work_group_size_y,
            work_group_size_z: self.work_group_size_z,
        }
    }
}

/// The ghost value of a resource record.
pub ghost struct ResourceModel {
    pub id: u32,
    pub type_id: u32,
    pub base_type_id: u32,
    pub name: Seq<u8>,
}

impl View for ResourceRecord {
    type V = ResourceModel;

    open spec fn view(&self) -> ResourceModel {
        ResourceModel {
            id: self.id,
            type_id: self.type_id,
            base_type_id: self.base_type_id,
            name: self.name@,
        }
    }
}

/// The ghost value of a built-in resource record.
pub ghost struct BuiltInResourceModel {
    pub builtin: BuiltIn,
    pub value_type_id: u32,
    pub resource: ResourceModel,
}

impl View for BuiltInResourceRecord {
    type V = BuiltInResourceModel;

    open spec fn view(&self) -> BuiltInResourceModel {
        BuiltInResourceModel {
            builtin: self.builtin,
            value_type_id: self.value_type_id,
            resource: self.resource@,
        }
    }
}

/// The ghost value of a type record.
pub ghost struct TypeModel {
    pub base_type: BaseType,
    pub vecsize: u32,
    pub columns: u32,
    pub member_types: Seq<u32>,
    pub array: Seq<u32>,
    pub array_size_literal: Seq<bool>,
    pub image: ImageRecord,
}

impl View for TypeRecord {
    type V = TypeModel;

    open spec fn view(&self) -> TypeModel {
        TypeModel {
            base_type: self.base_type,
            vecsize: self.vecsize,
            columns: self.columns,
            member_types: self.member_types@,
            array: self.array@,
            array_size_literal: self.array_size_literal@,
            image: self.image,
        }
    }
}

} // verus!
