//! The public, owned data model of a reflected module: the sentinel-free
//! built-in vocabulary and its correspondence with the engine's vocabulary,
//! type descriptors, resources, entry points, buffer ranges and
//! specialization constants, and the [`Ast`] handle that owns one parsed
//! module.

use std::marker::PhantomData;

use vstd::prelude::*;

use crate::compiler;
use crate::engine;
use crate::native;
use crate::ErrorCode;

pub use crate::native::BaseType;
pub use crate::native::Decoration;
pub use crate::native::Dim;
pub use crate::native::ExecutionModel;
pub use crate::native::ImageFormat;

verus! {

use vstd::utf8::decode_utf8;
use vstd::utf8::encode_utf8;
use vstd::utf8::valid_utf8;

/// A combined image sampler built by the engine.
#[derive(Copy, Clone, Debug, Hash, Eq, PartialEq, Structural)]
pub struct CombinedImageSampler {
    pub combined_id: u32,
    pub image_id: u32,
    pub sampler_id: u32,
}

/// A predefined shader input or output.  Unlike the engine's vocabulary
/// this enumeration has no sentinel: "no built-in" is an empty optional.
#[derive(Copy, Clone, Debug, Hash, Eq, PartialEq, Structural)]
pub enum BuiltIn {
    Position,
    PointSize,
    ClipDistance,
    CullDistance,
    VertexId,
    InstanceId,
    PrimitiveId,
    InvocationId,
    Layer,
    ViewportIndex,
    TessLevelOuter,
    TessLevelInner,
    TessCoord,
    PatchVertices,
    FragCoord,
    PointCoord,
    FrontFacing,
    SampleId,
    SamplePosition,
    SampleMask,
    FragDepth,
    HelperInvocation,
    NumWorkgroups,
    WorkgroupSize,
    WorkgroupId,
    LocalInvocationId,
    GlobalInvocationId,
    LocalInvocationIndex,
    WorkDim,
    GlobalSize,
    EnqueuedWorkgroupSize,
    GlobalOffset,
    GlobalLinearId,
    SubgroupSize,
    SubgroupMaxSize,
    NumSubgroups,
    NumEnqueuedSubgroups,
    SubgroupId,
    SubgroupLocalInvocationId,
    VertexIndex,
    InstanceIndex,
    SubgroupEqMask,
    SubgroupGeMask,
    SubgroupGtMask,
    SubgroupLeMask,
    SubgroupLtMask,
    BaseVertex,
    BaseInstance,
    DrawIndex,
    PrimitiveShadingRateKhr,
    DeviceIndex,
    ViewIndex,
    ShadingRateKhr,
    BaryCoordNoPerspAmd,
    BaryCoordNoPerspCentroidAmd,
    BaryCoordNoPerspSampleAmd,
    BaryCoordSmoothAmd,
    BaryCoordSmoothCentroidAmd,
    BaryCoordSmoothSampleAmd,
    BaryCoordPullModelAmd,
    FragStencilRefExt,
    ViewportMaskNv,
    SecondaryPositionNv,
    SecondaryViewportMaskNv,
    PositionPerViewNv,
    ViewportMaskPerViewNv,
    FullyCoveredExt,
    TaskCountNv,
    PrimitiveCountNv,
    PrimitiveIndicesNv,
    ClipDistancePerViewNv,
    CullDistancePerViewNv,
    LayerPerViewNv,
    MeshViewCountNv,
    MeshViewIndicesNv,
    BaryCoordKhr,
    BaryCoordNoPerspKhr,
    FragSizeExt,
    FragInvocationCountExt,
    PrimitivePointIndicesExt,
    PrimitiveLineIndicesExt,
    PrimitiveTriangleIndicesExt,
    CullPrimitiveExt,
    LaunchIdKhr,
    LaunchSizeKhr,
    WorldRayOriginKhr,
    WorldRayDirectionKhr,
    ObjectRayOriginKhr,
    ObjectRayDirectionKhr,
    RayTminKhr,
    RayTmaxKhr,
    InstanceCustomIndexKhr,
    ObjectToWorldKhr,
    WorldToObjectKhr,
    HitTnv,
    HitKindKhr,
    CurrentRayTimeNv,
    IncomingRayFlagsKhr,
    RayGeometryIndexKhr,
    WarpsPerSmnv,
    SmCountNv,
    WarpIdnv,
    Smidnv,
    CullMaskKhr,
}

/// The public built-in that corresponds to a non-sentinel native built-in.
/// The sentinel itself never names a built-in and is mapped arbitrarily.
pub open spec fn spec_built_in_from_raw(v: native::BuiltIn) -> BuiltIn
    recommends
        v != native::BuiltIn::Max,
{
    match v {
        native::BuiltIn::Position => BuiltIn::Position,
        native::BuiltIn::PointSize => BuiltIn::PointSize,
        native::BuiltIn::ClipDistance => BuiltIn::ClipDistance,
        native::BuiltIn::CullDistance => BuiltIn::CullDistance,
        native::BuiltIn::VertexId => BuiltIn::VertexId,
        native::BuiltIn::InstanceId => BuiltIn::InstanceId,
        native::BuiltIn::PrimitiveId => BuiltIn::PrimitiveId,
        native::BuiltIn::InvocationId => BuiltIn::InvocationId,
        native::BuiltIn::Layer => BuiltIn::Layer,
        native::BuiltIn::ViewportIndex => BuiltIn::ViewportIndex,
        native::BuiltIn::TessLevelOuter => BuiltIn::TessLevelOuter,
        native::BuiltIn::TessLevelInner => BuiltIn::TessLevelInner,
        native::BuiltIn::TessCoord => BuiltIn::TessCoord,
        native::BuiltIn::PatchVertices => BuiltIn::PatchVertices,
        native::BuiltIn::FragCoord => BuiltIn::FragCoord,
        native::BuiltIn::PointCoord => BuiltIn::PointCoord,
        native::BuiltIn::FrontFacing => BuiltIn::FrontFacing,
        native::BuiltIn::SampleId => BuiltIn::SampleId,
        native::BuiltIn::SamplePosition => BuiltIn::SamplePosition,
        native::BuiltIn::SampleMask => BuiltIn::SampleMask,
        native::BuiltIn::FragDepth => BuiltIn::FragDepth,
        native::BuiltIn::HelperInvocation => BuiltIn::HelperInvocation,
        native::BuiltIn::NumWorkgroups => BuiltIn::NumWorkgroups,
        native::BuiltIn::WorkgroupSize => BuiltIn::WorkgroupSize,
        native::BuiltIn::WorkgroupId => BuiltIn::WorkgroupId,
        native::BuiltIn::LocalInvocationId => BuiltIn::LocalInvocationId,
        native::BuiltIn::GlobalInvocationId => BuiltIn::GlobalInvocationId,
        native::BuiltIn::LocalInvocationIndex => BuiltIn::LocalInvocationIndex,
        native::BuiltIn::WorkDim => BuiltIn::WorkDim,
        native::BuiltIn::GlobalSize => BuiltIn::GlobalSize,
        native::BuiltIn::EnqueuedWorkgroupSize => BuiltIn::EnqueuedWorkgroupSize,
        native::BuiltIn::GlobalOffset => BuiltIn::GlobalOffset,
        native::BuiltIn::GlobalLinearId => BuiltIn::GlobalLinearId,
        native::BuiltIn::SubgroupSize => BuiltIn::SubgroupSize,
        native::BuiltIn::SubgroupMaxSize => BuiltIn::SubgroupMaxSize,
        native::BuiltIn::NumSubgroups => BuiltIn::NumSubgroups,
        native::BuiltIn::NumEnqueuedSubgroups => BuiltIn::NumEnqueuedSubgroups,
        native::BuiltIn::SubgroupId => BuiltIn::SubgroupId,
        native::BuiltIn::SubgroupLocalInvocationId => BuiltIn::SubgroupLocalInvocationId,
        native::BuiltIn::VertexIndex => BuiltIn::VertexIndex,
        native::BuiltIn::InstanceIndex => BuiltIn::InstanceIndex,
        native::BuiltIn::SubgroupEqMask => BuiltIn::SubgroupEqMask,
        native::BuiltIn::SubgroupGeMask => BuiltIn::SubgroupGeMask,
        native::BuiltIn::SubgroupGtMask => BuiltIn::SubgroupGtMask,
        native::BuiltIn::SubgroupLeMask => BuiltIn::SubgroupLeMask,
        native::BuiltIn::SubgroupLtMask => BuiltIn::SubgroupLtMask,
        native::BuiltIn::BaseVertex => BuiltIn::BaseVertex,
        native::BuiltIn::BaseInstance => BuiltIn::BaseInstance,
        native::BuiltIn::DrawIndex => BuiltIn::DrawIndex,
        native::BuiltIn::PrimitiveShadingRateKhr => BuiltIn::PrimitiveShadingRateKhr,
        native::BuiltIn::DeviceIndex => BuiltIn::DeviceIndex,
        native::BuiltIn::ViewIndex => BuiltIn::ViewIndex,
        native::BuiltIn::ShadingRateKhr => BuiltIn::ShadingRateKhr,
        native::BuiltIn::BaryCoordNoPerspAmd => BuiltIn::BaryCoordNoPerspAmd,
        native::BuiltIn::BaryCoordNoPerspCentroidAmd => BuiltIn::BaryCoordNoPerspCentroidAmd,
        native::BuiltIn::BaryCoordNoPerspSampleAmd => BuiltIn::BaryCoordNoPerspSampleAmd,
        native::BuiltIn::BaryCoordSmoothAmd => BuiltIn::BaryCoordSmoothAmd,
        native::BuiltIn::BaryCoordSmoothCentroidAmd => BuiltIn::BaryCoordSmoothCentroidAmd,
        native::BuiltIn::BaryCoordSmoothSampleAmd => BuiltIn::BaryCoordSmoothSampleAmd,
        native::BuiltIn::BaryCoordPullModelAmd => BuiltIn::BaryCoordPullModelAmd,
        native::BuiltIn::FragStencilRefExt => BuiltIn::FragStencilRefExt,
        native::BuiltIn::ViewportMaskNv => BuiltIn::ViewportMaskNv,
        native::BuiltIn::SecondaryPositionNv => BuiltIn::SecondaryPositionNv,
        native::BuiltIn::SecondaryViewportMaskNv => BuiltIn::SecondaryViewportMaskNv,
        native::BuiltIn::PositionPerViewNv => BuiltIn::PositionPerViewNv,
        native::BuiltIn::ViewportMaskPerViewNv => BuiltIn::ViewportMaskPerViewNv,
        native::BuiltIn::FullyCoveredExt => BuiltIn::FullyCoveredExt,
        native::BuiltIn::TaskCountNv => BuiltIn::TaskCountNv,
        native::BuiltIn::PrimitiveCountNv => BuiltIn::PrimitiveCountNv,
        native::BuiltIn::PrimitiveIndicesNv => BuiltIn::PrimitiveIndicesNv,
        native::BuiltIn::ClipDistancePerViewNv => BuiltIn::ClipDistancePerViewNv,
        native::BuiltIn::CullDistancePerViewNv => BuiltIn::CullDistancePerViewNv,
        native::BuiltIn::LayerPerViewNv => BuiltIn::LayerPerViewNv,
        native::BuiltIn::MeshViewCountNv => BuiltIn::MeshViewCountNv,
        native::BuiltIn::MeshViewIndicesNv => BuiltIn::MeshViewIndicesNv,
        native::BuiltIn::BaryCoordKhr => BuiltIn::BaryCoordKhr,
        native::BuiltIn::BaryCoordNoPerspKhr => BuiltIn::BaryCoordNoPerspKhr,
        native::BuiltIn::FragSizeExt => BuiltIn::FragSizeExt,
        native::BuiltIn::FragInvocationCountExt => BuiltIn::FragInvocationCountExt,
        native::BuiltIn::PrimitivePointIndicesExt => BuiltIn::PrimitivePointIndicesExt,
        native::BuiltIn::PrimitiveLineIndicesExt => BuiltIn::PrimitiveLineIndicesExt,
        native::BuiltIn::PrimitiveTriangleIndicesExt => BuiltIn::PrimitiveTriangleIndicesExt,
        native::BuiltIn::CullPrimitiveExt => BuiltIn::CullPrimitiveExt,
        native::BuiltIn::LaunchIdKhr => BuiltIn::LaunchIdKhr,
        native::BuiltIn::LaunchSizeKhr => BuiltIn::LaunchSizeKhr,
        native::BuiltIn::WorldRayOriginKhr => BuiltIn::WorldRayOriginKhr,
        native::BuiltIn::WorldRayDirectionKhr => BuiltIn::WorldRayDirectionKhr,
        native::BuiltIn::ObjectRayOriginKhr => BuiltIn::ObjectRayOriginKhr,
        native::BuiltIn::ObjectRayDirectionKhr => BuiltIn::ObjectRayDirectionKhr,
        native::BuiltIn::RayTminKhr => BuiltIn::RayTminKhr,
        native::BuiltIn::RayTmaxKhr => BuiltIn::RayTmaxKhr,
        native::BuiltIn::InstanceCustomIndexKhr => BuiltIn::InstanceCustomIndexKhr,
        native::BuiltIn::ObjectToWorldKhr => BuiltIn::ObjectToWorldKhr,
        native::BuiltIn::WorldToObjectKhr => BuiltIn::WorldToObjectKhr,
        native::BuiltIn::HitTnv => BuiltIn::HitTnv,
        native::BuiltIn::HitKindKhr => BuiltIn::HitKindKhr,
        native::BuiltIn::CurrentRayTimeNv => BuiltIn::CurrentRayTimeNv,
        native::BuiltIn::IncomingRayFlagsKhr => BuiltIn::IncomingRayFlagsKhr,
        native::BuiltIn::RayGeometryIndexKhr => BuiltIn::RayGeometryIndexKhr,
        native::BuiltIn::WarpsPerSmnv => BuiltIn::WarpsPerSmnv,
        native::BuiltIn::SmCountNv => BuiltIn::SmCountNv,
        native::BuiltIn::WarpIdnv => BuiltIn::WarpIdnv,
        native::BuiltIn::Smidnv => BuiltIn::Smidnv,
        native::BuiltIn::CullMaskKhr => BuiltIn::CullMaskKhr,
        native::BuiltIn::Max => BuiltIn::Position,
    }
}

/// The native built-in that corresponds to a public built-in, or the
/// sentinel for an empty optional.
pub open spec fn spec_built_in_as_raw(built_in: Option<BuiltIn>) -> native::BuiltIn {
    match built_in {
        None => native::BuiltIn::Max,
        Some(BuiltIn::Position) => native::BuiltIn::Position,
        Some(BuiltIn::PointSize) => native::BuiltIn::PointSize,
        Some(BuiltIn::ClipDistance) => native::BuiltIn::ClipDistance,
        Some(BuiltIn::CullDistance) => native::BuiltIn::CullDistance,
        Some(BuiltIn::VertexId) => native::BuiltIn::VertexId,
        Some(BuiltIn::InstanceId) => native::BuiltIn::InstanceId,
        Some(BuiltIn::PrimitiveId) => native::BuiltIn::PrimitiveId,
        Some(BuiltIn::InvocationId) => native::BuiltIn::InvocationId,
        Some(BuiltIn::Layer) => native::BuiltIn::Layer,
        Some(BuiltIn::ViewportIndex) => native::BuiltIn::ViewportIndex,
        Some(BuiltIn::TessLevelOuter) => native::BuiltIn::TessLevelOuter,
        Some(BuiltIn::TessLevelInner) => native::BuiltIn::TessLevelInner,
        Some(BuiltIn::TessCoord) => native::BuiltIn::TessCoord,
        Some(BuiltIn::PatchVertices) => native::BuiltIn::PatchVertices,
        Some(BuiltIn::FragCoord) => native::BuiltIn::FragCoord,
        Some(BuiltIn::PointCoord) => native::BuiltIn::PointCoord,
        Some(BuiltIn::FrontFacing) => native::BuiltIn::FrontFacing,
        Some(BuiltIn::SampleId) => native::BuiltIn::SampleId,
        Some(BuiltIn::SamplePosition) => native::BuiltIn::SamplePosition,
        Some(BuiltIn::SampleMask) => native::BuiltIn::SampleMask,
        Some(BuiltIn::FragDepth) => native::BuiltIn::FragDepth,
        Some(BuiltIn::HelperInvocation) => native::BuiltIn::HelperInvocation,
        Some(BuiltIn::NumWorkgroups) => native::BuiltIn::NumWorkgroups,
        Some(BuiltIn::WorkgroupSize) => native::BuiltIn::WorkgroupSize,
        Some(BuiltIn::WorkgroupId) => native::BuiltIn::WorkgroupId,
        Some(BuiltIn::LocalInvocationId) => native::BuiltIn::LocalInvocationId,
        Some(BuiltIn::GlobalInvocationId) => native::BuiltIn::GlobalInvocationId,
        Some(BuiltIn::LocalInvocationIndex) => native::BuiltIn::LocalInvocationIndex,
        Some(BuiltIn::WorkDim) => native::BuiltIn::WorkDim,
        Some(BuiltIn::GlobalSize) => native::BuiltIn::GlobalSize,
        Some(BuiltIn::EnqueuedWorkgroupSize) => native::BuiltIn::EnqueuedWorkgroupSize,
        Some(BuiltIn::GlobalOffset) => native::BuiltIn::GlobalOffset,
        Some(BuiltIn::GlobalLinearId) => native::BuiltIn::GlobalLinearId,
        Some(BuiltIn::SubgroupSize) => native::BuiltIn::SubgroupSize,
        Some(BuiltIn::SubgroupMaxSize) => native::BuiltIn::SubgroupMaxSize,
        Some(BuiltIn::NumSubgroups) => native::BuiltIn::NumSubgroups,
        Some(BuiltIn::NumEnqueuedSubgroups) => native::BuiltIn::NumEnqueuedSubgroups,
        Some(BuiltIn::SubgroupId) => native::BuiltIn::SubgroupId,
        Some(BuiltIn::SubgroupLocalInvocationId) => native::BuiltIn::SubgroupLocalInvocationId,
        Some(BuiltIn::VertexIndex) => native::BuiltIn::VertexIndex,
        Some(BuiltIn::InstanceIndex) => native::BuiltIn::InstanceIndex,
        Some(BuiltIn::SubgroupEqMask) => native::BuiltIn::SubgroupEqMask,
        Some(BuiltIn::SubgroupGeMask) => native::BuiltIn::SubgroupGeMask,
        Some(BuiltIn::SubgroupGtMask) => native::BuiltIn::SubgroupGtMask,
        Some(BuiltIn::SubgroupLeMask) => native::BuiltIn::SubgroupLeMask,
        Some(BuiltIn::SubgroupLtMask) => native::BuiltIn::SubgroupLtMask,
        Some(BuiltIn::BaseVertex) => native::BuiltIn::BaseVertex,
        Some(BuiltIn::BaseInstance) => native::BuiltIn::BaseInstance,
        Some(BuiltIn::DrawIndex) => native::BuiltIn::DrawIndex,
        Some(BuiltIn::PrimitiveShadingRateKhr) => native::BuiltIn::PrimitiveShadingRateKhr,
        Some(BuiltIn::DeviceIndex) => native::BuiltIn::DeviceIndex,
        Some(BuiltIn::ViewIndex) => native::BuiltIn::ViewIndex,
        Some(BuiltIn::ShadingRateKhr) => native::BuiltIn::ShadingRateKhr,
        Some(BuiltIn::BaryCoordNoPerspAmd) => native::BuiltIn::BaryCoordNoPerspAmd,
        Some(BuiltIn::BaryCoordNoPerspCentroidAmd) => native::BuiltIn::BaryCoordNoPerspCentroidAmd,
        Some(BuiltIn::BaryCoordNoPerspSampleAmd) => native::BuiltIn::BaryCoordNoPerspSampleAmd,
        Some(BuiltIn::BaryCoordSmoothAmd) => native::BuiltIn::BaryCoordSmoothAmd,
        Some(BuiltIn::BaryCoordSmoothCentroidAmd) => native::BuiltIn::BaryCoordSmoothCentroidAmd,
        Some(BuiltIn::BaryCoordSmoothSampleAmd) => native::BuiltIn::BaryCoordSmoothSampleAmd,
        Some(BuiltIn::BaryCoordPullModelAmd) => native::BuiltIn::BaryCoordPullModelAmd,
        Some(BuiltIn::FragStencilRefExt) => native::BuiltIn::FragStencilRefExt,
        Some(BuiltIn::ViewportMaskNv) => native::BuiltIn::ViewportMaskNv,
        Some(BuiltIn::SecondaryPositionNv) => native::BuiltIn::SecondaryPositionNv,
        Some(BuiltIn::SecondaryViewportMaskNv) => native::BuiltIn::SecondaryViewportMaskNv,
        Some(BuiltIn::PositionPerViewNv) => native::BuiltIn::PositionPerViewNv,
        Some(BuiltIn::ViewportMaskPerViewNv) => native::BuiltIn::ViewportMaskPerViewNv,
        Some(BuiltIn::FullyCoveredExt) => native::BuiltIn::FullyCoveredExt,
        Some(BuiltIn::TaskCountNv) => native::BuiltIn::TaskCountNv,
        Some(BuiltIn::PrimitiveCountNv) => native::BuiltIn::PrimitiveCountNv,
        Some(BuiltIn::PrimitiveIndicesNv) => native::BuiltIn::PrimitiveIndicesNv,
        Some(BuiltIn::ClipDistancePerViewNv) => native::BuiltIn::ClipDistancePerViewNv,
        Some(BuiltIn::CullDistancePerViewNv) => native::BuiltIn::CullDistancePerViewNv,
        Some(BuiltIn::LayerPerViewNv) => native::BuiltIn::LayerPerViewNv,
        Some(BuiltIn::MeshViewCountNv) => native::BuiltIn::MeshViewCountNv,
        Some(BuiltIn::MeshViewIndicesNv) => native::BuiltIn::MeshViewIndicesNv,
        Some(BuiltIn::BaryCoordKhr) => native::BuiltIn::BaryCoordKhr,
        Some(BuiltIn::BaryCoordNoPerspKhr) => native::BuiltIn::BaryCoordNoPerspKhr,
        Some(BuiltIn::FragSizeExt) => native::BuiltIn::FragSizeExt,
        Some(BuiltIn::FragInvocationCountExt) => native::BuiltIn::FragInvocationCountExt,
        Some(BuiltIn::PrimitivePointIndicesExt) => native::BuiltIn::PrimitivePointIndicesExt,
        Some(BuiltIn::PrimitiveLineIndicesExt) => native::BuiltIn::PrimitiveLineIndicesExt,
        Some(BuiltIn::PrimitiveTriangleIndicesExt) => native::BuiltIn::PrimitiveTriangleIndicesExt,
        Some(BuiltIn::CullPrimitiveExt) => native::BuiltIn::CullPrimitiveExt,
        Some(BuiltIn::LaunchIdKhr) => native::BuiltIn::LaunchIdKhr,
        Some(BuiltIn::LaunchSizeKhr) => native::BuiltIn::LaunchSizeKhr,
        Some(BuiltIn::WorldRayOriginKhr) => native::BuiltIn::WorldRayOriginKhr,
        Some(BuiltIn::WorldRayDirectionKhr) => native::BuiltIn::WorldRayDirectionKhr,
        Some(BuiltIn::ObjectRayOriginKhr) => native::BuiltIn::ObjectRayOriginKhr,
        Some(BuiltIn::ObjectRayDirectionKhr) => native::BuiltIn::ObjectRayDirectionKhr,
        Some(BuiltIn::RayTminKhr) => native::BuiltIn::RayTminKhr,
        Some(BuiltIn::RayTmaxKhr) => native::BuiltIn::RayTmaxKhr,
        Some(BuiltIn::InstanceCustomIndexKhr) => native::BuiltIn::InstanceCustomIndexKhr,
        Some(BuiltIn::ObjectToWorldKhr) => native::BuiltIn::ObjectToWorldKhr,
        Some(BuiltIn::WorldToObjectKhr) => native::BuiltIn::WorldToObjectKhr,
        Some(BuiltIn::HitTnv) => native::BuiltIn::HitTnv,
        Some(BuiltIn::HitKindKhr) => native::BuiltIn::HitKindKhr,
        Some(BuiltIn::CurrentRayTimeNv) => native::BuiltIn::CurrentRayTimeNv,
        Some(BuiltIn::IncomingRayFlagsKhr) => native::BuiltIn::IncomingRayFlagsKhr,
        Some(BuiltIn::RayGeometryIndexKhr) => native::BuiltIn::RayGeometryIndexKhr,
        Some(BuiltIn::WarpsPerSmnv) => native::BuiltIn::WarpsPerSmnv,
        Some(BuiltIn::SmCountNv) => native::BuiltIn::SmCountNv,
        Some(BuiltIn::WarpIdnv) => native::BuiltIn::WarpIdnv,
        Some(BuiltIn::Smidnv) => native::BuiltIn::Smidnv,
        Some(BuiltIn::CullMaskKhr) => native::BuiltIn::CullMaskKhr,
    }
}

impl BuiltIn {
    /// The public built-in that corresponds to a non-sentinel native
    /// built-in.  The sentinel means "no built-in" and must not reach this
    /// conversion.
    pub fn from_raw(v: native::BuiltIn) -> (r: BuiltIn)
        requires
            v != native::BuiltIn::Max,
        ensures
            r == spec_built_in_from_raw(v),
    {
        match v {
            native::BuiltIn::Position => BuiltIn::Position,
            native::BuiltIn::PointSize => BuiltIn::PointSize,
            native::BuiltIn::ClipDistance => BuiltIn::ClipDistance,
            native::BuiltIn::CullDistance => BuiltIn::CullDistance,
            native::BuiltIn::VertexId => BuiltIn::VertexId,
            native::BuiltIn::InstanceId => BuiltIn::InstanceId,
            native::BuiltIn::PrimitiveId => BuiltIn::PrimitiveId,
            native::BuiltIn::InvocationId => BuiltIn::InvocationId,
            native::BuiltIn::Layer => BuiltIn::Layer,
            native::BuiltIn::ViewportIndex => BuiltIn::ViewportIndex,
            native::BuiltIn::TessLevelOuter => BuiltIn::TessLevelOuter,
            native::BuiltIn::TessLevelInner => BuiltIn::TessLevelInner,
            native::BuiltIn::TessCoord => BuiltIn::TessCoord,
            native::BuiltIn::PatchVertices => BuiltIn::PatchVertices,
            native::BuiltIn::FragCoord => BuiltIn::FragCoord,
            native::BuiltIn::PointCoord => BuiltIn::PointCoord,
            native::BuiltIn::FrontFacing => BuiltIn::FrontFacing,
            native::BuiltIn::SampleId => BuiltIn::SampleId,
            native::BuiltIn::SamplePosition => BuiltIn::SamplePosition,
            native::BuiltIn::SampleMask => BuiltIn::SampleMask,
            native::BuiltIn::FragDepth => BuiltIn::FragDepth,
            native::BuiltIn::HelperInvocation => BuiltIn::HelperInvocation,
            native::BuiltIn::NumWorkgroups => BuiltIn::NumWorkgroups,
            native::BuiltIn::WorkgroupSize => BuiltIn::WorkgroupSize,
            native::BuiltIn::WorkgroupId => BuiltIn::WorkgroupId,
            native::BuiltIn::LocalInvocationId => BuiltIn::LocalInvocationId,
            native::BuiltIn::GlobalInvocationId => BuiltIn::GlobalInvocationId,
            native::BuiltIn::LocalInvocationIndex => BuiltIn::LocalInvocationIndex,
            native::BuiltIn::WorkDim => BuiltIn::WorkDim,
            native::BuiltIn::GlobalSize => BuiltIn::GlobalSize,
            native::BuiltIn::EnqueuedWorkgroupSize => BuiltIn::EnqueuedWorkgroupSize,
            native::BuiltIn::GlobalOffset => BuiltIn::GlobalOffset,
            native::BuiltIn::GlobalLinearId => BuiltIn::GlobalLinearId,
            native::BuiltIn::SubgroupSize => BuiltIn::SubgroupSize,
            native::BuiltIn::SubgroupMaxSize => BuiltIn::SubgroupMaxSize,
            native::BuiltIn::NumSubgroups => BuiltIn::NumSubgroups,
            native::BuiltIn::NumEnqueuedSubgroups => BuiltIn::NumEnqueuedSubgroups,
            native::BuiltIn::SubgroupId => BuiltIn::SubgroupId,
            native::BuiltIn::SubgroupLocalInvocationId => BuiltIn::SubgroupLocalInvocationId,
            native::BuiltIn::VertexIndex => BuiltIn::VertexIndex,
            native::BuiltIn::InstanceIndex => BuiltIn::InstanceIndex,
            native::BuiltIn::SubgroupEqMask => BuiltIn::SubgroupEqMask,
            native::BuiltIn::SubgroupGeMask => BuiltIn::SubgroupGeMask,
            native::BuiltIn::SubgroupGtMask => BuiltIn::SubgroupGtMask,
            native::BuiltIn::SubgroupLeMask => BuiltIn::SubgroupLeMask,
            native::BuiltIn::SubgroupLtMask => BuiltIn::SubgroupLtMask,
            native::BuiltIn::BaseVertex => BuiltIn::BaseVertex,
            native::BuiltIn::BaseInstance => BuiltIn::BaseInstance,
            native::BuiltIn::DrawIndex => BuiltIn::DrawIndex,
            native::BuiltIn::PrimitiveShadingRateKhr => BuiltIn::PrimitiveShadingRateKhr,
            native::BuiltIn::DeviceIndex => BuiltIn::DeviceIndex,
            native::BuiltIn::ViewIndex => BuiltIn::ViewIndex,
            native::BuiltIn::ShadingRateKhr => BuiltIn::ShadingRateKhr,
            native::BuiltIn::BaryCoordNoPerspAmd => BuiltIn::BaryCoordNoPerspAmd,
            native::BuiltIn::BaryCoordNoPerspCentroidAmd => BuiltIn::BaryCoordNoPerspCentroidAmd,
            native::BuiltIn::BaryCoordNoPerspSampleAmd => BuiltIn::BaryCoordNoPerspSampleAmd,
            native::BuiltIn::BaryCoordSmoothAmd => BuiltIn::BaryCoordSmoothAmd,
            native::BuiltIn::BaryCoordSmoothCentroidAmd => BuiltIn::BaryCoordSmoothCentroidAmd,
            native::BuiltIn::BaryCoordSmoothSampleAmd => BuiltIn::BaryCoordSmoothSampleAmd,
            native::BuiltIn::BaryCoordPullModelAmd => BuiltIn::BaryCoordPullModelAmd,
            native::BuiltIn::FragStencilRefExt => BuiltIn::FragStencilRefExt,
            native::BuiltIn::ViewportMaskNv => BuiltIn::ViewportMaskNv,
            native::BuiltIn::SecondaryPositionNv => BuiltIn::SecondaryPositionNv,
            native::BuiltIn::SecondaryViewportMaskNv => BuiltIn::SecondaryViewportMaskNv,
            native::BuiltIn::PositionPerViewNv => BuiltIn::PositionPerViewNv,
            native::BuiltIn::ViewportMaskPerViewNv => BuiltIn::ViewportMaskPerViewNv,
            native::BuiltIn::FullyCoveredExt => BuiltIn::FullyCoveredExt,
            native::BuiltIn::TaskCountNv => BuiltIn::TaskCountNv,
            native::BuiltIn::PrimitiveCountNv => BuiltIn::PrimitiveCountNv,
            native::BuiltIn::PrimitiveIndicesNv => BuiltIn::PrimitiveIndicesNv,
            native::BuiltIn::ClipDistancePerViewNv => BuiltIn::ClipDistancePerViewNv,
            native::BuiltIn::CullDistancePerViewNv => BuiltIn::CullDistancePerViewNv,
            native::BuiltIn::LayerPerViewNv => BuiltIn::LayerPerViewNv,
            native::BuiltIn::MeshViewCountNv => BuiltIn::MeshViewCountNv,
            native::BuiltIn::MeshViewIndicesNv => BuiltIn::MeshViewIndicesNv,
            native::BuiltIn::BaryCoordKhr => BuiltIn::BaryCoordKhr,
            native::BuiltIn::BaryCoordNoPerspKhr => BuiltIn::BaryCoordNoPerspKhr,
            native::BuiltIn::FragSizeExt => BuiltIn::FragSizeExt,
            native::BuiltIn::FragInvocationCountExt => BuiltIn::FragInvocationCountExt,
            native::BuiltIn::PrimitivePointIndicesExt => BuiltIn::PrimitivePointIndicesExt,
            native::BuiltIn::PrimitiveLineIndicesExt => BuiltIn::PrimitiveLineIndicesExt,
            native::BuiltIn::PrimitiveTriangleIndicesExt => BuiltIn::PrimitiveTriangleIndicesExt,
            native::BuiltIn::CullPrimitiveExt => BuiltIn::CullPrimitiveExt,
            native::BuiltIn::LaunchIdKhr => BuiltIn::LaunchIdKhr,
            native::BuiltIn::LaunchSizeKhr => BuiltIn::LaunchSizeKhr,
            native::BuiltIn::WorldRayOriginKhr => BuiltIn::WorldRayOriginKhr,
            native::BuiltIn::WorldRayDirectionKhr => BuiltIn::WorldRayDirectionKhr,
            native::BuiltIn::ObjectRayOriginKhr => BuiltIn::ObjectRayOriginKhr,
            native::BuiltIn::ObjectRayDirectionKhr => BuiltIn::ObjectRayDirectionKhr,
            native::BuiltIn::RayTminKhr => BuiltIn::RayTminKhr,
            native::BuiltIn::RayTmaxKhr => BuiltIn::RayTmaxKhr,
            native::BuiltIn::InstanceCustomIndexKhr => BuiltIn::InstanceCustomIndexKhr,
            native::BuiltIn::ObjectToWorldKhr => BuiltIn::ObjectToWorldKhr,
            native::BuiltIn::WorldToObjectKhr => BuiltIn::WorldToObjectKhr,
            native::BuiltIn::HitTnv => BuiltIn::HitTnv,
            native::BuiltIn::HitKindKhr => BuiltIn::HitKindKhr,
            native::BuiltIn::CurrentRayTimeNv => BuiltIn::CurrentRayTimeNv,
            native::BuiltIn::IncomingRayFlagsKhr => BuiltIn::IncomingRayFlagsKhr,
            native::BuiltIn::RayGeometryIndexKhr => BuiltIn::RayGeometryIndexKhr,
            native::BuiltIn::WarpsPerSmnv => BuiltIn::WarpsPerSmnv,
            native::BuiltIn::SmCountNv => BuiltIn::SmCountNv,
            native::BuiltIn::WarpIdnv => BuiltIn::WarpIdnv,
            native::BuiltIn::Smidnv => BuiltIn::Smidnv,
            native::BuiltIn::CullMaskKhr => BuiltIn::CullMaskKhr,
            // excluded by the precondition
            native::BuiltIn::Max => BuiltIn::Position,
        }
    }
}

/// The native built-in that corresponds to a public built-in, or the
/// sentinel for an empty optional.
pub fn built_in_as_raw(built_in: Option<BuiltIn>) -> (r: native::BuiltIn)
    ensures
        r == spec_built_in_as_raw(built_in),
{
    match built_in {
        None => native::BuiltIn::Max,
        Some(BuiltIn::Position) => native::BuiltIn::Position,
        Some(BuiltIn::PointSize) => native::BuiltIn::PointSize,
        Some(BuiltIn::ClipDistance) => native::BuiltIn::ClipDistance,
        Some(BuiltIn::CullDistance) => native::BuiltIn::CullDistance,
        Some(BuiltIn::VertexId) => native::BuiltIn::VertexId,
        Some(BuiltIn::InstanceId) => native::BuiltIn::InstanceId,
        Some(BuiltIn::PrimitiveId) => native::BuiltIn::PrimitiveId,
        Some(BuiltIn::InvocationId) => native::BuiltIn::InvocationId,
        Some(BuiltIn::Layer) => native::BuiltIn::Layer,
        Some(BuiltIn::ViewportIndex) => native::BuiltIn::ViewportIndex,
        Some(BuiltIn::TessLevelOuter) => native::BuiltIn::TessLevelOuter,
        Some(BuiltIn::TessLevelInner) => native::BuiltIn::TessLevelInner,
        Some(BuiltIn::TessCoord) => native::BuiltIn::TessCoord,
        Some(BuiltIn::PatchVertices) => native::BuiltIn::PatchVertices,
        Some(BuiltIn::FragCoord) => native::BuiltIn::FragCoord,
        Some(BuiltIn::PointCoord) => native::BuiltIn::PointCoord,
        Some(BuiltIn::FrontFacing) => native::BuiltIn::FrontFacing,
        Some(BuiltIn::SampleId) => native::BuiltIn::SampleId,
        Some(BuiltIn::SamplePosition) => native::BuiltIn::SamplePosition,
        Some(BuiltIn::SampleMask) => native::BuiltIn::SampleMask,
        Some(BuiltIn::FragDepth) => native::BuiltIn::FragDepth,
        Some(BuiltIn::HelperInvocation) => native::BuiltIn::HelperInvocation,
        Some(BuiltIn::NumWorkgroups) => native::BuiltIn::NumWorkgroups,
        Some(BuiltIn::WorkgroupSize) => native::BuiltIn::WorkgroupSize,
        Some(BuiltIn::WorkgroupId) => native::BuiltIn::WorkgroupId,
        Some(BuiltIn::LocalInvocationId) => native::BuiltIn::LocalInvocationId,
        Some(BuiltIn::GlobalInvocationId) => native::BuiltIn::GlobalInvocationId,
        Some(BuiltIn::LocalInvocationIndex) => native::BuiltIn::LocalInvocationIndex,
        Some(BuiltIn::WorkDim) => native::BuiltIn::WorkDim,
        Some(BuiltIn::GlobalSize) => native::BuiltIn::GlobalSize,
        Some(BuiltIn::EnqueuedWorkgroupSize) => native::BuiltIn::EnqueuedWorkgroupSize,
        Some(BuiltIn::GlobalOffset) => native::BuiltIn::GlobalOffset,
        Some(BuiltIn::GlobalLinearId) => native::BuiltIn::GlobalLinearId,
        Some(BuiltIn::SubgroupSize) => native::BuiltIn::SubgroupSize,
        Some(BuiltIn::SubgroupMaxSize) => native::BuiltIn::SubgroupMaxSize,
        Some(BuiltIn::NumSubgroups) => native::BuiltIn::NumSubgroups,
        Some(BuiltIn::NumEnqueuedSubgroups) => native::BuiltIn::NumEnqueuedSubgroups,
        Some(BuiltIn::SubgroupId) => native::BuiltIn::SubgroupId,
        Some(BuiltIn::SubgroupLocalInvocationId) => native::BuiltIn::SubgroupLocalInvocationId,
        Some(BuiltIn::VertexIndex) => native::BuiltIn::VertexIndex,
        Some(BuiltIn::InstanceIndex) => native::BuiltIn::InstanceIndex,
        Some(BuiltIn::SubgroupEqMask) => native::BuiltIn::SubgroupEqMask,
        Some(BuiltIn::SubgroupGeMask) => native::BuiltIn::SubgroupGeMask,
        Some(BuiltIn::SubgroupGtMask) => native::BuiltIn::SubgroupGtMask,
        Some(BuiltIn::SubgroupLeMask) => native::BuiltIn::SubgroupLeMask,
        Some(BuiltIn::SubgroupLtMask) => native::BuiltIn::SubgroupLtMask,
        Some(BuiltIn::BaseVertex) => native::BuiltIn::BaseVertex,
        Some(BuiltIn::BaseInstance) => native::BuiltIn::BaseInstance,
        Some(BuiltIn::DrawIndex) => native::BuiltIn::DrawIndex,
        Some(BuiltIn::PrimitiveShadingRateKhr) => native::BuiltIn::PrimitiveShadingRateKhr,
        Some(BuiltIn::DeviceIndex) => native::BuiltIn::DeviceIndex,
        Some(BuiltIn::ViewIndex) => native::BuiltIn::ViewIndex,
        Some(BuiltIn::ShadingRateKhr) => native::BuiltIn::ShadingRateKhr,
        Some(BuiltIn::BaryCoordNoPerspAmd) => native::BuiltIn::BaryCoordNoPerspAmd,
        Some(BuiltIn::BaryCoordNoPerspCentroidAmd) => native::BuiltIn::BaryCoordNoPerspCentroidAmd,
        Some(BuiltIn::BaryCoordNoPerspSampleAmd) => native::BuiltIn::BaryCoordNoPerspSampleAmd,
        Some(BuiltIn::BaryCoordSmoothAmd) => native::BuiltIn::BaryCoordSmoothAmd,
        Some(BuiltIn::BaryCoordSmoothCentroidAmd) => native::BuiltIn::BaryCoordSmoothCentroidAmd,
        Some(BuiltIn::BaryCoordSmoothSampleAmd) => native::BuiltIn::BaryCoordSmoothSampleAmd,
        Some(BuiltIn::BaryCoordPullModelAmd) => native::BuiltIn::BaryCoordPullModelAmd,
        Some(BuiltIn::FragStencilRefExt) => native::BuiltIn::FragStencilRefExt,
        Some(BuiltIn::ViewportMaskNv) => native::BuiltIn::ViewportMaskNv,
        Some(BuiltIn::SecondaryPositionNv) => native::BuiltIn::SecondaryPositionNv,
        Some(BuiltIn::SecondaryViewportMaskNv) => native::BuiltIn::SecondaryViewportMaskNv,
        Some(BuiltIn::PositionPerViewNv) => native::BuiltIn::PositionPerViewNv,
        Some(BuiltIn::ViewportMaskPerViewNv) => native::BuiltIn::ViewportMaskPerViewNv,
        Some(BuiltIn::FullyCoveredExt) => native::BuiltIn::FullyCoveredExt,
        Some(BuiltIn::TaskCountNv) => native::BuiltIn::TaskCountNv,
        Some(BuiltIn::PrimitiveCountNv) => native::BuiltIn::PrimitiveCountNv,
        Some(BuiltIn::PrimitiveIndicesNv) => native::BuiltIn::PrimitiveIndicesNv,
        Some(BuiltIn::ClipDistancePerViewNv) => native::BuiltIn::ClipDistancePerViewNv,
        Some(BuiltIn::CullDistancePerViewNv) => native::BuiltIn::CullDistancePerViewNv,
        Some(BuiltIn::LayerPerViewNv) => native::BuiltIn::LayerPerViewNv,
        Some(BuiltIn::MeshViewCountNv) => native::BuiltIn::MeshViewCountNv,
        Some(BuiltIn::MeshViewIndicesNv) => native::BuiltIn::MeshViewIndicesNv,
        Some(BuiltIn::BaryCoordKhr) => native::BuiltIn::BaryCoordKhr,
        Some(BuiltIn::BaryCoordNoPerspKhr) => native::BuiltIn::BaryCoordNoPerspKhr,
        Some(BuiltIn::FragSizeExt) => native::BuiltIn::FragSizeExt,
        Some(BuiltIn::FragInvocationCountExt) => native::BuiltIn::FragInvocationCountExt,
        Some(BuiltIn::PrimitivePointIndicesExt) => native::BuiltIn::PrimitivePointIndicesExt,
        Some(BuiltIn::PrimitiveLineIndicesExt) => native::BuiltIn::PrimitiveLineIndicesExt,
        Some(BuiltIn::PrimitiveTriangleIndicesExt) => native::BuiltIn::PrimitiveTriangleIndicesExt,
        Some(BuiltIn::CullPrimitiveExt) => native::BuiltIn::CullPrimitiveExt,
        Some(BuiltIn::LaunchIdKhr) => native::BuiltIn::LaunchIdKhr,
        Some(BuiltIn::LaunchSizeKhr) => native::BuiltIn::LaunchSizeKhr,
        Some(BuiltIn::WorldRayOriginKhr) => native::BuiltIn::WorldRayOriginKhr,
        Some(BuiltIn::WorldRayDirectionKhr) => native::BuiltIn::WorldRayDirectionKhr,
        Some(BuiltIn::ObjectRayOriginKhr) => native::BuiltIn::ObjectRayOriginKhr,
        Some(BuiltIn::ObjectRayDirectionKhr) => native::BuiltIn::ObjectRayDirectionKhr,
        Some(BuiltIn::RayTminKhr) => native::BuiltIn::RayTminKhr,
        Some(BuiltIn::RayTmaxKhr) => native::BuiltIn::RayTmaxKhr,
        Some(BuiltIn::InstanceCustomIndexKhr) => native::BuiltIn::InstanceCustomIndexKhr,
        Some(BuiltIn::ObjectToWorldKhr) => native::BuiltIn::ObjectToWorldKhr,
        Some(BuiltIn::WorldToObjectKhr) => native::BuiltIn::WorldToObjectKhr,
        Some(BuiltIn::HitTnv) => native::BuiltIn::HitTnv,
        Some(BuiltIn::HitKindKhr) => native::BuiltIn::HitKindKhr,
        Some(BuiltIn::CurrentRayTimeNv) => native::BuiltIn::CurrentRayTimeNv,
        Some(BuiltIn::IncomingRayFlagsKhr) => native::BuiltIn::IncomingRayFlagsKhr,
        Some(BuiltIn::RayGeometryIndexKhr) => native::BuiltIn::RayGeometryIndexKhr,
        Some(BuiltIn::WarpsPerSmnv) => native::BuiltIn::WarpsPerSmnv,
        Some(BuiltIn::SmCountNv) => native::BuiltIn::SmCountNv,
        Some(BuiltIn::WarpIdnv) => native::BuiltIn::WarpIdnv,
        Some(BuiltIn::Smidnv) => native::BuiltIn::Smidnv,
        Some(BuiltIn::CullMaskKhr) => native::BuiltIn::CullMaskKhr,
    }
}

/// Every non-sentinel native built-in survives the round trip through the
/// public vocabulary unchanged, and no public built-in maps to the
/// sentinel.
pub proof fn lemma_built_in_round_trip(v: native::BuiltIn)
    requires
        v != native::BuiltIn::Max,
    ensures
        spec_built_in_as_raw(Some(spec_built_in_from_raw(v))) == v,
        spec_built_in_as_raw(Some(spec_built_in_from_raw(v))) != native::BuiltIn::Max,
{
}

/// Every public built-in survives the round trip through the native
/// vocabulary unchanged.
pub proof fn lemma_built_in_round_trip_public(b: BuiltIn)
    ensures
        spec_built_in_from_raw(spec_built_in_as_raw(Some(b))) == b,
{
}

/// An empty optional, and only an empty optional, maps to the sentinel.
pub proof fn lemma_no_built_in_is_sentinel(built_in: Option<BuiltIn>)
    ensures
        spec_built_in_as_raw(built_in) == native::BuiltIn::Max <==> built_in is None,
{
}

/// A work group size.
#[derive(Copy, Clone, Debug, Hash, Eq, PartialEq, Structural)]
pub struct WorkGroupSize {
    pub x: u32,
    pub y: u32,
    pub z: u32,
}

/// An entry point of a module.
#[derive(Clone, Debug, Hash, Eq, PartialEq)]
pub struct EntryPoint {
    pub name: String,
    pub execution_model: ExecutionModel,
    pub work_group_size: WorkGroupSize,
}

/// Description of a struct member's range within a buffer.
#[derive(Copy, Clone, Debug, Hash, Eq, PartialEq, Structural)]
pub struct BufferRange {
    /// An index.  Useful for passing to `get_member_name` and
    /// `get_member_decoration`.
    pub index: u32,
    /// Bytes from the start of the buffer, not the beginning of the struct.
    pub offset: usize,
    /// Size of the field in bytes.
    pub range: usize,
}

/// A resource.
#[derive(Clone, Debug, Hash, Eq, PartialEq)]
pub struct Resource {
    pub id: u32,
    pub type_id: u32,
    pub base_type_id: u32,
    pub name: String,
}

/// A built-in resource.
#[derive(Clone, Debug, Hash, Eq, PartialEq)]
pub struct BuiltInResource {
    pub builtin: BuiltIn,
    pub value_type_id: u32,
    pub resource: Resource,
}

/// A specialization constant reference.
#[derive(Copy, Clone, Debug, Hash, Eq, PartialEq, Structural)]
pub struct SpecializationConstant {
    pub id: u32,
    pub constant_id: u32,
}

/// Work group size specialization constants.  Each of the three may refer
/// to a constant that does not actually vary; the caller checks which
/// fields are meaningful.
#[derive(Copy, Clone, Debug, Hash, Eq, PartialEq, Structural)]
pub struct WorkGroupSizeSpecializationConstants {
    pub x: SpecializationConstant,
    pub y: SpecializationConstant,
    pub z: SpecializationConstant,
}

/// All fifteen categories of reflected shader resources.  Order within
/// each category follows the engine's enumeration order.
#[derive(Clone, Debug)]
pub struct ShaderResources {
    pub uniform_buffers: Vec<Resource>,
    pub storage_buffers: Vec<Resource>,
    pub stage_inputs: Vec<Resource>,
    pub stage_outputs: Vec<Resource>,
    pub subpass_inputs: Vec<Resource>,
    pub storage_images: Vec<Resource>,
    pub sampled_images: Vec<Resource>,
    pub atomic_counters: Vec<Resource>,
    pub acceleration_structures: Vec<Resource>,
    pub push_constant_buffers: Vec<Resource>,
    pub shader_record_buffers: Vec<Resource>,
    pub separate_images: Vec<Resource>,
    pub separate_samplers: Vec<Resource>,
    pub builtin_inputs: Vec<BuiltInResource>,
    pub builtin_outputs: Vec<BuiltInResource>,
}

/// An image type descriptor.
#[derive(Clone, Debug)]
pub struct ImageType {
    pub type_id: u32,
    pub dim: Dim,
    pub depth: bool,
    pub arrayed: bool,
    pub ms: bool,
    pub sampled: u32,
    pub format: ImageFormat,
}

/// A type descriptor.  In every variant the `array` and
/// `array_size_literal` sequences have equal length: dimension `i` of
/// `array` is a literal count when `array_size_literal[i]` is true and a
/// specialization-dependent expression otherwise, outermost dimension
/// first.
#[derive(Clone, Debug)]
#[non_exhaustive]
pub enum Type {
    Unknown,
    Void,
    Boolean {
        vecsize: u32,
        columns: u32,
        array: Vec<u32>,
        array_size_literal: Vec<bool>,
    },
    Char {
        array: Vec<u32>,
        array_size_literal: Vec<bool>,
    },
    Int {
        vecsize: u32,
        columns: u32,
        array: Vec<u32>,
        array_size_literal: Vec<bool>,
    },
    UInt {
        vecsize: u32,
        columns: u32,
        array: Vec<u32>,
        array_size_literal: Vec<bool>,
    },
    Int64 {
        vecsize: u32,
        array: Vec<u32>,
        array_size_literal: Vec<bool>,
    },
    UInt64 {
        vecsize: u32,
        array: Vec<u32>,
        array_size_literal: Vec<bool>,
    },
    AtomicCounter {
        array: Vec<u32>,
        array_size_literal: Vec<bool>,
    },
    Half {
        vecsize: u32,
        columns: u32,
        array: Vec<u32>,
        array_size_literal: Vec<bool>,
    },
    Float {
        vecsize: u32,
        columns: u32,
        array: Vec<u32>,
        array_size_literal: Vec<bool>,
    },
    Double {
        vecsize: u32,
        columns: u32,
        array: Vec<u32>,
        array_size_literal: Vec<bool>,
    },
    Struct {
        member_types: Vec<u32>,
        array: Vec<u32>,
        array_size_literal: Vec<bool>,
    },
    Image {
        array: Vec<u32>,
        array_size_literal: Vec<bool>,
        image: ImageType,
    },
    SampledImage {
        array: Vec<u32>,
        array_size_literal: Vec<bool>,
        image: ImageType,
    },
    Sampler {
        array: Vec<u32>,
        array_size_literal: Vec<bool>,
    },
    SByte {
        vecsize: u32,
        array: Vec<u32>,
        array_size_literal: Vec<bool>,
    },
    UByte {
        vecsize: u32,
        array: Vec<u32>,
        array_size_literal: Vec<bool>,
    },
    Short {
        vecsize: u32,
        array: Vec<u32>,
        array_size_literal: Vec<bool>,
    },
    UShort {
        vecsize: u32,
        array: Vec<u32>,
        array_size_literal: Vec<bool>,
    },
    ControlPointArray,
    AccelerationStructure,
    RayQuery,
    Interpolant,
}

/// One module of shader words.
#[derive(Clone, Debug)]
pub struct Module<'a> {
    pub(crate) words: &'a [u32],
}

impl<'a> View for Module<'a> {
    type V = Seq<u32>;

    /// A module is its sequence of words.
    closed spec fn view(&self) -> Seq<u32> {
        self.words@
    }
}

impl<'a> Module<'a> {
    /// Creates a shader module from its words.
    pub fn from_words(words: &[u32]) -> (m: Module)
        ensures
            m@ == words@,
    {
        Module { words }
    }

    /// The words of the module.
    pub fn words(&self) -> (w: &[u32])
        ensures
            w@ == self@,
    {
        self.words
    }
}

/// A marker tying a target language to the configuration payload its
/// handle carries.
pub trait Target {
    type Data;
}

/// An abstract syntax tree that corresponds to one parsed module.  The
/// handle exclusively owns its engine instance; releasing the handle at
/// the end of its scope releases the instance with it, exactly once.
pub struct Ast<TTarget> where TTarget: Target {
    pub compiler: compiler::Compiler<TTarget::Data>,
    pub target_type: PhantomData<TTarget>,
}

impl<TTarget> View for Ast<TTarget> where TTarget: Target {
    type V = compiler::CompilerModel<TTarget::Data>;

    /// A handle is the state of the compiler it owns.
    open spec fn view(&self) -> Self::V {
        self.compiler@
    }
}

/// Parsing a module into a handle for one target.
pub trait Parse<TTarget>: Sized {
    fn parse(module: &Module) -> Result<Self, ErrorCode>;
}

/// Configuring and compiling a handle for one target.
pub trait Compile<TTarget> {
    type CompilerOptions;

    fn set_compiler_options(&mut self, compiler_options: &Self::CompilerOptions) -> Result<
        (),
        ErrorCode,
    >;

    fn compile(&mut self) -> Result<String, ErrorCode>;
}

impl<TTarget> Ast<TTarget> where
    Self: Parse<TTarget> + Compile<TTarget>,
    TTarget: Target,
 {
    /// Gets a decoration; an absent decoration reads as zero, as the
    /// engine defines.
    pub fn get_decoration(&self, id: u32, decoration: Decoration) -> (r: Result<u32, ErrorCode>)
        ensures
            r matches Ok(v) && v == engine::spec_lookup_or(
                self@.instance.decorations,
                engine::spec_decoration_key(id, decoration),
                0u32,
            ),
    {
        self.compiler.get_decoration(id, decoration)
    }

    /// Gets a name.  If not defined, an empty string will be returned.
    pub fn get_name(&mut self, id: u32) -> (r: Result<String, ErrorCode>)
        ensures
            final(self)@ == old(self)@,
            ({
                let bytes = compiler::stored_bytes(
                    old(self)@.instance.names,
                    engine::spec_id_key(id),
                );
                match r {
                    Ok(s) => valid_utf8(bytes) && s@ == decode_utf8(bytes),
                    Err(e) => e == ErrorCode::Unhandled && !valid_utf8(bytes),
                }
            }),
    {
        self.compiler.get_name(id)
    }

    /// Sets a name; a name that cannot be encoded as native text is
    /// rejected before any command is issued.
    pub fn set_name(&mut self, id: u32, name: &str) -> (r: Result<(), ErrorCode>)
        ensures
            compiler::has_interior_nul(name@) ==> r == Err::<(), ErrorCode>(ErrorCode::Unhandled)
                && final(self)@ == old(self)@,
            !compiler::has_interior_nul(name@) ==> r is Ok && final(self)@
                == (compiler::CompilerModel {
                instance: (engine::InstanceModel {
                    names: old(self)@.instance.names.insert(
                        engine::spec_id_key(id),
                        encode_utf8(name@),
                    ),
                    ..old(self)@.instance
                }),
                ..old(self)@
            }),
    {
        self.compiler.set_name(id, name)
    }

    /// Sets a member name; a name that cannot be encoded as native text
    /// is rejected before any command is issued.
    pub fn set_member_name(&mut self, id: u32, index: u32, name: &str) -> (r: Result<
        (),
        ErrorCode,
    >)
        ensures
            compiler::has_interior_nul(name@) ==> r == Err::<(), ErrorCode>(ErrorCode::Unhandled)
                && final(self)@ == old(self)@,
            !compiler::has_interior_nul(name@) ==> r is Ok && final(self)@
                == (compiler::CompilerModel {
                instance: (engine::InstanceModel {
                    member_names: old(self)@.instance.member_names.insert(
                        engine::spec_member_key(id, index),
                        encode_utf8(name@),
                    ),
                    ..old(self)@.instance
                }),
                ..old(self)@
            }),
    {
        self.compiler.set_member_name(id, index, name)
    }

    /// Unsets a decoration.
    pub fn unset_decoration(&mut self, id: u32, decoration: Decoration) -> (r: Result<
        (),
        ErrorCode,
    >)
        ensures
            r is Ok,
            final(self)@ == (compiler::CompilerModel {
                instance: (engine::InstanceModel {
                    decorations: old(self)@.instance.decorations.remove(
                        engine::spec_decoration_key(id, decoration),
                    ),
                    ..old(self)@.instance
                }),
                ..old(self)@
            }),
    {
        self.compiler.unset_decoration(id, decoration)
    }

    /// Sets a decoration.
    pub fn set_decoration(&mut self, id: u32, decoration: Decoration, argument: u32) -> (r: Result<
        (),
        ErrorCode,
    >)
        ensures
            r is Ok,
            final(self)@ == (compiler::CompilerModel {
                instance: (engine::InstanceModel {
                    decorations: old(self)@.instance.decorations.insert(
                        engine::spec_decoration_key(id, decoration),
                        argument,
                    ),
                    ..old(self)@.instance
                }),
                ..old(self)@
            }),
    {
        self.compiler.set_decoration(id, decoration, argument)
    }

    /// Gets entry points, in the engine's enumeration order.
    pub fn get_entry_points(&mut self) -> (r: Result<Vec<EntryPoint>, ErrorCode>)
        ensures
            final(self)@ == old(self)@,
            ({
                let eps = old(self)@.instance.entry_points;
                match r {
                    Ok(v) => {
                        &&& v@.len() == eps.len()
                        &&& forall|i: int|
                            0 <= i < eps.len() ==> {
                                &&& valid_utf8((#[trigger] eps[i]).name)
                                &&& v@[i].name@ == decode_utf8(eps[i].name)
                                &&& v@[i].execution_model == eps[i].execution_model
                                &&& v@[i].work_group_size == (WorkGroupSize {
                                    x: eps[i].work_group_size_x,
                                    y: eps[i].work_group_size_y,
                                    z: eps[i].work_group_size_z,
                                })
                            }
                    },
                    Err(e) => e == ErrorCode::Unhandled && exists|i: int|
                        0 <= i < eps.len() && !valid_utf8((#[trigger] eps[i]).name),
                }
            }),
    {
        self.compiler.get_entry_points()
    }

    /// Gets the cleansed entry point name under which the backend emits
    /// an entry point.  `compile` must have been called first: on a
    /// handle that has never compiled, the query is rejected locally,
    /// before any command is issued.
    pub fn get_cleansed_entry_point_name(
        &mut self,
        entry_point_name: &str,
        execution_model: ExecutionModel,
    ) -> (r: Result<String, ErrorCode>)
        ensures
            !old(self)@.has_been_compiled ==> (r matches Err(ErrorCode::CompilationError(m)) && m@
                == "`compile` must be called first"@) && final(self)@ == old(self)@,
            old(self)@.has_been_compiled && compiler::has_interior_nul(entry_point_name@) ==> r
                == Err::<String, ErrorCode>(ErrorCode::Unhandled) && final(self)@ == old(self)@,
            old(self)@.has_been_compiled && !compiler::has_interior_nul(entry_point_name@)
                && engine::spec_has_entry_point(
                old(self)@.instance.entry_points,
                encode_utf8(entry_point_name@),
                execution_model,
            ) ==> final(self)@ == old(self)@ && (r matches Ok(s) && s@ == entry_point_name@),
            old(self)@.has_been_compiled && !compiler::has_interior_nul(entry_point_name@)
                && !engine::spec_has_entry_point(
                old(self)@.instance.entry_points,
                encode_utf8(entry_point_name@),
                execution_model,
            ) ==> (r matches Err(ErrorCode::CompilationError(m)) && m@
                == "entry point not found"@) && final(self)@ == (compiler::CompilerModel {
                instance: (engine::InstanceModel {
                    latest_error: "entry point not found"@,
                    ..old(self)@.instance
                }),
                ..old(self)@
            }),
    {
        if self.compiler.is_compiled() {
            self.compiler.get_cleansed_entry_point_name(entry_point_name, execution_model)
        } else {
            Err(ErrorCode::CompilationError("`compile` must be called first".to_owned()))
        }
    }

    /// Gets active buffer ranges.  Useful for push constants.
    pub fn get_active_buffer_ranges(&mut self, id: u32) -> (r: Result<Vec<BufferRange>, ErrorCode>)
        ensures
            final(self)@ == old(self)@,
            ({
                let rs = engine::spec_lookup_or(
                    old(self)@.instance.buffer_ranges,
                    engine::spec_id_key(id),
                    Seq::<native::BufferRangeRecord>::empty(),
                );
                r matches Ok(v) && v@.len() == rs.len() && forall|i: int|
                    0 <= i < rs.len() ==> v@[i] == (BufferRange {
                        index: (#[trigger] rs[i]).index,
                        offset: rs[i].offset,
                        range: rs[i].range,
                    })
            }),
    {
        self.compiler.get_active_buffer_ranges(id)
    }

    /// Gets all specialization constants.
    pub fn get_specialization_constants(&mut self) -> (r: Result<
        Vec<SpecializationConstant>,
        ErrorCode,
    >)
        ensures
            final(self)@ == old(self)@,
            ({
                let cs = old(self)@.instance.spec_constants;
                r matches Ok(v) && v@.len() == cs.len() && forall|i: int|
                    0 <= i < cs.len() ==> v@[i] == (SpecializationConstant {
                        id: (#[trigger] cs[i]).id,
                        constant_id: cs[i].constant_id,
                    })
            }),
    {
        self.compiler.get_specialization_constants()
    }

    /// Sets the reference of a scalar constant to a value, overriding the
    /// default.  Can be used to override specialization constants.
    pub fn set_scalar_constant(&mut self, id: u32, value: u64) -> (r: Result<(), ErrorCode>)
        ensures
            r is Ok,
            final(self)@ == (compiler::CompilerModel {
                instance: (engine::InstanceModel {
                    scalar_constants: old(self)@.instance.scalar_constants.insert(
                        engine::spec_id_key(id),
                        ((value / 0x1_0000_0000) as u32, (value % 0x1_0000_0000) as u32),
                    ),
                    ..old(self)@.instance
                }),
                ..old(self)@
            }),
    {
        self.compiler.set_scalar_constant(id, value)
    }

    /// Gets shader resources: all fifteen categories in one operation.
    pub fn get_shader_resources(&mut self) -> (r: Result<ShaderResources, ErrorCode>)
        ensures
            final(self)@ == old(self)@,
            match r {
                Ok(sr) => compiler::shader_resources_match(sr, old(self)@.instance.resources),
                Err(e) => e == ErrorCode::Unhandled && compiler::some_invalid_name(
                    old(self)@.instance.resources,
                ),
            },
    {
        self.compiler.get_shader_resources()
    }

    /// Gets the type descriptor associated with an identifier.
    pub fn get_type(&mut self, id: u32) -> (r: Result<Type, ErrorCode>)
        ensures
            ({
                let k = engine::spec_id_key(id);
                if old(self)@.instance.types.dom().contains(k) {
                    &&& final(self)@ == old(self)@
                    &&& r matches Ok(t) && compiler::type_represents(
                        t,
                        old(self)@.instance.types[k],
                    )
                } else {
                    &&& (r matches Err(ErrorCode::CompilationError(m)) && m@
                        == "no type for the identifier"@)
                    &&& final(self)@ == (compiler::CompilerModel {
                        instance: (engine::InstanceModel {
                            latest_error: "no type for the identifier"@,
                            ..old(self)@.instance
                        }),
                        ..old(self)@
                    })
                }
            }),
    {
        self.compiler.get_type(id)
    }

    /// Gets the name of a member located at `index` within a struct.
    pub fn get_member_name(&mut self, id: u32, index: u32) -> (r: Result<String, ErrorCode>)
        ensures
            final(self)@ == old(self)@,
            ({
                let bytes = compiler::stored_bytes(
                    old(self)@.instance.member_names,
                    engine::spec_member_key(id, index),
                );
                match r {
                    Ok(s) => valid_utf8(bytes) && s@ == decode_utf8(bytes),
                    Err(e) => e == ErrorCode::Unhandled && !valid_utf8(bytes),
                }
            }),
    {
        self.compiler.get_member_name(id, index)
    }

    /// Gets a decoration of a member located at `index` within a struct;
    /// an absent decoration reads as zero, as the engine defines.
    pub fn get_member_decoration(&self, id: u32, index: u32, decoration: Decoration) -> (r: Result<
        u32,
        ErrorCode,
    >)
        ensures
            r matches Ok(v) && v == engine::spec_lookup_or(
                self@.instance.member_decorations,
                engine::spec_member_decoration_key(id, index, decoration),
                0u32,
            ),
    {
        self.compiler.get_member_decoration(id, index, decoration)
    }

    /// Sets a decoration of a member located at `index` within a struct.
    pub fn set_member_decoration(
        &mut self,
        id: u32,
        index: u32,
        decoration: Decoration,
        argument: u32,
    ) -> (r: Result<(), ErrorCode>)
        ensures
            r is Ok,
            final(self)@ == (compiler::CompilerModel {
                instance: (engine::InstanceModel {
                    member_decorations: old(self)@.instance.member_decorations.insert(
                        engine::spec_member_decoration_key(id, index, decoration),
                        argument,
                    ),
                    ..old(self)@.instance
                }),
                ..old(self)@
            }),
    {
        self.compiler.set_member_decoration(id, index, decoration, argument)
    }

    /// Gets the effective size of a buffer block.
    pub fn get_declared_struct_size(&mut self, id: u32) -> (r: Result<u32, ErrorCode>)
        ensures
            ({
                let k = engine::spec_id_key(id);
                if old(self)@.instance.struct_sizes.dom().contains(k) {
                    final(self)@ == old(self)@ && (r matches Ok(v) && v
                        == old(self)@.instance.struct_sizes[k])
                } else {
                    (r matches Err(ErrorCode::CompilationError(m)) && m@
                        == "no declared struct size for the identifier"@) && final(self)@
                        == (compiler::CompilerModel {
                        instance: (engine::InstanceModel {
                            latest_error: "no declared struct size for the identifier"@,
                            ..old(self)@.instance
                        }),
                        ..old(self)@
                    })
                }
            }),
    {
        self.compiler.get_declared_struct_size(id)
    }

    /// Gets the effective size of a member of a buffer block.
    pub fn get_declared_struct_member_size(&mut self, id: u32, index: u32) -> (r: Result<
        u32,
        ErrorCode,
    >)
        ensures
            ({
                let k = engine::spec_member_key(id, index);
                if old(self)@.instance.member_sizes.dom().contains(k) {
                    final(self)@ == old(self)@ && (r matches Ok(v) && v
                        == old(self)@.instance.member_sizes[k])
                } else {
                    (r matches Err(ErrorCode::CompilationError(m)) && m@
                        == "no declared struct size for the member"@) && final(self)@
                        == (compiler::CompilerModel {
                        instance: (engine::InstanceModel {
                            latest_error: "no declared struct size for the member"@,
                            ..old(self)@.instance
                        }),
                        ..old(self)@
                    })
                }
            }),
    {
        self.compiler.get_declared_struct_member_size(id, index)
    }

    /// Renames an interface variable: every resource of the slice whose
    /// location decoration matches the given location takes the new name.
    /// If any name in the slice cannot be encoded as native text, the
    /// whole call is rejected before any command is issued.
    pub fn rename_interface_variable(
        &mut self,
        resources: &[Resource],
        location: u32,
        name: &str,
    ) -> (r: Result<(), ErrorCode>)
        ensures
            compiler::some_name_has_nul(resources@) || compiler::has_interior_nul(name@) ==> r
                == Err::<(), ErrorCode>(ErrorCode::Unhandled) && final(self)@ == old(self)@,
            !(compiler::some_name_has_nul(resources@) || compiler::has_interior_nul(name@)) ==> r
                is Ok && final(self)@ == (compiler::CompilerModel {
                instance: (engine::InstanceModel {
                    names: engine::spec_apply_rename(
                        old(self)@.instance.names,
                        old(self)@.instance.decorations,
                        compiler::encoded_resource_views(resources@),
                        location,
                        encode_utf8(name@),
                    ),
                    ..old(self)@.instance
                }),
                ..old(self)@
            }),
    {
        self.compiler.rename_interface_variable(resources, location, name)
    }

    /// Gets the set of active interface variables: order is irrelevant
    /// and duplicates collapse.
    pub fn get_active_interface_variables(&mut self) -> (r: Result<
        std::collections::HashSet<u32>,
        ErrorCode,
    >)
        ensures
            final(self)@ == old(self)@,
            r matches Ok(s) && s@ == old(self)@.instance.active_variables.to_set(),
    {
        self.compiler.get_active_interface_variables()
    }

    /// Gets work group size specialization constants; each of the three
    /// may refer to a constant that does not actually vary.
    pub fn get_work_group_size_specialization_constants(&mut self) -> (r: Result<
        WorkGroupSizeSpecializationConstants,
        ErrorCode,
    >)
        ensures
            final(self)@ == old(self)@,
            r matches Ok(c) && c == (WorkGroupSizeSpecializationConstants {
                x: SpecializationConstant {
                    id: old(self)@.instance.wgs_x.id,
                    constant_id: old(self)@.instance.wgs_x.constant_id,
                },
                y: SpecializationConstant {
                    id: old(self)@.instance.wgs_y.id,
                    constant_id: old(self)@.instance.wgs_y.constant_id,
                },
                z: SpecializationConstant {
                    id: old(self)@.instance.wgs_z.id,
                    constant_id: old(self)@.instance.wgs_z.constant_id,
                },
            }),
    {
        self.compiler.get_work_group_size_specialization_constants()
    }

    /// How many out-buffers of the engine are outstanding.  However many
    /// operations preceded this call, every buffer the engine handed out
    /// has been released — the discipline keeps the handle quiescent
    /// between operations — so the count always reads zero, and an
    /// instrumented harness asserts exactly that balance.
    pub fn live_native_allocations(&self) -> (n: u128)
        ensures
            n as nat == self@.instance.live,
            n == 0,
    {
        self.compiler.live_native_allocations()
    }
}

} // verus!
