//! The built-in correspondence tables: native to public and back.

use spirv_cross::native;
use spirv_cross::spirv;

#[test]
fn native_to_public_to_native_is_identity() {
    let cases = [
        native::BuiltIn::Position,
        native::BuiltIn::PointSize,
        native::BuiltIn::FragCoord,
        native::BuiltIn::WorkgroupId,
        native::BuiltIn::VertexIndex,
        native::BuiltIn::InstanceIndex,
        native::BuiltIn::CullMaskKhr,
        native::BuiltIn::Smidnv,
        native::BuiltIn::LaunchIdKhr,
        native::BuiltIn::BaryCoordKhr,
    ];
    for raw in cases {
        let public = spirv::BuiltIn::from_raw(raw);
        assert_eq!(spirv::built_in_as_raw(Some(public)), raw);
    }
}

#[test]
fn public_to_native_to_public_is_identity() {
    let cases = [
        spirv::BuiltIn::Position,
        spirv::BuiltIn::ClipDistance,
        spirv::BuiltIn::SampleMask,
        spirv::BuiltIn::GlobalInvocationId,
        spirv::BuiltIn::SubgroupSize,
        spirv::BuiltIn::PrimitiveShadingRateKhr,
        spirv::BuiltIn::FragStencilRefExt,
        spirv::BuiltIn::MeshViewIndicesNv,
        spirv::BuiltIn::RayTmaxKhr,
        spirv::BuiltIn::HitKindKhr,
    ];
    for public in cases {
        let raw = spirv::built_in_as_raw(Some(public));
        assert_ne!(raw, native::BuiltIn::Max);
        assert_eq!(spirv::BuiltIn::from_raw(raw), public);
    }
}

#[test]
fn empty_optional_maps_to_the_sentinel() {
    assert_eq!(spirv::built_in_as_raw(None), native::BuiltIn::Max);
}

#[test]
fn specific_members_map_to_their_counterparts() {
    assert_eq!(
        spirv::BuiltIn::from_raw(native::BuiltIn::FrontFacing),
        spirv::BuiltIn::FrontFacing
    );
    assert_eq!(
        spirv::built_in_as_raw(Some(spirv::BuiltIn::TessCoord)),
        native::BuiltIn::TessCoord
    );
}
