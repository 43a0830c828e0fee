//! Round-tripping synthetic native type records through the conversion:
//! every field the chosen variant carries must match the record.

use spirv_cross::native;
use spirv_cross::spirv;

fn image() -> native::ImageRecord {
    native::ImageRecord {
        type_id: 9,
        dim: native::Dim::Dim2D,
        depth: true,
        arrayed: false,
        ms: true,
        sampled: 1,
        format: native::ImageFormat::Rgba8,
    }
}

fn convert(base: native::BaseType) -> spirv::Type {
    spirv::Type::from_raw(
        base,
        4,
        3,
        vec![7, 8],
        vec![2, 5],
        vec![true, false],
        image(),
    )
}

#[test]
fn float_round_trips_every_field() {
    match convert(native::BaseType::Float) {
        spirv::Type::Float { vecsize, columns, array, array_size_literal } => {
            assert_eq!(vecsize, 4);
            assert_eq!(columns, 3);
            assert_eq!(array, vec![2, 5]);
            assert_eq!(array_size_literal, vec![true, false]);
        },
        other => panic!("wrong variant: {:?}", other),
    }
}

#[test]
fn int_uint_boolean_half_double_round_trip() {
    for (base, want_columns) in [
        (native::BaseType::Int, true),
        (native::BaseType::UInt, true),
        (native::BaseType::Boolean, true),
        (native::BaseType::Half, true),
        (native::BaseType::Double, true),
    ] {
        let t = convert(base);
        let (vecsize, columns, array, lits) = match (base, t) {
            (native::BaseType::Int, spirv::Type::Int { vecsize, columns, array, array_size_literal }) => (vecsize, columns, array, array_size_literal),
            (native::BaseType::UInt, spirv::Type::UInt { vecsize, columns, array, array_size_literal }) => (vecsize, columns, array, array_size_literal),
            (native::BaseType::Boolean, spirv::Type::Boolean { vecsize, columns, array, array_size_literal }) => (vecsize, columns, array, array_size_literal),
            (native::BaseType::Half, spirv::Type::Half { vecsize, columns, array, array_size_literal }) => (vecsize, columns, array, array_size_literal),
            (native::BaseType::Double, spirv::Type::Double { vecsize, columns, array, array_size_literal }) => (vecsize, columns, array, array_size_literal),
            (_, other) => panic!("wrong variant: {:?}", other),
        };
        assert!(want_columns);
        assert_eq!(vecsize, 4);
        assert_eq!(columns, 3);
        assert_eq!(array, vec![2, 5]);
        assert_eq!(lits, vec![true, false]);
    }
}

#[test]
fn narrow_integer_variants_drop_columns() {
    match convert(native::BaseType::SByte) {
        spirv::Type::SByte { vecsize, array, array_size_literal } => {
            assert_eq!(vecsize, 4);
            assert_eq!(array, vec![2, 5]);
            assert_eq!(array_size_literal, vec![true, false]);
        },
        other => panic!("wrong variant: {:?}", other),
    }
    assert!(matches!(convert(native::BaseType::UByte), spirv::Type::UByte { .. }));
    assert!(matches!(convert(native::BaseType::Short), spirv::Type::Short { .. }));
    assert!(matches!(convert(native::BaseType::UShort), spirv::Type::UShort { .. }));
    assert!(matches!(convert(native::BaseType::Int64), spirv::Type::Int64 { .. }));
    assert!(matches!(convert(native::BaseType::UInt64), spirv::Type::UInt64 { .. }));
}

#[test]
fn struct_keeps_member_types() {
    match convert(native::BaseType::Struct) {
        spirv::Type::Struct { member_types, array, array_size_literal } => {
            assert_eq!(member_types, vec![7, 8]);
            assert_eq!(array, vec![2, 5]);
            assert_eq!(array_size_literal, vec![true, false]);
        },
        other => panic!("wrong variant: {:?}", other),
    }
}

#[test]
fn image_variants_keep_the_image_descriptor() {
    match convert(native::BaseType::SampledImage) {
        spirv::Type::SampledImage { array, array_size_literal, image } => {
            assert_eq!(array, vec![2, 5]);
            assert_eq!(array_size_literal, vec![true, false]);
            assert_eq!(image.type_id, 9);
            assert_eq!(image.dim, native::Dim::Dim2D);
            assert!(image.depth);
            assert!(!image.arrayed);
            assert!(image.ms);
            assert_eq!(image.sampled, 1);
            assert_eq!(image.format, native::ImageFormat::Rgba8);
        },
        other => panic!("wrong variant: {:?}", other),
    }
    assert!(matches!(convert(native::BaseType::Image), spirv::Type::Image { .. }));
}

#[test]
fn tag_only_variants_convert_to_their_tags() {
    assert!(matches!(convert(native::BaseType::Unknown), spirv::Type::Unknown));
    assert!(matches!(convert(native::BaseType::Void), spirv::Type::Void));
    assert!(matches!(convert(native::BaseType::Sampler), spirv::Type::Sampler { .. }));
    assert!(matches!(convert(native::BaseType::Char), spirv::Type::Char { .. }));
    assert!(matches!(
        convert(native::BaseType::AtomicCounter),
        spirv::Type::AtomicCounter { .. }
    ));
    assert!(matches!(
        convert(native::BaseType::ControlPointArray),
        spirv::Type::ControlPointArray
    ));
    assert!(matches!(
        convert(native::BaseType::AccelerationStructure),
        spirv::Type::AccelerationStructure
    ));
    assert!(matches!(convert(native::BaseType::RayQuery), spirv::Type::RayQuery));
    assert!(matches!(convert(native::BaseType::Interpolant), spirv::Type::Interpolant));
}

#[test]
fn image_from_raw_copies_every_field() {
    let img = spirv::ImageType::from_raw(image());
    assert_eq!(img.type_id, 9);
    assert_eq!(img.dim, native::Dim::Dim2D);
    assert!(img.depth);
    assert!(!img.arrayed);
    assert!(img.ms);
    assert_eq!(img.sampled, 1);
    assert_eq!(img.format, native::ImageFormat::Rgba8);
}
