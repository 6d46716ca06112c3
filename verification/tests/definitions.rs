use pasture_core::layout::attributes::{
    classification, classification_flags, color_rgb, edge_of_flight_line, gps_time, intensity,
    nir, normal, number_of_returns, point_id, point_source_id, position_3d, return_number,
    return_point_waveform_location, scan_angle, scan_angle_rank, scan_direction_flag,
    scanner_channel, user_data, wave_packet_descriptor_index, waveform_data_offset,
    waveform_packet_size, waveform_parameters,
};
use pasture_core::layout::{
    PointAttributeDataType, PointAttributeDefinition, PointAttributeMember,
};
use nalgebra::{Vector3, Vector4};
use pasture_core::math::{align_to, is_power_of_two, MAX_RECORD_SIZE};
use std::mem::{align_of, size_of};

const ALL_TYPES: [PointAttributeDataType; 16] = [
    PointAttributeDataType::U8,
    PointAttributeDataType::I8,
    PointAttributeDataType::U16,
    PointAttributeDataType::I16,
    PointAttributeDataType::U32,
    PointAttributeDataType::I32,
    PointAttributeDataType::U64,
    PointAttributeDataType::I64,
    PointAttributeDataType::F32,
    PointAttributeDataType::F64,
    PointAttributeDataType::Bool,
    PointAttributeDataType::Vec3u8,
    PointAttributeDataType::Vec3u16,
    PointAttributeDataType::Vec3f32,
    PointAttributeDataType::Vec3f64,
    PointAttributeDataType::Vec4u8,
];

#[test]
fn data_type_sizes() {
    let sizes: Vec<u64> = ALL_TYPES.iter().map(|t| t.size()).collect();
    assert_eq!(sizes, vec![1, 1, 2, 2, 4, 4, 8, 8, 4, 8, 1, 3, 6, 12, 24, 4]);
}

#[test]
fn data_type_alignments() {
    let alignments: Vec<u64> = ALL_TYPES.iter().map(|t| t.min_alignment()).collect();
    assert_eq!(alignments, vec![1, 1, 2, 2, 4, 4, 8, 8, 4, 8, 1, 1, 2, 4, 8, 1]);
}

#[test]
fn data_type_names() {
    let names: Vec<&str> = ALL_TYPES.iter().map(|t| t.display_name()).collect();
    assert_eq!(
        names,
        vec![
            "U8", "I8", "U16", "I16", "U32", "I32", "U64", "I64", "F32", "F64", "Bool",
            "Vec3<u8>", "Vec3<u16>", "Vec3<f32>", "Vec3<f64>", "Vec4<u8>"
        ]
    );
}

#[test]
fn catalog_matches_the_native_representations() {
    let native: [(usize, usize); 16] = [
        (size_of::<u8>(), align_of::<u8>()),
        (size_of::<i8>(), align_of::<i8>()),
        (size_of::<u16>(), align_of::<u16>()),
        (size_of::<i16>(), align_of::<i16>()),
        (size_of::<u32>(), align_of::<u32>()),
        (size_of::<i32>(), align_of::<i32>()),
        (size_of::<u64>(), align_of::<u64>()),
        (size_of::<i64>(), align_of::<i64>()),
        (size_of::<f32>(), align_of::<f32>()),
        (size_of::<f64>(), align_of::<f64>()),
        (size_of::<bool>(), align_of::<bool>()),
        (size_of::<Vector3<u8>>(), align_of::<Vector3<u8>>()),
        (size_of::<Vector3<u16>>(), align_of::<Vector3<u16>>()),
        (size_of::<Vector3<f32>>(), align_of::<Vector3<f32>>()),
        (size_of::<Vector3<f64>>(), align_of::<Vector3<f64>>()),
        (size_of::<Vector4<u8>>(), align_of::<Vector4<u8>>()),
    ];
    for (datatype, (size, alignment)) in ALL_TYPES.iter().zip(native) {
        assert_eq!(datatype.size(), size as u64);
        assert_eq!(datatype.min_alignment(), alignment as u64);
    }
}

#[test]
fn custom_definition() {
    let custom_attribute = PointAttributeDefinition::custom("Custom", PointAttributeDataType::F32);
    assert_eq!(custom_attribute.name(), "Custom");
    assert_eq!(custom_attribute.datatype(), PointAttributeDataType::F32);
    assert_eq!(custom_attribute.size(), 4);
}

#[test]
fn definition_with_custom_datatype() {
    let custom_position_attribute =
        position_3d().with_custom_datatype(PointAttributeDataType::Vec3f32);
    assert_eq!(custom_position_attribute.name(), position_3d().name());
    assert_eq!(custom_position_attribute.datatype(), PointAttributeDataType::Vec3f32);
    assert_eq!(custom_position_attribute.size(), 12);
    assert_ne!(custom_position_attribute, position_3d());
    assert_eq!(position_3d().datatype(), PointAttributeDataType::Vec3f64);
}

#[test]
fn definition_at_offset() {
    let custom_position_attribute = position_3d().at_offset_in_type(8);
    assert_eq!(custom_position_attribute.name(), position_3d().name());
    assert_eq!(custom_position_attribute.datatype(), position_3d().datatype());
    assert_eq!(custom_position_attribute.offset(), 8);
    assert_eq!(custom_position_attribute.size(), 24);
}

#[test]
fn definition_equality_is_by_name_and_type() {
    let custom = PointAttributeDefinition::custom;
    assert_eq!(intensity(), custom("Intensity", PointAttributeDataType::U16));
    assert_ne!(intensity(), custom("Intensity", PointAttributeDataType::I16));
    assert_ne!(intensity(), custom("intensity", PointAttributeDataType::U16));
    assert_ne!(intensity(), nir());
}

#[test]
fn custom_member() {
    let custom_attribute = PointAttributeMember::custom("Custom", PointAttributeDataType::F32, 8);
    assert_eq!(custom_attribute.name(), "Custom");
    assert_eq!(custom_attribute.datatype(), PointAttributeDataType::F32);
    assert_eq!(custom_attribute.offset(), 8);
    assert_eq!(custom_attribute.size(), 4);
}

#[test]
fn member_sizes_agree_with_the_data_types() {
    for datatype in ALL_TYPES {
        let member = PointAttributeMember::custom("Any", datatype, 3);
        assert_eq!(member.size(), datatype.size());
        assert_eq!(PointAttributeDefinition::custom("Any", datatype).size(), datatype.size());
    }
}

#[test]
fn built_in_attributes() {
    let expected = [
        (position_3d(), "Position3D", PointAttributeDataType::Vec3f64),
        (intensity(), "Intensity", PointAttributeDataType::U16),
        (return_number(), "ReturnNumber", PointAttributeDataType::U8),
        (number_of_returns(), "NumberOfReturns", PointAttributeDataType::U8),
        (classification_flags(), "ClassificationFlags", PointAttributeDataType::U8),
        (scanner_channel(), "ScannerChannel", PointAttributeDataType::U8),
        (scan_direction_flag(), "ScanDirectionFlag", PointAttributeDataType::Bool),
        (edge_of_flight_line(), "EdgeOfFlightLine", PointAttributeDataType::Bool),
        (classification(), "Classification", PointAttributeDataType::U8),
        (scan_angle_rank(), "ScanAngleRank", PointAttributeDataType::I8),
        (scan_angle(), "ScanAngle", PointAttributeDataType::I16),
        (user_data(), "UserData", PointAttributeDataType::U8),
        (point_source_id(), "PointSourceID", PointAttributeDataType::U16),
        (color_rgb(), "ColorRGB", PointAttributeDataType::Vec3u16),
        (gps_time(), "GpsTime", PointAttributeDataType::F64),
        (nir(), "NIR", PointAttributeDataType::U16),
        (wave_packet_descriptor_index(), "WavePacketDescriptorIndex", PointAttributeDataType::U8),
        (waveform_data_offset(), "WaveformDataOffset", PointAttributeDataType::U64),
        (waveform_packet_size(), "WaveformPacketSize", PointAttributeDataType::U32),
        (
            return_point_waveform_location(),
            "ReturnPointWaveformLocation",
            PointAttributeDataType::F32,
        ),
        (waveform_parameters(), "WaveformParameters", PointAttributeDataType::Vec3f32),
        (point_id(), "PointID", PointAttributeDataType::U64),
        (normal(), "Normal", PointAttributeDataType::Vec3f32),
    ];
    for (definition, name, datatype) in expected {
        assert_eq!(definition.name(), name);
        assert_eq!(definition.datatype(), datatype);
    }
}

#[test]
fn align_to_rounds_up() {
    assert_eq!(align_to(0, 8), Some(0));
    assert_eq!(align_to(1, 8), Some(8));
    assert_eq!(align_to(8, 8), Some(8));
    assert_eq!(align_to(9, 8), Some(16));
    assert_eq!(align_to(26, 1), Some(26));
    assert_eq!(align_to(10, 3), Some(12));
    assert_eq!(align_to(u64::MAX, 1), Some(u64::MAX));
    assert_eq!(align_to(u64::MAX, 2), None);
    assert_eq!(align_to(u64::MAX - 7, 8), Some(u64::MAX - 7));
    assert_eq!(align_to(u64::MAX - 6, 8), None);
}

#[test]
fn powers_of_two() {
    assert!(!is_power_of_two(0));
    assert!(is_power_of_two(1));
    assert!(is_power_of_two(2));
    assert!(!is_power_of_two(3));
    assert!(is_power_of_two(8));
    assert!(!is_power_of_two(12));
    assert!(is_power_of_two(1 << 63));
    assert!(!is_power_of_two(u64::MAX));
    assert!(!is_power_of_two(MAX_RECORD_SIZE));
}
