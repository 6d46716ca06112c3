//! The built-in attribute definitions: a shared vocabulary of well-known
//! attributes, each with its conventional data type. A caller that stores an
//! attribute otherwise rebinds it with `with_custom_datatype`.

use vstd::prelude::*;
use crate::layout::data_type::PointAttributeDataType;
use crate::layout::definition::{DefinitionModel, PointAttributeDefinition};

verus! {

/// Attribute definition for a 3D position. Default data type is Vec3f64.
pub fn position_3d() -> (definition: PointAttributeDefinition)
    ensures
        definition@ == (DefinitionModel {
            name: "Position3D"@,
            datatype: PointAttributeDataType::Vec3f64,
        }),
{
    PointAttributeDefinition::custom("Position3D", PointAttributeDataType::Vec3f64)
}

/// Attribute definition for an intensity value. Default data type is U16.
pub fn intensity() -> (definition: PointAttributeDefinition)
    ensures
        definition@ == (DefinitionModel {
            name: "Intensity"@,
            datatype: PointAttributeDataType::U16,
        }),
{
    PointAttributeDefinition::custom("Intensity", PointAttributeDataType::U16)
}

/// Attribute definition for a return number. Default data type is U8.
pub fn return_number() -> (definition: PointAttributeDefinition)
    ensures
        definition@ == (DefinitionModel {
            name: "ReturnNumber"@,
            datatype: PointAttributeDataType::U8,
        }),
{
    PointAttributeDefinition::custom("ReturnNumber", PointAttributeDataType::U8)
}

/// Attribute definition for the number of returns. Default data type is U8.
pub fn number_of_returns() -> (definition: PointAttributeDefinition)
    ensures
        definition@ == (DefinitionModel {
            name: "NumberOfReturns"@,
            datatype: PointAttributeDataType::U8,
        }),
{
    PointAttributeDefinition::custom("NumberOfReturns", PointAttributeDataType::U8)
}

/// Attribute definition for the classification flags. Default data type is U8.
pub fn classification_flags() -> (definition: PointAttributeDefinition)
    ensures
        definition@ == (DefinitionModel {
            name: "ClassificationFlags"@,
            datatype: PointAttributeDataType::U8,
        }),
{
    PointAttributeDefinition::custom("ClassificationFlags", PointAttributeDataType::U8)
}

/// Attribute definition for the scanner channel. Default data type is U8.
pub fn scanner_channel() -> (definition: PointAttributeDefinition)
    ensures
        definition@ == (DefinitionModel {
            name: "ScannerChannel"@,
            datatype: PointAttributeDataType::U8,
        }),
{
    PointAttributeDefinition::custom("ScannerChannel", PointAttributeDataType::U8)
}

/// Attribute definition for a scan direction flag. Default data type is Bool.
pub fn scan_direction_flag() -> (definition: PointAttributeDefinition)
    ensures
        definition@ == (DefinitionModel {
            name: "ScanDirectionFlag"@,
            datatype: PointAttributeDataType::Bool,
        }),
{
    PointAttributeDefinition::custom("ScanDirectionFlag", PointAttributeDataType::Bool)
}

/// Attribute definition for an edge of flight line flag. Default data type is Bool.
pub fn edge_of_flight_line() -> (definition: PointAttributeDefinition)
    ensures
        definition@ == (DefinitionModel {
            name: "EdgeOfFlightLine"@,
            datatype: PointAttributeDataType::Bool,
        }),
{
    PointAttributeDefinition::custom("EdgeOfFlightLine", PointAttributeDataType::Bool)
}

/// Attribute definition for a classification. Default data type is U8.
pub fn classification() -> (definition: PointAttributeDefinition)
    ensures
        definition@ == (DefinitionModel {
            name: "Classification"@,
            datatype: PointAttributeDataType::U8,
        }),
{
    PointAttributeDefinition::custom("Classification", PointAttributeDataType::U8)
}

/// Attribute definition for a scan angle rank. Default data type is I8.
pub fn scan_angle_rank() -> (definition: PointAttributeDefinition)
    ensures
        definition@ == (DefinitionModel {
            name: "ScanAngleRank"@,
            datatype: PointAttributeDataType::I8,
        }),
{
    PointAttributeDefinition::custom("ScanAngleRank", PointAttributeDataType::I8)
}

/// Attribute definition for a scan angle with extended precision. Default data type is I16.
pub fn scan_angle() -> (definition: PointAttributeDefinition)
    ensures
        definition@ == (DefinitionModel {
            name: "ScanAngle"@,
            datatype: PointAttributeDataType::I16,
        }),
{
    PointAttributeDefinition::custom("ScanAngle", PointAttributeDataType::I16)
}

/// Attribute definition for a user data field. Default data type is U8.
pub fn user_data() -> (definition: PointAttributeDefinition)
    ensures
        definition@ == (DefinitionModel {
            name: "UserData"@,
            datatype: PointAttributeDataType::U8,
        }),
{
    PointAttributeDefinition::custom("UserData", PointAttributeDataType::U8)
}

/// Attribute definition for a point source ID. Default data type is U16.
pub fn point_source_id() -> (definition: PointAttributeDefinition)
    ensures
        definition@ == (DefinitionModel {
            name: "PointSourceID"@,
            datatype: PointAttributeDataType::U16,
        }),
{
    PointAttributeDefinition::custom("PointSourceID", PointAttributeDataType::U16)
}

/// Attribute definition for an RGB color. Default data type is Vec3u16.
pub fn color_rgb() -> (definition: PointAttributeDefinition)
    ensures
        definition@ == (DefinitionModel {
            name: "ColorRGB"@,
            datatype: PointAttributeDataType::Vec3u16,
        }),
{
    PointAttributeDefinition::custom("ColorRGB", PointAttributeDataType::Vec3u16)
}

/// Attribute definition for a GPS timestamp. Default data type is F64.
pub fn gps_time() -> (definition: PointAttributeDefinition)
    ensures
        definition@ == (DefinitionModel {
            name: "GpsTime"@,
            datatype: PointAttributeDataType::F64,
        }),
{
    PointAttributeDefinition::custom("GpsTime", PointAttributeDataType::F64)
}

/// Attribute definition for near-infrared records. Default data type is U16.
pub fn nir() -> (definition: PointAttributeDefinition)
    ensures
        definition@ == (DefinitionModel {
            name: "NIR"@,
            datatype: PointAttributeDataType::U16,
        }),
{
    PointAttributeDefinition::custom("NIR", PointAttributeDataType::U16)
}

/// Attribute definition for the wave packet descriptor index. Default data type is U8.
pub fn wave_packet_descriptor_index() -> (definition: PointAttributeDefinition)
    ensures
        definition@ == (DefinitionModel {
            name: "WavePacketDescriptorIndex"@,
            datatype: PointAttributeDataType::U8,
        }),
{
    PointAttributeDefinition::custom("WavePacketDescriptorIndex", PointAttributeDataType::U8)
}

/// Attribute definition for the offset to the waveform data. Default data type is U64.
pub fn waveform_data_offset() -> (definition: PointAttributeDefinition)
    ensures
        definition@ == (DefinitionModel {
            name: "WaveformDataOffset"@,
            datatype: PointAttributeDataType::U64,
        }),
{
    PointAttributeDefinition::custom("WaveformDataOffset", PointAttributeDataType::U64)
}

/// Attribute definition for the size of a waveform data packet. Default data type is U32.
pub fn waveform_packet_size() -> (definition: PointAttributeDefinition)
    ensures
        definition@ == (DefinitionModel {
            name: "WaveformPacketSize"@,
            datatype: PointAttributeDataType::U32,
        }),
{
    PointAttributeDefinition::custom("WaveformPacketSize", PointAttributeDataType::U32)
}

/// Attribute definition for the return point waveform location. Default data type is F32.
pub fn return_point_waveform_location() -> (definition: PointAttributeDefinition)
    ensures
        definition@ == (DefinitionModel {
            name: "ReturnPointWaveformLocation"@,
            datatype: PointAttributeDataType::F32,
        }),
{
    PointAttributeDefinition::custom("ReturnPointWaveformLocation", PointAttributeDataType::F32)
}

/// Attribute definition for the waveform parameters. Default data type is Vec3f32.
pub fn waveform_parameters() -> (definition: PointAttributeDefinition)
    ensures
        definition@ == (DefinitionModel {
            name: "WaveformParameters"@,
            datatype: PointAttributeDataType::Vec3f32,
        }),
{
    PointAttributeDefinition::custom("WaveformParameters", PointAttributeDataType::Vec3f32)
}

/// Attribute definition for a point ID. Default data type is U64.
pub fn point_id() -> (definition: PointAttributeDefinition)
    ensures
        definition@ == (DefinitionModel {
            name: "PointID"@,
            datatype: PointAttributeDataType::U64,
        }),
{
    PointAttributeDefinition::custom("PointID", PointAttributeDataType::U64)
}

/// Attribute definition for a 3D point normal. Default data type is Vec3f32.
pub fn normal() -> (definition: PointAttributeDefinition)
    ensures
        definition@ == (DefinitionModel {
            name: "Normal"@,
            datatype: PointAttributeDataType::Vec3f32,
        }),
{
    PointAttributeDefinition::custom("Normal", PointAttributeDataType::Vec3f32)
}

} // verus!
