use pasture_core::layout::attributes::{
    classification, color_rgb, gps_time, intensity, normal, position_3d, return_number,
};
use pasture_core::layout::{
    FieldAlignment, LayoutError, PointAttributeDataType, PointAttributeDefinition,
    PointAttributeMember, PointLayout,
};

fn offsets(layout: &PointLayout) -> Vec<u64> {
    layout.attributes().iter().map(|a| a.offset()).collect()
}

#[test]
fn test_derive_point_type() {
    let expected_layout_1 = PointLayout::from_attributes_packed(
        &[
            position_3d().with_custom_datatype(PointAttributeDataType::Vec3f64),
            color_rgb().with_custom_datatype(PointAttributeDataType::Vec3u16),
            intensity().with_custom_datatype(PointAttributeDataType::U16),
        ],
        1,
    )
    .unwrap();

    // The layout of a packed struct of a position, a color and an intensity.
    let test_point_layout = PointLayout::from_members_and_alignment(
        &[
            position_3d().at_offset_in_type(0),
            color_rgb().at_offset_in_type(24),
            intensity().at_offset_in_type(30),
        ],
        1,
    )
    .unwrap();

    assert_eq!(expected_layout_1, test_point_layout);
    assert_eq!(offsets(&expected_layout_1), vec![0, 24, 30]);
    assert_eq!(expected_layout_1.size_of_point_entry(), 32);
    assert_eq!(expected_layout_1.alignment_of_point_entry(), 1);
}

#[test]
fn default_layout_is_empty() {
    let layout = PointLayout::default();
    assert_eq!(layout.attributes().len(), 0);
    assert_eq!(layout.size_of_point_entry(), 0);
    assert_eq!(layout.alignment_of_point_entry(), 1);
}

#[test]
fn default_policy_position_then_intensity() {
    let layout = PointLayout::from_attributes(&[position_3d(), intensity()]).unwrap();
    assert_eq!(layout.attributes().len(), 2);
    assert_eq!(layout.at(0).offset(), 0);
    assert_eq!(layout.at(1).offset(), 24);
    assert_eq!(position_3d().size(), layout.at(1).offset());
    assert_eq!(layout.size_of_point_entry(), 32);
    assert_eq!(layout.alignment_of_point_entry(), 8);
}

#[test]
fn default_policy_intensity_then_position() {
    let layout = PointLayout::from_attributes(&[intensity(), position_3d()]).unwrap();
    assert_eq!(layout.at(0).offset(), 0);
    assert_eq!(layout.at(1).offset(), 8);
    assert_eq!(layout.size_of_point_entry(), 32);
    assert_eq!(layout.alignment_of_point_entry(), 8);
}

#[test]
fn packed_to_one_byte_has_no_padding() {
    let layout = PointLayout::from_attributes_packed(&[intensity(), position_3d()], 1).unwrap();
    assert_eq!(layout.attributes().len(), 2);
    assert_eq!(layout.at(0).offset(), 0);
    assert_eq!(layout.at(1).offset(), 2);
    assert_eq!(layout.size_of_point_entry(), 26);
    assert_eq!(layout.alignment_of_point_entry(), 1);
}

#[test]
fn packed_to_four_bytes_pads_to_four() {
    let layout = PointLayout::from_attributes_packed(&[intensity(), position_3d()], 4).unwrap();
    assert_eq!(layout.at(0).offset(), 0);
    assert_eq!(layout.at(1).offset(), 4);
    assert_eq!(layout.size_of_point_entry(), 28);
    assert_eq!(layout.alignment_of_point_entry(), 4);
}

#[test]
fn packed_cap_above_the_natural_alignment() {
    // No field is aligned more strictly than it asks for itself; the record
    // is aligned to the cap.
    let layout = PointLayout::from_attributes_packed(&[intensity(), position_3d()], 16).unwrap();
    assert_eq!(layout.at(1).offset(), 8);
    assert_eq!(layout.alignment_of_point_entry(), 16);
    assert_eq!(layout.size_of_point_entry(), 32);
}

#[test]
fn explicit_placement_succeeds() {
    let layout = PointLayout::from_members_and_alignment(
        &[intensity().at_offset_in_type(2), position_3d().at_offset_in_type(8)],
        8,
    )
    .unwrap();
    assert_eq!(layout.attributes().len(), 2);
    assert_eq!(layout.at(0).offset(), 2);
    assert_eq!(layout.at(1).offset(), 8);
    assert_eq!(layout.size_of_point_entry(), 32);
    assert_eq!(layout.alignment_of_point_entry(), 8);
}

#[test]
fn explicit_placement_rejects_overlap() {
    let outcome = PointLayout::from_members_and_alignment(
        &[intensity().at_offset_in_type(0), position_3d().at_offset_in_type(1)],
        8,
    );
    assert_eq!(outcome, Err(LayoutError::OverlappingAttributes));
}

#[test]
fn explicit_placement_rejects_overlap_in_any_order() {
    let outcome = PointLayout::from_members_and_alignment(
        &[
            position_3d().at_offset_in_type(8),
            classification().at_offset_in_type(0),
            intensity().at_offset_in_type(31),
        ],
        1,
    );
    assert_eq!(outcome, Err(LayoutError::OverlappingAttributes));
    let touching = PointLayout::from_members_and_alignment(
        &[
            position_3d().at_offset_in_type(8),
            classification().at_offset_in_type(7),
            intensity().at_offset_in_type(32),
        ],
        1,
    )
    .unwrap();
    assert_eq!(touching.size_of_point_entry(), 34);
}

#[test]
fn explicit_placement_rejects_equal_ranges() {
    let outcome = PointLayout::from_members_and_alignment(
        &[intensity().at_offset_in_type(4), classification().at_offset_in_type(4)],
        1,
    );
    assert_eq!(outcome, Err(LayoutError::OverlappingAttributes));
}

#[test]
fn explicit_placement_rejects_repeated_name() {
    let outcome = PointLayout::from_members_and_alignment(
        &[
            intensity().at_offset_in_type(0),
            position_3d().at_offset_in_type(8),
            intensity().with_custom_datatype(PointAttributeDataType::U32).at_offset_in_type(32),
        ],
        8,
    );
    assert_eq!(outcome, Err(LayoutError::DuplicateAttributeName));
}

#[test]
fn repeated_name_wins_over_overlap() {
    let outcome = PointLayout::from_members_and_alignment(
        &[intensity().at_offset_in_type(0), intensity().at_offset_in_type(1)],
        3,
    );
    assert_eq!(outcome, Err(LayoutError::DuplicateAttributeName));
}

#[test]
fn explicit_placement_rejects_invalid_alignment() {
    let members = [intensity().at_offset_in_type(2), position_3d().at_offset_in_type(8)];
    assert_eq!(
        PointLayout::from_members_and_alignment(&members, 0),
        Err(LayoutError::InvalidMemoryLayout)
    );
    assert_eq!(
        PointLayout::from_members_and_alignment(&members, 3),
        Err(LayoutError::InvalidMemoryLayout)
    );
    assert_eq!(
        PointLayout::from_members_and_alignment(&members, 12),
        Err(LayoutError::InvalidMemoryLayout)
    );
    assert!(PointLayout::from_members_and_alignment(&members, 16).is_ok());
}

#[test]
fn explicit_placement_rejects_size_out_of_range() {
    let far = [intensity().at_offset_in_type(u64::MAX - 1)];
    assert_eq!(
        PointLayout::from_members_and_alignment(&far, 1),
        Err(LayoutError::InvalidMemoryLayout)
    );
    let limit = 0x7fff_ffff_ffff_ffff_u64;
    let at_limit = [intensity().at_offset_in_type(limit - 2)];
    let layout = PointLayout::from_members_and_alignment(&at_limit, 1).unwrap();
    assert_eq!(layout.size_of_point_entry(), limit);
    assert_eq!(
        PointLayout::from_members_and_alignment(&at_limit, 2),
        Err(LayoutError::InvalidMemoryLayout)
    );
    let beyond = [intensity().at_offset_in_type(limit - 1)];
    assert_eq!(
        PointLayout::from_members_and_alignment(&beyond, 1),
        Err(LayoutError::InvalidMemoryLayout)
    );
}

#[test]
fn explicit_placement_of_nothing() {
    let layout = PointLayout::from_members_and_alignment(&[], 8).unwrap();
    assert_eq!(layout.attributes().len(), 0);
    assert_eq!(layout.size_of_point_entry(), 0);
    assert_eq!(layout.alignment_of_point_entry(), 8);
}

#[test]
fn explicit_placement_keeps_insertion_order() {
    let layout = PointLayout::from_members_and_alignment(
        &[intensity().at_offset_in_type(24), position_3d().at_offset_in_type(0)],
        8,
    )
    .unwrap();
    assert_eq!(layout.index_of(&intensity()), Some(0));
    assert_eq!(layout.index_of(&position_3d()), Some(1));
    assert_eq!(offsets(&layout), vec![24, 0]);
    assert_eq!(layout.size_of_point_entry(), 32);
}

#[test]
fn bulk_construction_rejects_repeated_name() {
    let repeated = [position_3d(), intensity(), position_3d()];
    assert_eq!(
        PointLayout::from_attributes(&repeated),
        Err(LayoutError::DuplicateAttributeName)
    );
    assert_eq!(
        PointLayout::from_attributes_packed(&repeated, 1),
        Err(LayoutError::DuplicateAttributeName)
    );
    let same_name_other_type =
        [intensity(), intensity().with_custom_datatype(PointAttributeDataType::U32)];
    assert_eq!(
        PointLayout::from_attributes(&same_name_other_type),
        Err(LayoutError::DuplicateAttributeName)
    );
}

#[test]
fn packed_construction_rejects_invalid_cap() {
    assert_eq!(
        PointLayout::from_attributes_packed(&[intensity(), position_3d()], 0),
        Err(LayoutError::InvalidMemoryLayout)
    );
    assert_eq!(
        PointLayout::from_attributes_packed(&[intensity(), position_3d()], 3),
        Err(LayoutError::InvalidMemoryLayout)
    );
    let empty: [PointAttributeDefinition; 0] = [];
    assert!(PointLayout::from_attributes_packed(&empty, 0).is_ok());
}

#[test]
fn add_attribute_places_behind_the_last() {
    let mut layout = PointLayout::default();
    assert_eq!(layout.add_attribute(intensity(), FieldAlignment::Default), Ok(()));
    assert_eq!(layout.add_attribute(position_3d(), FieldAlignment::Default), Ok(()));
    assert_eq!(layout.attributes().len(), 2);
    assert_eq!(&intensity().at_offset_in_type(0), layout.at(0));
    assert_eq!(&position_3d().at_offset_in_type(8), layout.at(1));
    assert_eq!(layout.at(1).offset(), 8);
}

#[test]
fn add_attribute_rejects_taken_name_and_keeps_the_layout() {
    let mut layout = PointLayout::from_attributes(&[position_3d(), intensity()]).unwrap();
    let before = layout.clone();
    assert_eq!(
        layout.add_attribute(
            intensity().with_custom_datatype(PointAttributeDataType::F64),
            FieldAlignment::Default
        ),
        Err(LayoutError::DuplicateAttributeName)
    );
    assert_eq!(layout, before);
    assert_eq!(offsets(&layout), offsets(&before));
    assert_eq!(layout.size_of_point_entry(), 32);
    assert_eq!(
        layout.add_attribute(gps_time(), FieldAlignment::Packed(0)),
        Err(LayoutError::InvalidMemoryLayout)
    );
    assert_eq!(layout.attributes().len(), 2);
    assert_eq!(layout.size_of_point_entry(), 32);
    assert_eq!(layout.alignment_of_point_entry(), 8);
}

#[test]
fn add_attribute_mixes_policies() {
    let mut layout = PointLayout::default();
    layout.add_attribute(classification(), FieldAlignment::Default).unwrap();
    assert_eq!(layout.size_of_point_entry(), 1);
    assert_eq!(layout.alignment_of_point_entry(), 1);
    layout.add_attribute(gps_time(), FieldAlignment::Packed(4)).unwrap();
    assert_eq!(layout.at(1).offset(), 4);
    assert_eq!(layout.alignment_of_point_entry(), 1);
    assert_eq!(layout.size_of_point_entry(), 12);
    layout.add_attribute(intensity(), FieldAlignment::Default).unwrap();
    assert_eq!(layout.at(2).offset(), 12);
    assert_eq!(layout.alignment_of_point_entry(), 2);
    assert_eq!(layout.size_of_point_entry(), 14);
    layout.add_attribute(normal(), FieldAlignment::Packed(3)).unwrap();
    assert_eq!(layout.at(3).offset(), 15);
    assert_eq!(layout.alignment_of_point_entry(), 2);
    assert_eq!(layout.size_of_point_entry(), 28);
}

#[test]
fn add_attribute_behind_explicit_members_follows_the_last_inserted() {
    let mut layout = PointLayout::from_members_and_alignment(
        &[intensity().at_offset_in_type(24), position_3d().at_offset_in_type(0)],
        8,
    )
    .unwrap();
    layout.add_attribute(classification(), FieldAlignment::Default).unwrap();
    assert_eq!(layout.at(2).offset(), 24);
    assert_eq!(layout.size_of_point_entry(), 32);
}

#[test]
fn has_attribute_with_name_finds_by_name_only() {
    let mut layout = PointLayout::default();
    layout.add_attribute(position_3d(), FieldAlignment::Default).unwrap();
    assert!(layout.has_attribute_with_name(position_3d().name()));
    assert!(layout.has_attribute_with_name("Position3D"));
    assert!(!layout.has_attribute_with_name("Position3"));
    assert!(!layout.has_attribute_with_name(intensity().name()));
    assert!(!PointLayout::default().has_attribute_with_name("Position3D"));
}

#[test]
fn has_attribute_needs_name_and_type() {
    let mut layout = PointLayout::default();
    layout.add_attribute(position_3d(), FieldAlignment::Default).unwrap();
    assert!(layout.has_attribute(&position_3d()));

    layout
        .add_attribute(
            intensity().with_custom_datatype(PointAttributeDataType::U32),
            FieldAlignment::Default,
        )
        .unwrap();
    assert!(!layout.has_attribute(&intensity()));
    assert!(layout.has_attribute_with_name(intensity().name()));
}

#[test]
fn get_attribute_needs_name_and_type() {
    let mut layout = PointLayout::default();
    layout.add_attribute(position_3d(), FieldAlignment::Default).unwrap();
    let attribute = layout.get_attribute(&position_3d());
    assert!(attribute.is_some());
    assert_eq!(attribute.unwrap().offset(), 0);
    let invalid_attribute =
        layout.get_attribute(&position_3d().with_custom_datatype(PointAttributeDataType::U32));
    assert!(invalid_attribute.is_none());
}

#[test]
fn get_attribute_by_name_returns_the_member() {
    let layout = PointLayout::from_attributes(&[position_3d(), intensity()]).unwrap();
    let attribute = layout.get_attribute_by_name(position_3d().name());
    assert!(attribute.is_some());
    assert_eq!(position_3d().at_offset_in_type(0), *attribute.unwrap());
    let second = layout.get_attribute_by_name("Intensity").unwrap();
    assert_eq!(second.offset(), 24);
    assert_eq!(second.datatype(), PointAttributeDataType::U16);
    assert!(layout.get_attribute_by_name("GpsTime").is_none());
}

#[test]
fn attributes_come_in_insertion_order() {
    let mut layout = PointLayout::default();
    layout.add_attribute(position_3d(), FieldAlignment::Default).unwrap();
    layout.add_attribute(intensity(), FieldAlignment::Default).unwrap();
    let attributes = layout.attributes();
    assert_eq!(attributes.len(), 2);
    assert_eq!(position_3d().at_offset_in_type(0), attributes[0]);
    assert_eq!(intensity().at_offset_in_type(24), attributes[1]);
    assert_eq!(attributes[0].offset(), 0);
    assert_eq!(attributes[1].offset(), 24);
}

#[test]
fn index_of_and_offset_of() {
    let layout = PointLayout::from_attributes(&[position_3d(), intensity()]).unwrap();
    assert_eq!(Some(0), layout.index_of(&position_3d()));
    assert_eq!(Some(1), layout.index_of(&intensity()));
    assert_eq!(None, layout.index_of(&classification()));
    assert_eq!(
        None,
        layout.index_of(&intensity().with_custom_datatype(PointAttributeDataType::U8))
    );
    assert_eq!(Some(0), layout.offset_of(&position_3d()));
    assert_eq!(Some(24), layout.offset_of(&intensity()));
    assert_eq!(None, layout.offset_of(&classification()));
}

#[test]
fn compare_without_offsets_ignores_order_and_placement() {
    let natural = PointLayout::from_attributes(&[position_3d(), intensity(), return_number()])
        .unwrap();
    let reordered = PointLayout::from_attributes(&[return_number(), position_3d(), intensity()])
        .unwrap();
    let packed =
        PointLayout::from_attributes_packed(&[intensity(), return_number(), position_3d()], 1)
            .unwrap();
    let placed = PointLayout::from_members_and_alignment(
        &[
            intensity().at_offset_in_type(100),
            position_3d().at_offset_in_type(40),
            return_number().at_offset_in_type(7),
        ],
        2,
    )
    .unwrap();
    let layouts = [&natural, &reordered, &packed, &placed];
    for a in layouts {
        for b in layouts {
            assert!(a.compare_without_offsets(b));
        }
    }
    assert_ne!(offsets(&natural), offsets(&packed));
}

#[test]
fn compare_without_offsets_tells_layouts_apart() {
    let two = PointLayout::from_attributes(&[position_3d(), intensity()]).unwrap();
    let three = PointLayout::from_attributes(&[position_3d(), intensity(), gps_time()]).unwrap();
    let other_type = PointLayout::from_attributes(&[
        position_3d(),
        intensity().with_custom_datatype(PointAttributeDataType::U32),
    ])
    .unwrap();
    let other_name = PointLayout::from_attributes(&[position_3d(), gps_time()]).unwrap();
    assert!(!two.compare_without_offsets(&three));
    assert!(!three.compare_without_offsets(&two));
    assert!(!two.compare_without_offsets(&other_type));
    assert!(!other_type.compare_without_offsets(&two));
    assert!(!two.compare_without_offsets(&other_name));
    assert!(two.compare_without_offsets(&two));
    assert!(PointLayout::default().compare_without_offsets(&PointLayout::default()));
}

#[test]
fn default_policy_offsets_are_monotone_and_aligned() {
    let definitions = [
        classification(),
        gps_time(),
        intensity(),
        normal(),
        return_number(),
        color_rgb(),
        position_3d(),
    ];
    let layout = PointLayout::from_attributes(&definitions).unwrap();
    assert_eq!(offsets(&layout), vec![0, 8, 16, 20, 32, 34, 40]);
    let mut previous_end = 0;
    for member in layout.attributes() {
        assert!(member.offset() >= previous_end);
        assert_eq!(member.offset() % member.datatype().min_alignment(), 0);
        previous_end = member.offset() + member.size();
        assert!(layout.size_of_point_entry() >= previous_end);
    }
    assert_eq!(layout.alignment_of_point_entry(), 8);
    assert_eq!(layout.size_of_point_entry(), 64);
    assert_eq!(layout.size_of_point_entry() % layout.alignment_of_point_entry(), 0);
}

#[test]
fn member_identity_ignores_the_offset() {
    let member = PointAttributeMember::custom("Custom", PointAttributeDataType::F32, 8);
    let definition = PointAttributeDefinition::from(member);
    let by_reference = PointAttributeDefinition::from(&member);
    assert_eq!(definition, by_reference);
    for offset in [0_u64, 8, 9, u64::MAX] {
        let placed_again = definition.at_offset_in_type(offset);
        assert_eq!(placed_again, member);
        assert_eq!(placed_again.offset(), offset);
    }
    assert_ne!(
        member,
        PointAttributeMember::custom("Custom", PointAttributeDataType::I32, 8)
    );
    assert_ne!(
        member,
        PointAttributeMember::custom("custom", PointAttributeDataType::F32, 8)
    );
}
