use peppaint::frame_sleep_micros;
use peppaint::shapes::checked_rounded_rect_ring;
use peppaint::rounded_rect_ring;
use peppaint::ArcPoint;
use peppaint::AttributeLayout;
use peppaint::BufferType;
use peppaint::Corner;
use peppaint::DepricPaintingVertex;
use peppaint::DrawType;
use peppaint::FrameStep;
use peppaint::MoviePlayer;
use peppaint::PaintingVertex;
use peppaint::Pos;
use peppaint::PosColor;
use peppaint::TexFiltering;
use peppaint::TexWrapping;
use peppaint::TextureParams;
use peppaint::Type;
use peppaint::Vertex;
use peppaint::VertexLayout;
use peppaint::FRAME_TIME_30FPS_IN_MICROS;
use peppaint::FRAME_TIME_60FPS_IN_MICROS;
use peppaint::MICROS_PER_SECOND;

fn floats(location: usize, n_elements: usize, byte_offset: usize) -> AttributeLayout {
    AttributeLayout { location, n_elements, byte_offset, type_: Type::Float }
}

#[test]
fn the_painting_vertex_is_seven_packed_floats() {
    let layout = PaintingVertex::<f32>::get_layout();
    assert_eq!(layout.stride, 28);
    assert_eq!(layout.attrib_layouts, vec![floats(0, 2, 0), floats(1, 4, 8), floats(2, 1, 24)]);
    assert!(layout.check_packed());
    assert_eq!(layout.packed_size(), Some(28));
    assert_eq!(layout.stride, std::mem::size_of::<[f32; 7]>());
}

#[test]
fn the_other_standard_vertices_are_packed_too() {
    let layout = DepricPaintingVertex::<f32>::get_layout();
    assert_eq!(layout.stride, 32);
    assert_eq!(layout.attrib_layouts, vec![floats(0, 3, 0), floats(1, 4, 12), floats(2, 1, 28)]);
    assert!(layout.check_packed());
    let layout = Pos::<f32>::get_layout();
    assert_eq!(layout.stride, 12);
    assert_eq!(layout.attrib_layouts, vec![floats(0, 3, 0)]);
    assert!(layout.check_packed());
    let layout = PosColor::<f32>::get_layout();
    assert_eq!(layout.stride, 28);
    assert_eq!(layout.attrib_layouts, vec![floats(0, 3, 0), floats(1, 4, 12)]);
    assert!(layout.check_packed());
}

#[test]
fn a_layout_with_a_gap_or_a_wrong_stride_is_not_packed() {
    let gap = VertexLayout { stride: 32, attrib_layouts: vec![floats(0, 2, 0), floats(1, 4, 12)] };
    assert!(!gap.check_packed());
    assert_eq!(gap.packed_size(), Some(24));
    let stride = VertexLayout { stride: 32, attrib_layouts: vec![floats(0, 2, 0), floats(1, 4, 8)] };
    assert!(!stride.check_packed());
    let slot = VertexLayout { stride: 24, attrib_layouts: vec![floats(0, 2, 0), floats(2, 4, 8)] };
    assert!(!slot.check_packed());
    let bytes = VertexLayout {
        stride: 7,
        attrib_layouts: vec![
            floats(0, 1, 0),
            AttributeLayout { location: 1, n_elements: 3, byte_offset: 4, type_: Type::Ubyte },
        ],
    };
    assert!(bytes.check_packed());
    let huge = VertexLayout { stride: 0, attrib_layouts: vec![floats(0, usize::MAX, 0)] };
    assert_eq!(huge.packed_size(), None);
    assert!(!huge.check_packed());
}

#[test]
fn element_types_map_to_their_enumerants_and_sizes() {
    assert_eq!(Type::Float.to_gl_type_enum(), 0x1406);
    assert_eq!(Type::Int.to_gl_type_enum(), 0x1404);
    assert_eq!(Type::Uint.to_gl_type_enum(), 0x1405);
    assert_eq!(Type::Byte.to_gl_type_enum(), 0x1400);
    assert_eq!(Type::Ubyte.to_gl_type_enum(), 0x1401);
    assert_eq!(Type::Float.to_gl_type_enum(), gl::FLOAT);
    assert_eq!(Type::Float.size_in_bytes(), 4);
    assert_eq!(Type::Int.size_in_bytes(), 4);
    assert_eq!(Type::Uint.size_in_bytes(), 4);
    assert_eq!(Type::Byte.size_in_bytes(), 1);
    assert_eq!(Type::Ubyte.size_in_bytes(), 1);
}

#[test]
fn buffers_map_to_their_targets_and_usage_hints() {
    assert_eq!(BufferType::Index.to_gl_enum(), 0x8893);
    assert_eq!(BufferType::Vertex.to_gl_enum(), 0x8892);
    assert_eq!(DrawType::Static.to_gl_enum(), 0x88E4);
    assert_eq!(DrawType::Dynamic.to_gl_enum(), 0x88E8);
    assert_eq!(BufferType::Index.to_gl_enum(), gl::ELEMENT_ARRAY_BUFFER);
    assert_eq!(DrawType::Dynamic.to_gl_enum(), gl::DYNAMIC_DRAW);
}

#[test]
fn texture_parameters_map_to_their_enumerants() {
    let params: TextureParams<f32> = TextureParams::default_params();
    let gl = params.set();
    assert_eq!(gl.wrap, 0x2901);
    assert_eq!(gl.border_color, None);
    assert_eq!(gl.min_filter, 0x2703);
    assert_eq!(gl.mag_filter, 0x2601);
    let params = TextureParams {
        wrapping: TexWrapping::Constant((0.5f32, 0.25, 0.0, 1.0)),
        filtering: TexFiltering::Nearest,
    };
    let gl = params.set();
    assert_eq!(gl.wrap, 0x812D);
    assert_eq!(gl.border_color, Some((0.5, 0.25, 0.0, 1.0)));
    assert_eq!(gl.min_filter, 0x2702);
    assert_eq!(gl.mag_filter, 0x2600);
    assert_eq!(TexWrapping::<f32>::MirrorRepeat.to_gl_wrap(), 0x8370);
    assert_eq!(TexWrapping::<f32>::ClampEdge.to_gl_wrap(), 0x812F);
    assert_eq!(TexWrapping::<f32>::ClampEdge.to_gl_wrap(), gl::CLAMP_TO_EDGE);
}

#[test]
fn a_frame_sleeps_for_what_is_left_of_its_time() {
    assert_eq!(FRAME_TIME_60FPS_IN_MICROS, (MICROS_PER_SECOND as u128) / 60);
    assert_eq!(FRAME_TIME_30FPS_IN_MICROS, (MICROS_PER_SECOND as u128) / 30);
    assert_eq!(frame_sleep_micros(FRAME_TIME_60FPS_IN_MICROS, 6_666), Some(10_000));
    assert_eq!(frame_sleep_micros(FRAME_TIME_30FPS_IN_MICROS, 0), Some(33_333));
    assert_eq!(frame_sleep_micros(16_666, 16_666), None);
    assert_eq!(frame_sleep_micros(16_666, 20_000), None);
    assert_eq!(frame_sleep_micros((1u128 << 64) + 5, 0), Some(5));
}

#[test]
fn the_outline_of_a_rounded_rectangle_passes_the_corners_in_order() {
    let ring = rounded_rect_ring(1);
    let at = |corner: Corner, sample: usize| ArcPoint { corner, sample };
    assert_eq!(
        ring,
        vec![
            at(Corner::TopRight, 0),
            at(Corner::TopRight, 1),
            at(Corner::TopLeft, 1),
            at(Corner::TopLeft, 2),
            at(Corner::BottomLeft, 2),
            at(Corner::BottomLeft, 3),
            at(Corner::BottomRight, 3),
            at(Corner::BottomRight, 0),
            at(Corner::TopRight, 0),
        ]
    );
    let ring = rounded_rect_ring(4);
    assert_eq!(ring.len(), 21);
    assert_eq!(ring[0], ring[20]);
    assert_eq!(ring[4], at(Corner::TopRight, 4));
    assert_eq!(ring[5], at(Corner::TopLeft, 4));
    assert_eq!(ring[9], at(Corner::TopLeft, 8));
    assert_eq!(ring[10], at(Corner::BottomLeft, 8));
    assert_eq!(ring[14], at(Corner::BottomLeft, 12));
    assert_eq!(ring[15], at(Corner::BottomRight, 12));
    assert_eq!(ring[18], at(Corner::BottomRight, 15));
    assert_eq!(ring[19], at(Corner::BottomRight, 0));
    assert_eq!(ring[20], at(Corner::TopRight, 0));
    assert!(ring.iter().all(|p| p.sample < 16));
}

#[test]
fn every_arc_of_a_rounded_rectangle_has_one_point_more_than_segments() {
    for prec in [1usize, 2, 4, 30] {
        let ring = rounded_rect_ring(prec);
        assert_eq!(ring.len(), 4 * (prec + 1) + 1);
        for corner in [Corner::TopRight, Corner::TopLeft, Corner::BottomLeft, Corner::BottomRight] {
            let on_arc = ring[..ring.len() - 1].iter().filter(|p| p.corner == corner).count();
            assert_eq!(on_arc, prec + 1);
        }
        assert_eq!(ring[0], ring[ring.len() - 1]);
    }
}

#[test]
fn an_outline_without_segments_cannot_be_had() {
    assert_eq!(checked_rounded_rect_ring(0), None);
    assert_eq!(checked_rounded_rect_ring(usize::MAX / 4), None);
    assert_eq!(checked_rounded_rect_ring((usize::MAX - 1) / 4), None);
    assert_eq!(checked_rounded_rect_ring(2).map(|r| r.len()), Some(13));
}

#[test]
fn the_frame_loop_ends_on_close_or_escape_and_else_sleeps_out_the_frame() {
    assert_eq!(MoviePlayer::frame_time_micros(60), Some(16_666));
    assert_eq!(MoviePlayer::frame_time_micros(30), Some(33_333));
    assert_eq!(MoviePlayer::frame_time_micros(1), Some(1_000_000));
    assert_eq!(MoviePlayer::frame_time_micros(0), None);
    assert_eq!(MoviePlayer::after_frame(true, false, 16_666, 0), FrameStep::Stop);
    assert_eq!(MoviePlayer::after_frame(false, true, 16_666, 0), FrameStep::Stop);
    assert_eq!(
        MoviePlayer::after_frame(false, false, 16_666, 6_666),
        FrameStep::Next { sleep_micros: Some(10_000) }
    );
    assert_eq!(
        MoviePlayer::after_frame(false, false, 16_666, 20_000),
        FrameStep::Next { sleep_micros: None }
    );
}
