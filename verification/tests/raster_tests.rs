use hello_triangle::raster::{
    depth_test, resolve_fragment, viewport_map, Fragment, ScreenVertex, AMBIENT_RAW, LIGHT_RAW,
};
use hello_triangle::{
    clip_cull_triangle, triangle_screen_bounding_box, BoundingBox2D, ClipResult, Fixed, Mat4,
    Raster_Clipped_Triangle, Raster_Triangle, RenderType, Texture, Triangle, Vec2, Vec3, Vec4,
    Vertex,
};

const SIDE: usize = 8;

fn r(value: f64) -> Fixed {
    Fixed::from_raw((value * 4294967296.0).round() as i64)
}

fn p2(x: f64, y: f64) -> Vec2 {
    Vec2::new(r(x), r(y))
}

fn rgb(red: f64, green: f64, blue: f64) -> Vec3 {
    Vec3::new(r(red), r(green), r(blue))
}

fn toward_viewer() -> Vec3 {
    rgb(0.0, 0.0, 1.0)
}

fn vertex(x: f64, y: f64, z: f64, color: Vec3) -> Vertex {
    Vertex {
        position: Vec4::new(r(x), r(y), r(z), r(1.0)),
        normal: toward_viewer(),
        color,
        uv: p2(0.75, 0.25),
    }
}

/// A triangle that covers every pixel of the viewport at one depth.
fn covering(z: f64, color: Vec3) -> Triangle {
    Triangle::Construct(
        vertex(-1.0, -1.0, z, color),
        vertex(3.0, -1.0, z, color),
        vertex(-1.0, 3.0, z, color),
    )
}

/// The upper left half of the viewport, up to the diagonal.
fn upper_left_half(z: f64, color: Vec3) -> Triangle {
    Triangle::Construct(
        vertex(-1.0, 1.0, z, color),
        vertex(-1.0, -1.0, z, color),
        vertex(1.0, 1.0, z, color),
    )
}

fn viewport() -> Vec2 {
    Vec2::from_ints(SIDE as i64, SIDE as i64)
}

fn empty_frame(side: usize) -> (Vec<u32>, Vec<Fixed>) {
    (vec![0u32; side * side], vec![Fixed::max_value(); side * side])
}

fn draw(tri: &Triangle, frame: &mut (Vec<u32>, Vec<Fixed>), texture: Option<&Texture>, mode: RenderType) {
    Raster_Clipped_Triangle(tri, &mut frame.0, texture, &mut frame.1, viewport(), &mode);
}

const LIT_RED: u32 = 0xFFC6_3333;
const LIT_GREEN: u32 = 0xFF33_C633;
const UNLIT: u32 = 0xFF33_3333;

#[test]
fn light_constants() {
    assert_eq!(LIGHT_RAW, (4294967296.0_f64 / 3.0_f64.sqrt()).round() as i64);
    assert_eq!(AMBIENT_RAW, (4294967296.0_f64 / 5.0).ceil() as i64);
}

#[test]
fn the_viewport_flips_the_vertical_axis() {
    let size = viewport();
    let centre = viewport_map(&vertex(0.0, 0.0, 0.5, rgb(1.0, 0.0, 0.0)), size).unwrap();
    assert_eq!(centre.screen, p2(4.0, 4.0));
    assert_eq!(centre.depth, r(0.5));
    assert_eq!(centre.inv_w, r(1.0));
    let top_left = viewport_map(&vertex(-1.0, 1.0, 0.0, rgb(1.0, 0.0, 0.0)), size).unwrap();
    assert_eq!(top_left.screen, p2(0.0, 0.0));
    let bottom_right = viewport_map(&vertex(1.0, -1.0, 0.0, rgb(1.0, 0.0, 0.0)), size).unwrap();
    assert_eq!(bottom_right.screen, p2(8.0, 8.0));
}

#[test]
fn the_viewport_divides_by_w() {
    let v = Vertex {
        position: Vec4::new(r(2.0), r(-2.0), r(1.0), r(2.0)),
        normal: rgb(0.0, 0.0, 2.0),
        color: rgb(1.0, 0.5, 0.0),
        uv: p2(1.0, 3.0),
    };
    let mapped: ScreenVertex = viewport_map(&v, viewport()).unwrap();
    assert_eq!(mapped.screen, p2(8.0, 8.0));
    assert_eq!(mapped.depth, r(0.5));
    assert_eq!(mapped.inv_w, r(0.5));
    assert_eq!(mapped.attributes.position, Vec4::new(r(1.0), r(-1.0), r(0.5), r(1.0)));
    assert_eq!(mapped.attributes.normal, rgb(0.0, 0.0, 1.0));
    assert_eq!(mapped.attributes.color, rgb(0.5, 0.25, 0.0));
    assert_eq!(mapped.attributes.uv, p2(0.5, 1.5));
}

#[test]
fn a_vertex_with_w_zero_is_not_mapped() {
    let v = Vertex {
        position: Vec4::new(r(2.0), r(-2.0), r(1.0), r(0.0)),
        normal: toward_viewer(),
        color: rgb(1.0, 0.5, 0.0),
        uv: p2(1.0, 3.0),
    };
    assert_eq!(viewport_map(&v, viewport()), None);
}

#[test]
fn a_box_inside_the_viewport_is_kept() {
    let bb = triangle_screen_bounding_box(&[p2(1.0, 1.5), p2(5.0, 2.0), p2(3.0, 6.0)], viewport());
    assert_eq!(
        bb,
        Some(BoundingBox2D { left: r(1.0), right: r(5.0), top: r(1.5), bot: r(6.0) })
    );
}

#[test]
fn a_box_is_cut_down_to_the_viewport() {
    let bb =
        triangle_screen_bounding_box(&[p2(-3.0, -2.0), p2(12.0, 4.0), p2(3.0, 20.0)], viewport());
    assert_eq!(
        bb,
        Some(BoundingBox2D { left: r(0.0), right: r(7.0), top: r(0.0), bot: r(7.0) })
    );
    let over_the_top =
        triangle_screen_bounding_box(&[p2(1.0, -2.0), p2(5.0, 3.0), p2(3.0, 1.0)], viewport());
    assert_eq!(
        over_the_top,
        Some(BoundingBox2D { left: r(1.0), right: r(5.0), top: r(0.0), bot: r(3.0) })
    );
}

#[test]
fn a_box_outside_the_viewport_is_dropped() {
    let size = viewport();
    let right = [p2(8.0, 1.0), p2(9.0, 2.0), p2(10.0, 3.0)];
    let left = [p2(-3.0, 1.0), p2(-2.0, 2.0), p2(-0.5, 3.0)];
    let below = [p2(1.0, 8.0), p2(2.0, 9.0), p2(3.0, 10.0)];
    let above = [p2(1.0, -3.0), p2(2.0, -2.0), p2(3.0, -0.5)];
    assert_eq!(triangle_screen_bounding_box(&right, size), None);
    assert_eq!(triangle_screen_bounding_box(&left, size), None);
    assert_eq!(triangle_screen_bounding_box(&below, size), None);
    assert_eq!(triangle_screen_bounding_box(&above, size), None);
}

#[test]
fn the_depth_test_is_strict() {
    let near = Fragment { depth: r(0.25), color: 7 };
    assert_eq!(depth_test(Some(near), r(0.5), 1), (r(0.25), 7));
    assert_eq!(depth_test(Some(near), r(0.25), 1), (r(0.25), 1));
    assert_eq!(depth_test(Some(near), r(0.125), 1), (r(0.125), 1));
    assert_eq!(depth_test(None, r(0.5), 1), (r(0.5), 1));
    assert_eq!(depth_test(Some(near), Fixed::max_value(), 1), (r(0.25), 7));
}

#[test]
fn a_covering_triangle_fills_every_pixel() {
    let mut frame = empty_frame(SIDE);
    draw(&covering(1.0, rgb(1.0, 0.0, 0.0)), &mut frame, None, RenderType::Std);
    assert_eq!(frame.0, vec![LIT_RED; SIDE * SIDE]);
    assert_eq!(frame.1, vec![r(1.0); SIDE * SIDE]);
}

#[test]
fn a_surface_turned_from_the_light_keeps_the_ambient_term() {
    let mut tri = covering(1.0, rgb(1.0, 0.0, 0.0));
    tri.vert0.normal = rgb(0.0, 0.0, -1.0);
    tri.vert1.normal = rgb(0.0, 0.0, -1.0);
    tri.vert2.normal = rgb(0.0, 0.0, -1.0);
    let mut frame = empty_frame(SIDE);
    draw(&tri, &mut frame, None, RenderType::Std);
    assert_eq!(frame.0, vec![UNLIT; SIDE * SIDE]);
}

#[test]
fn half_the_viewport_is_filled_up_to_the_diagonal() {
    let mut frame = empty_frame(SIDE);
    draw(&upper_left_half(0.0, rgb(1.0, 0.0, 0.0)), &mut frame, None, RenderType::Std);
    for y in 0..SIDE {
        for x in 0..SIDE {
            let inside = x + y < SIDE;
            let id = x + y * SIDE;
            assert_eq!(frame.0[id], if inside { LIT_RED } else { 0 }, "pixel {} {}", x, y);
            assert_eq!(frame.1[id], if inside { r(0.0) } else { Fixed::max_value() });
        }
    }
    assert_eq!(frame.0.iter().filter(|&&c| c != 0).count(), 36);
}

#[test]
fn winding_does_not_matter_to_the_scan() {
    let tri = upper_left_half(0.0, rgb(1.0, 0.0, 0.0));
    let turned = Triangle::Construct(tri.vert0, tri.vert2, tri.vert1);
    let mut one = empty_frame(SIDE);
    let mut other = empty_frame(SIDE);
    draw(&tri, &mut one, None, RenderType::Std);
    draw(&turned, &mut other, None, RenderType::Std);
    assert_eq!(one, other);
}

#[test]
fn depth_mode_shows_grey() {
    let mut frame = empty_frame(SIDE);
    draw(&covering(1.0, rgb(1.0, 0.0, 0.0)), &mut frame, None, RenderType::Depth);
    assert_eq!(frame.0, vec![0xFFFF_FFFF; SIDE * SIDE]);
    let mut near = empty_frame(SIDE);
    draw(&covering(0.0, rgb(1.0, 0.0, 0.0)), &mut near, None, RenderType::Depth);
    assert_eq!(near.0, vec![0xFF00_0000; SIDE * SIDE]);
    assert_eq!(near.1, vec![r(0.0); SIDE * SIDE]);
}

#[test]
fn depth_is_blended_across_the_triangle() {
    let tri = Triangle::Construct(
        vertex(-1.0, -1.0, 0.25, rgb(1.0, 0.0, 0.0)),
        vertex(3.0, -1.0, 0.25, rgb(1.0, 0.0, 0.0)),
        vertex(-1.0, 3.0, 0.25, rgb(1.0, 0.0, 0.0)),
    );
    let mut frame = empty_frame(SIDE);
    draw(&tri, &mut frame, None, RenderType::Std);
    for depth in &frame.1 {
        assert!((depth.raw() - r(0.25).raw()).abs() <= 4);
    }
}

fn checker() -> Texture {
    Texture::new(2, 2, vec![0xFF00_00AA, 0xFF00_00BB, 0xFF00_00CC, 0xFF00_00DD]).unwrap()
}

#[test]
fn textures_need_matching_sizes() {
    assert!(Texture::new(2, 2, vec![0; 4]).is_some());
    assert!(Texture::new(2, 2, vec![0; 3]).is_none());
    assert!(Texture::new(0, 2, vec![]).is_none());
    assert!(Texture::new(2, 0, vec![]).is_none());
    assert!(Texture::new(usize::MAX, 2, vec![0; 4]).is_none());
}

#[test]
fn textures_are_sampled_at_the_nearest_pixel_and_wrap() {
    let tex = checker();
    assert_eq!(tex.sample(r(0.25), r(0.25)), 0xFF00_00AA);
    assert_eq!(tex.sample(r(0.75), r(0.25)), 0xFF00_00BB);
    assert_eq!(tex.sample(r(0.25), r(0.75)), 0xFF00_00CC);
    assert_eq!(tex.sample(r(0.75), r(0.75)), 0xFF00_00DD);
    assert_eq!(tex.sample(r(0.0), r(0.0)), 0xFF00_00AA);
    assert_eq!(tex.sample(r(0.5), r(0.0)), 0xFF00_00BB);
    assert_eq!(tex.sample(r(1.25), r(3.75)), 0xFF00_00CC);
    assert_eq!(tex.sample(r(-0.25), r(-0.75)), 0xFF00_00BB);
    assert_eq!(tex.sample(r(1.0), r(1.0)), 0xFF00_00AA);
}

#[test]
fn a_bound_texture_gives_the_colour() {
    let tex = checker();
    let mut frame = empty_frame(SIDE);
    draw(&covering(1.0, rgb(1.0, 0.0, 0.0)), &mut frame, Some(&tex), RenderType::Std);
    assert_eq!(frame.0, vec![0xFF00_00BB; SIDE * SIDE]);
    let mut grey = empty_frame(SIDE);
    draw(&covering(1.0, rgb(1.0, 0.0, 0.0)), &mut grey, Some(&tex), RenderType::Depth);
    assert_eq!(grey.0, vec![0xFFFF_FFFF; SIDE * SIDE]);
}

#[test]
fn the_nearer_of_two_draws_wins_in_either_order() {
    let far = covering(1.0, rgb(1.0, 0.0, 0.0));
    let near = upper_left_half(0.0, rgb(0.0, 1.0, 0.0));

    let mut only_near = empty_frame(SIDE);
    draw(&near, &mut only_near, None, RenderType::Std);

    let mut far_then_near = empty_frame(SIDE);
    draw(&far, &mut far_then_near, None, RenderType::Std);
    draw(&near, &mut far_then_near, None, RenderType::Std);

    let mut near_then_far = empty_frame(SIDE);
    draw(&near, &mut near_then_far, None, RenderType::Std);
    draw(&far, &mut near_then_far, None, RenderType::Std);

    assert_eq!(far_then_near, near_then_far);
    for id in 0..SIDE * SIDE {
        let covered = only_near.0[id] != 0;
        assert_eq!(far_then_near.0[id], if covered { LIT_GREEN } else { LIT_RED });
        assert_eq!(far_then_near.1[id], if covered { r(0.0) } else { r(1.0) });
    }
}

#[test]
fn drawing_the_same_triangle_nearer_is_as_drawing_only_the_nearer() {
    let far = upper_left_half(1.0, rgb(1.0, 0.0, 0.0));
    let near = upper_left_half(0.0, rgb(0.0, 1.0, 0.0));
    let mut both = empty_frame(SIDE);
    draw(&far, &mut both, None, RenderType::Std);
    draw(&near, &mut both, None, RenderType::Std);
    let mut only = empty_frame(SIDE);
    draw(&near, &mut only, None, RenderType::Std);
    assert_eq!(both, only);
}

#[test]
fn drawing_the_same_triangle_farther_changes_nothing() {
    let far = upper_left_half(1.0, rgb(1.0, 0.0, 0.0));
    let near = upper_left_half(0.0, rgb(0.0, 1.0, 0.0));
    let mut frame = empty_frame(SIDE);
    draw(&near, &mut frame, None, RenderType::Std);
    let before = frame.clone();
    draw(&far, &mut frame, None, RenderType::Std);
    assert_eq!(frame, before);
}

#[test]
fn among_equal_depths_the_earlier_draw_stays() {
    let first = covering(1.0, rgb(1.0, 0.0, 0.0));
    let second = covering(1.0, rgb(0.0, 1.0, 0.0));
    let mut frame = empty_frame(SIDE);
    draw(&first, &mut frame, None, RenderType::Std);
    draw(&second, &mut frame, None, RenderType::Std);
    assert_eq!(frame.0, vec![LIT_RED; SIDE * SIDE]);
}

#[test]
fn a_triangle_without_area_draws_nothing() {
    let line = Triangle::Construct(
        vertex(-1.0, -1.0, 0.0, rgb(1.0, 0.0, 0.0)),
        vertex(0.0, 0.0, 0.0, rgb(1.0, 0.0, 0.0)),
        vertex(1.0, 1.0, 0.0, rgb(1.0, 0.0, 0.0)),
    );
    let mut frame = empty_frame(SIDE);
    draw(&line, &mut frame, None, RenderType::Std);
    assert_eq!(frame, empty_frame(SIDE));
}

#[test]
fn a_triangle_with_a_zero_w_draws_nothing() {
    let mut tri = covering(0.0, rgb(1.0, 0.0, 0.0));
    tri.vert1.position.w = Fixed::zero();
    let mut frame = empty_frame(SIDE);
    draw(&tri, &mut frame, None, RenderType::Std);
    assert_eq!(frame, empty_frame(SIDE));
}

#[test]
fn a_triangle_off_screen_draws_nothing() {
    let tri = Triangle::Construct(
        vertex(2.0, 2.0, 0.0, rgb(1.0, 0.0, 0.0)),
        vertex(3.0, 2.0, 0.0, rgb(1.0, 0.0, 0.0)),
        vertex(2.0, 3.0, 0.0, rgb(1.0, 0.0, 0.0)),
    );
    let mut frame = empty_frame(SIDE);
    draw(&tri, &mut frame, None, RenderType::Std);
    assert_eq!(frame, empty_frame(SIDE));
}

#[test]
fn with_w_one_the_fragment_is_the_plain_blend() {
    // Vertices on screen at (0, 0), (0, 8) and (8, 0); the pixel centre
    // (2.5, 1.5) has weights one half, three sixteenths and five sixteenths.
    let corner = |x: f64, y: f64, depth: f64, red: f64| ScreenVertex {
        screen: p2(x, y),
        depth: r(depth),
        inv_w: r(1.0),
        attributes: Vertex {
            position: Vec4::new(r(0.0), r(0.0), r(depth), r(1.0)),
            normal: rgb(0.0, 0.0, 0.0),
            color: rgb(red, 0.0, 0.0),
            uv: p2(0.0, 0.0),
        },
    };
    let s0 = corner(0.0, 0.0, 0.0, 0.0);
    let s1 = corner(0.0, 8.0, 1.0, 0.0);
    let s2 = corner(8.0, 0.0, 0.5, 1.0);
    let fragment = resolve_fragment(&s0, &s1, &s2, None, &RenderType::Std, 2, 1).unwrap();
    assert_eq!(fragment.depth, r(3.0 / 16.0 + 0.5 * 5.0 / 16.0));
    // No light reaches a surface without a normal: red is 5/16 * 0 + ambient.
    assert_eq!(fragment.color, UNLIT);
    let grey = resolve_fragment(&s0, &s1, &s2, None, &RenderType::Depth, 2, 1).unwrap();
    assert_eq!(grey.color, 0xFF57_5757);
    assert_eq!(resolve_fragment(&s0, &s1, &s2, None, &RenderType::Std, 7, 7), None);
}

fn square_corner(x: f64, y: f64) -> Vertex {
    Vertex {
        position: Vec4::new(r(x), r(y), r(y - x + 0.26), r(1.0)),
        normal: toward_viewer(),
        color: rgb(1.0, 1.0, 1.0),
        uv: p2(0.0, 0.0),
    }
}

#[test]
fn a_square_cut_by_the_near_plane_shows_its_visible_part() {
    let side: usize = 64;
    let a = square_corner(-0.5, -0.5);
    let b = square_corner(0.5, -0.5);
    let c = square_corner(0.5, 0.5);
    let d = square_corner(-0.5, 0.5);
    let cut = Triangle::Construct(a, b, c);
    let whole = Triangle::Construct(a, c, d);
    let identity = Mat4::identity();

    assert!(matches!(clip_cull_triangle(&cut.transform(&identity)), ClipResult::Two(_)));
    assert!(matches!(clip_cull_triangle(&whole.transform(&identity)), ClipResult::One(_)));

    let size = Vec2::from_ints(side as i64, side as i64);
    let (mut colors, mut depths) = empty_frame(side);
    for tri in [cut, whole] {
        Raster_Triangle(
            &tri,
            &identity,
            &identity,
            None,
            &mut colors,
            &mut depths,
            size,
            &RenderType::Std,
        );
    }
    let filled = colors.iter().filter(|&&px| px != 0).count() as i64;

    let mut expected: i64 = 0;
    for py in 0..side {
        for px in 0..side {
            let x = (px as f64 + 0.5) / side as f64 * 2.0 - 1.0;
            let y = 1.0 - (py as f64 + 0.5) / side as f64 * 2.0;
            let in_square = x.abs() <= 0.5 && y.abs() <= 0.5;
            if in_square && y - x + 0.26 >= 0.0 {
                expected += 1;
            }
        }
    }
    assert!(expected > 700 && expected < 800);
    assert!((filled - expected).abs() <= 8, "filled {} expected {}", filled, expected);
    for depth in &depths {
        assert!(!depth.is_negative());
    }
}

#[test]
fn a_triangle_behind_the_near_plane_leaves_the_frame_alone() {
    let tri = Triangle::Construct(
        vertex(-0.5, -0.5, -0.5, rgb(1.0, 0.0, 0.0)),
        vertex(0.5, -0.5, -0.25, rgb(1.0, 0.0, 0.0)),
        vertex(0.0, 0.5, -0.75, rgb(1.0, 0.0, 0.0)),
    );
    let identity = Mat4::identity();
    let mut colors: Vec<u32> = (0..(SIDE * SIDE) as u32).collect();
    let mut depths = vec![Fixed::max_value(); SIDE * SIDE];
    depths[5] = r(0.5);
    let before = (colors.clone(), depths.clone());
    Raster_Triangle(
        &tri,
        &identity,
        &identity,
        None,
        &mut colors,
        &mut depths,
        viewport(),
        &RenderType::Std,
    );
    assert_eq!((colors, depths), before);
}

#[test]
fn debug_mode_paints_what_clipping_made() {
    let identity = Mat4::identity();
    let white = rgb(1.0, 1.0, 1.0);
    // The whole viewport, with only the corner at the lower left behind the
    // near plane: clipping leaves two triangles.
    let one_behind = Triangle::Construct(
        vertex(-1.0, -1.0, -0.125, white),
        vertex(3.0, -1.0, 1.0, white),
        vertex(-1.0, 3.0, 1.0, white),
    );
    let mut frame = empty_frame(SIDE);
    Raster_Triangle(
        &one_behind,
        &identity,
        &identity,
        None,
        &mut frame.0,
        &mut frame.1,
        viewport(),
        &RenderType::ClipDebug,
    );
    let green = frame.0.iter().filter(|&&px| px == 0xFF33_C633).count();
    let blue = frame.0.iter().filter(|&&px| px == 0xFF33_33C6).count();
    let blank = frame.0.iter().filter(|&&px| px == 0).count();
    assert!(green > 0);
    assert!(blue > 0);
    assert_eq!(green + blue + blank, SIDE * SIDE);

    let mut plain = empty_frame(SIDE);
    Raster_Triangle(
        &one_behind,
        &identity,
        &identity,
        None,
        &mut plain.0,
        &mut plain.1,
        viewport(),
        &RenderType::Std,
    );
    let white_lit = plain.0.iter().filter(|&&px| px == 0xFFC6_C6C6).count();
    assert_eq!(white_lit, green + blue);
    assert_eq!(plain.1, frame.1);

    // An unclipped triangle keeps its colour in debug mode.
    let mut kept = empty_frame(SIDE);
    Raster_Triangle(
        &Triangle::Construct(
            vertex(-1.0, -1.0, 1.0, white),
            vertex(3.0, -1.0, 1.0, white),
            vertex(-1.0, 3.0, 1.0, white),
        ),
        &identity,
        &identity,
        None,
        &mut kept.0,
        &mut kept.1,
        viewport(),
        &RenderType::ClipDebug,
    );
    assert_eq!(kept.0, vec![0xFFC6_C6C6; SIDE * SIDE]);
}

#[test]
fn positions_go_through_the_matrix_and_normals_through_its_cofactors() {
    // Doubling x and y halves the footprint's complement: the triangle that
    // covers a quarter of the viewport covers all of it after scaling.
    let scale = Mat4::from_cols(
        Vec4::from_ints(4, 0, 0, 0),
        Vec4::from_ints(0, 4, 0, 0),
        Vec4::from_ints(0, 0, 1, 0),
        Vec4::from_ints(0, 0, 0, 1),
    );
    let tri = Triangle::Construct(
        vertex(-0.25, -0.25, 1.0, rgb(1.0, 0.0, 0.0)),
        vertex(0.75, -0.25, 1.0, rgb(1.0, 0.0, 0.0)),
        vertex(-0.25, 0.75, 1.0, rgb(1.0, 0.0, 0.0)),
    );
    let mut frame = empty_frame(SIDE);
    Raster_Triangle(
        &tri,
        &Mat4::identity(),
        &scale,
        None,
        &mut frame.0,
        &mut frame.1,
        viewport(),
        &RenderType::Std,
    );
    assert_eq!(frame.0, vec![LIT_RED; SIDE * SIDE]);

    // A model matrix that mirrors z turns the normal from the light.
    let mirror = Mat4::from_cols(
        Vec4::from_ints(1, 0, 0, 0),
        Vec4::from_ints(0, 1, 0, 0),
        Vec4::from_ints(0, 0, -1, 0),
        Vec4::from_ints(0, 0, 0, -1),
    );
    let mut dark = empty_frame(SIDE);
    Raster_Triangle(
        &tri,
        &mirror,
        &scale,
        None,
        &mut dark.0,
        &mut dark.1,
        viewport(),
        &RenderType::Std,
    );
    assert_eq!(dark.0, vec![UNLIT; SIDE * SIDE]);
}
