use blueprint::handles::RPipelineId;
use blueprint::pipeline::{RCullMode, RPolyMode, RShaderKind};
use blueprint::renderer::{RBuffer, RBufferUse, Renderer};
use blueprint::sdf::{
    pack_sdf_objects, sys_data, RSDFObject, RSDFObjectC, RSDFObjectType, SDFObject, SDFObjectType,
};
use blueprint::vertex::RVertex;
use blueprint::words::{RColor, Vec2};

fn w(x: f32) -> u32 {
    x.to_bits()
}

fn v2(x: f32, y: f32) -> Vec2 {
    Vec2::new(w(x), w(y))
}

fn rect_vertices() -> Vec<RVertex> {
    vec![RVertex { position: [0, 0, 0], uv: [0, 0], normal: [0, 0, 0] }; 4]
}

#[test]
fn shape_tags() {
    assert_eq!(u32::from(RSDFObjectType::Blank), 0);
    assert_eq!(u32::from(RSDFObjectType::Circle), 1);
    assert_eq!(u32::from(RSDFObjectType::Rectangle), 2);
    assert_eq!(u32::from(RSDFObjectType::Triangle), 3);
    assert_eq!(u32::from(RSDFObjectType::RectAngled), 4);
    assert_eq!(u32::from(RSDFObjectType::Pie), 0);
    assert_eq!(u32::from(SDFObjectType::Blank), 0);
    assert_eq!(u32::from(SDFObjectType::Circle), 1);
    assert_eq!(u32::from(SDFObjectType::Rectangle), 2);
    assert_eq!(u32::from(SDFObjectType::Triangle), 3);
    assert_eq!(u32::from(SDFObjectType::RectAngled), 4);
    assert_eq!(u32::from(SDFObjectType::Line), 5);
    assert_eq!(u32::from(SDFObjectType::Pie), 0);
}

#[test]
fn shader_shape_constructors() {
    let d = RSDFObject::default();
    assert_eq!(d.obj_type, RSDFObjectType::Blank);
    assert_eq!(f32::from_bits(d.radius), 10.0);
    assert_eq!(d.color, RColor::white());
    let c = RSDFObject::circle(v2(3.0, 4.0), w(5.0));
    assert_eq!(c.obj_type, RSDFObjectType::Circle);
    assert_eq!((c.center, c.radius), (v2(3.0, 4.0), w(5.0)));
    let r = RSDFObject::rect(v2(1.0, 2.0), v2(2.0, 2.0), None);
    assert_eq!((r.obj_type, r.rotation), (RSDFObjectType::Rectangle, 0));
    let ra = RSDFObject::rect(v2(1.0, 2.0), v2(2.0, 2.0), Some(w(0.5)));
    assert_eq!((ra.obj_type, ra.rotation), (RSDFObjectType::RectAngled, w(0.5)));
    assert_eq!(ra.rect_size, v2(2.0, 2.0));
    let t = RSDFObject::triangle(v2(0.0, 0.0), v2(1.0, 0.0), v2(0.0, 1.0))
        .with_color(RColor::rgba_pct(w(1.0), 0, 0, w(1.0)))
        .with_corner(w(0.25))
        .as_line(w(2.0));
    assert_eq!(t.obj_type, RSDFObjectType::Triangle);
    assert_eq!(t.tri_size, (v2(1.0, 0.0), v2(0.0, 1.0)));
    assert_eq!((t.corner_radius, t.line_thickness), (w(0.25), w(2.0)));
    assert_eq!(t.color.r, w(1.0));
}

#[test]
fn host_shape_constructors() {
    let d = SDFObject::default();
    assert_eq!(d.obj_type, SDFObjectType::Blank);
    assert_eq!(f32::from_bits(d.radius), 10.0);
    let c = SDFObject::circle(v2(3.0, 4.0), w(5.0));
    assert_eq!((c.obj_type, c.center, c.radius), (SDFObjectType::Circle, v2(3.0, 4.0), w(5.0)));
    let r = SDFObject::rect(v2(0.0, 0.0), v2(2.0, 2.0), Some(w(45.0)));
    assert_eq!((r.obj_type, r.rotation), (SDFObjectType::RectAngled, w(45.0)));
    assert_eq!(SDFObject::rect(v2(0.0, 0.0), v2(2.0, 2.0), None).obj_type, SDFObjectType::Rectangle);
    let t = SDFObject::triangle(v2(0.0, 0.0), v2(1.0, 0.0), v2(0.0, 1.0));
    assert_eq!(t.tri_size, (v2(1.0, 0.0), v2(0.0, 1.0)));
    let mut l = SDFObject::line(v2(0.0, 0.0), v2(5.0, 5.0), w(1.5));
    assert_eq!((l.obj_type, l.rect_size, l.line_thickness), (SDFObjectType::Line, v2(5.0, 5.0), w(1.5)));
    l.update_line(v2(1.0, 1.0), v2(2.0, 2.0));
    assert_eq!((l.center, l.rect_size), (v2(1.0, 1.0), v2(2.0, 2.0)));
    assert_eq!(l.line_thickness, w(1.5));
    let m = SDFObject::circle(v2(0.0, 0.0), w(1.0)).with_corner(w(0.5)).as_line(w(0.1));
    assert_eq!((m.corner_radius, m.line_thickness), (w(0.5), w(0.1)));
}

#[test]
fn shape_record_layout() {
    let circle = RSDFObject::circle(v2(3.0, 4.0), w(5.0)).with_corner(w(0.5)).as_line(w(0.25));
    let rec = RSDFObjectC::from(&circle);
    assert_eq!(
        rec.words(),
        [
            1, w(5.0), w(3.0), w(4.0), 0, 0, w(0.5), 0, w(0.25), 0, 0, 0, w(1.0), w(1.0), w(1.0),
            w(1.0)
        ]
    );
    let tri = RSDFObject::triangle(v2(0.0, 0.0), v2(1.0, 2.0), v2(3.0, 4.0));
    let rec = RSDFObjectC::from(&tri);
    assert_eq!(rec.object_type, 3);
    assert_eq!(rec.v2, [w(1.0), w(2.0)]);
    assert_eq!(rec.v3, [w(3.0), w(4.0)]);
    let mut rect = RSDFObject::rect(v2(0.0, 0.0), v2(7.0, 8.0), Some(w(1.0)));
    rect.tri_size = (v2(9.0, 9.0), v2(9.0, 9.0));
    let rec = RSDFObjectC::from(&rect);
    assert_eq!(rec.object_type, 4);
    assert_eq!(rec.v2, [w(7.0), w(8.0)]);
    assert_eq!(rec.v3, [0, 0]);
    assert_eq!(rec.rotation, w(1.0));
}

#[test]
fn shape_count_is_capped() {
    let z = v2(0.0, 0.0);
    assert_eq!(sys_data(z, z, 0, z, 0).obj_count, 0);
    assert_eq!(sys_data(z, z, 0, z, 99).obj_count, 99);
    assert_eq!(sys_data(z, z, 0, z, 100).obj_count, 100);
    assert_eq!(sys_data(z, z, 0, z, 101).obj_count, 100);
    let s = sys_data(v2(800.0, 600.0), v2(1.0, 2.0), w(0.5), v2(3.0, 4.0), 7);
    assert_eq!(s.words(), [w(800.0), w(600.0), w(1.0), w(2.0), 7, w(0.5), w(3.0), w(4.0)]);
}

#[test]
fn shapes_pack_end_to_end() {
    let shapes = vec![
        RSDFObject::circle(v2(1.0, 1.0), w(2.0)),
        RSDFObject::rect(v2(3.0, 3.0), v2(4.0, 4.0), None),
    ];
    let words = pack_sdf_objects(&shapes);
    assert_eq!(words.len(), 32);
    assert_eq!(&words[0..16], &RSDFObjectC::from(&shapes[0]).words());
    assert_eq!(&words[16..32], &RSDFObjectC::from(&shapes[1]).words());
    assert!(pack_sdf_objects(&Vec::new()).is_empty());
}

#[test]
fn sdf_pipeline_has_one_object_with_two_uniform_buffers() {
    let mut r = Renderer::new(800, 600, 256);
    let (p, writes) = r.add_sdf_pipeline(&rect_vertices(), &vec![0, 1, 2, 2, 3, 0]);
    assert_eq!(p, RPipelineId(0));
    assert_eq!(writes.len(), 2);
    assert_eq!(writes[1].words, vec![0, 1, 2, 2, 3, 0]);
    assert_eq!(r.pipelines[0].shader, RShaderKind::Sdf);
    assert_eq!(r.pipelines[0].cull_mode, RCullMode::Off);
    assert_eq!(r.pipelines[0].poly_mode, RPolyMode::Fill);
    assert_eq!(r.pipelines[0].obj_indices, vec![0]);
    assert_eq!(
        r.buffers,
        vec![
            RBuffer { size: 128, usage: RBufferUse::Vertex },
            RBuffer { size: 24, usage: RBufferUse::Index },
            RBuffer { size: 256, usage: RBufferUse::Uniform },
            RBuffer { size: 25600, usage: RBufferUse::Uniform },
        ]
    );
    let shapes = vec![RSDFObject::circle(v2(1.0, 1.0), w(2.0)); 3];
    let up = r.update_sdf_objects(p, v2(800.0, 600.0), v2(5.0, 6.0), w(0.5), v2(7.0, 8.0), &shapes);
    assert_eq!(up.len(), 2);
    assert_eq!(up[0].buffer, 2);
    assert_eq!(up[0].words, vec![w(800.0), w(600.0), w(5.0), w(6.0), 3, w(0.5), w(7.0), w(8.0)]);
    assert_eq!(up[1].buffer, 3);
    assert_eq!(up[1].words.len(), 48);
}
