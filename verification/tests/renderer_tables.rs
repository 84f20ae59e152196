use blueprint::handles::{RObjectId, RPipelineId, RTextureId};
use blueprint::obj_pipeline::{ObjPipeline, RenderObjectSetup};
use blueprint::pipeline::{RCullMode, RPipelineSetup, RPolyMode, RShader, RShaderKind};
use blueprint::renderer::{
    indices_fit, rgba_row_bytes, RBuffer, RBufferUse, RDrawCall, RObjectSetup, RTexture, RTextureFormat, Renderer,
};
use blueprint::update::RObjectUpdate;
use blueprint::vertex::{RVertex, RVertexAnim};

fn identity() -> [u32; 16] {
    let one = 1.0f32.to_bits();
    let mut m = [0u32; 16];
    m[0] = one;
    m[5] = one;
    m[10] = one;
    m[15] = one;
    m
}

fn vertex(x: f32, y: f32) -> RVertex {
    RVertex {
        position: [x.to_bits(), y.to_bits(), 0],
        uv: [0, 0],
        normal: [0, 0, 1.0f32.to_bits()],
    }
}

fn vertices(n: usize) -> Vec<RVertex> {
    (0..n).map(|i| vertex(i as f32, 1.0)).collect()
}

fn triangle(pipeline_id: RPipelineId) -> RObjectSetup {
    RObjectSetup { pipeline_id, vertex_data: vertices(3), ..Default::default() }
}

#[test]
fn new_renderer_is_empty() {
    let r = Renderer::new(800, 600, 256);
    assert_eq!((r.width, r.height, r.min_stride), (800, 600, 256));
    assert!(r.pipelines.is_empty());
    assert!(r.textures.is_empty());
    assert!(r.objects.is_empty());
    assert!(r.buffers.is_empty());
}

#[test]
fn pipeline_handles_are_sequential() {
    let mut r = Renderer::new(800, 600, 256);
    let a = r.add_pipeline(&RPipelineSetup::default());
    let b = r.add_pipeline(&RPipelineSetup {
        shader: RShader::FlatColor,
        cull_mode: RCullMode::Back,
        poly_mode: RPolyMode::Line,
        has_animations: true,
        ..Default::default()
    });
    assert_eq!(a, RPipelineId(0));
    assert_eq!(b, RPipelineId(1));
    assert!(!r.pipelines[0].has_animations);
    assert!(r.pipelines[1].has_animations);
    assert_eq!(r.pipelines[0].shader, RShaderKind::Texture);
    assert_eq!(r.pipelines[1].shader, RShaderKind::FlatColor);
    assert_eq!(r.pipelines[1].cull_mode, RCullMode::Back);
    assert_eq!(r.pipelines[1].poly_mode, RPolyMode::Line);
    assert!(r.pipelines[1].obj_indices.is_empty());
}

#[test]
fn texture_handle_is_a_triple() {
    let mut r = Renderer::new(800, 600, 256);
    let a = r.add_texture(64, 32, None, false);
    let b = r.add_texture(10, 10, Some((200, 100)), true);
    assert_eq!(a, RTextureId { base: 0, msaa: 1, zbuffer: 2 });
    assert_eq!(b, RTextureId { base: 3, msaa: 4, zbuffer: 5 });
    assert_eq!(
        r.textures[0],
        RTexture { width: 64, height: 32, samples: 1, format: RTextureFormat::Rgba8 }
    );
    assert_eq!(
        r.textures[1],
        RTexture { width: 64, height: 32, samples: 4, format: RTextureFormat::Screen }
    );
    assert_eq!(
        r.textures[2],
        RTexture { width: 64, height: 32, samples: 4, format: RTextureFormat::Depth }
    );
    assert_eq!(
        r.textures[3],
        RTexture { width: 200, height: 100, samples: 1, format: RTextureFormat::Screen }
    );
    assert_eq!(r.textures[5].width, 200);
}

#[test]
fn add_object_allocates_buffers() {
    let mut r = Renderer::new(800, 600, 256);
    let p = r.add_pipeline(&RPipelineSetup::default());
    let (id, writes) = r.add_object(&RObjectSetup {
        pipeline_id: p,
        vertex_data: vertices(4),
        indices: vec![0, 1, 2, 2, 3, 0],
        ..Default::default()
    });
    assert_eq!(id, RObjectId(0));
    assert_eq!(writes.len(), 2);
    assert_eq!(writes[0].buffer, 0);
    assert_eq!(writes[0].words.len(), 32);
    assert_eq!(writes[0].words[8], 1.0f32.to_bits());
    assert_eq!(writes[0].words[15], 1.0f32.to_bits());
    assert_eq!(writes[1].buffer, 1);
    assert_eq!(writes[1].words, vec![0, 1, 2, 2, 3, 0]);
    assert_eq!(
        r.buffers,
        vec![
            RBuffer { size: 128, usage: RBufferUse::Vertex },
            RBuffer { size: 24, usage: RBufferUse::Index },
            RBuffer { size: 256, usage: RBufferUse::Uniform },
            RBuffer { size: 256, usage: RBufferUse::Uniform },
        ]
    );
    let o = r.objects[0];
    assert!(o.visible);
    assert_eq!(o.v_buffer, 0);
    assert_eq!(o.index_buffer, Some(1));
    assert_eq!((o.mvp_buffer, o.gen_buffer, o.joints_buffer), (2, 3, None));
    assert_eq!((o.v_count, o.index_count, o.instances), (4, 6, 1));
    assert_eq!(r.pipelines[0].obj_indices, vec![0]);
}

#[test]
fn animated_object_gets_joint_buffer() {
    let mut r = Renderer::new(800, 600, 256);
    let p = r.add_pipeline(&RPipelineSetup { has_animations: true, ..Default::default() });
    let anim: Vec<RVertexAnim> =
        vertices(5).iter().map(|v| v.add_joints([1, 2, 3, 4], [0, 0, 0, 0])).collect();
    let (id, writes) = r.add_object(&RObjectSetup {
        pipeline_id: p,
        vertex_data: vertices(100),
        anim_vertex_data: anim,
        max_joints: 3,
        ..Default::default()
    });
    assert_eq!(writes.len(), 1);
    assert_eq!(writes[0].words.len(), 80);
    assert_eq!(&writes[0].words[8..12], &[1, 2, 3, 4]);
    let o = r.objects[id.0];
    assert_eq!(o.v_count, 5);
    assert_eq!(o.index_buffer, None);
    assert_eq!(
        r.buffers,
        vec![
            RBuffer { size: 320, usage: RBufferUse::Vertex },
            RBuffer { size: 256, usage: RBufferUse::Uniform },
            RBuffer { size: 256, usage: RBufferUse::Uniform },
            RBuffer { size: 192, usage: RBufferUse::Uniform },
        ]
    );
    assert_eq!(o.joints_buffer, Some(3));
}

#[test]
fn handle_survives_updates() {
    let mut r = Renderer::new(800, 600, 256);
    let p = r.add_pipeline(&RPipelineSetup::default());
    let (first, _) = r.add_object(&triangle(p));
    let (second, _) = r.add_object(&triangle(p));
    let before = r.objects[first.0];
    let m = identity();
    for round in 0..10 {
        let mut update = RObjectUpdate::default();
        update.visible = round % 2 == 0;
        r.update_object(first, &update, &m, &m, &m);
        r.update_object(second, &RObjectUpdate::default(), &m, &m, &m);
    }
    let after = r.objects[first.0];
    assert_eq!(r.objects.len(), 2);
    assert!(!after.visible);
    assert_eq!(after.v_buffer, before.v_buffer);
    assert_eq!(after.mvp_buffer, before.mvp_buffer);
    assert_eq!(after.gen_buffer, before.gen_buffer);
    assert_eq!(after.pipe_id, before.pipe_id);
    assert_eq!(r.buffers.len(), 6);
}

#[test]
fn frame_draws_in_listed_then_insertion_order() {
    let mut r = Renderer::new(800, 600, 256);
    let p0 = r.add_pipeline(&RPipelineSetup::default());
    let p1 = r.add_pipeline(&RPipelineSetup::default());
    let (a, _) = r.add_object(&triangle(p0));
    let (b, _) = r.add_object(&RObjectSetup {
        pipeline_id: p1,
        vertex_data: vertices(4),
        indices: vec![0, 1, 2, 2, 3, 0],
        ..Default::default()
    });
    let (c, _) = r.add_object(&triangle(p0));
    let (d, _) = r.add_object(&triangle(p1));
    let m = identity();
    let mut hide = RObjectUpdate::default();
    hide.visible = false;
    r.update_object(c, &hide, &m, &m, &m);
    let draws = r.render_impl(&[p1, p0]);
    assert_eq!(
        draws,
        vec![
            RDrawCall::Indexed { object: b.0, index_count: 6, instances: 1 },
            RDrawCall::Plain { object: d.0, vertex_count: 3, instances: 1 },
            RDrawCall::Plain { object: a.0, vertex_count: 3, instances: 1 },
        ]
    );
    assert!(r.render_impl(&[]).is_empty());
    assert_eq!(r.render_impl(&[p0, p0]).len(), 2);
}

#[test]
fn resize_texture_replaces_rows_in_place() {
    let mut r = Renderer::new(800, 600, 256);
    let p = r.add_pipeline(&RPipelineSetup::default());
    let other = r.add_texture(8, 8, None, false);
    let tx = r.add_texture(64, 64, None, true);
    let (obj, _) = r.add_object(&RObjectSetup {
        pipeline_id: p,
        vertex_data: vertices(3),
        texture1_id: Some(tx),
        ..Default::default()
    });
    let before = r.render_on_texture(&[p], tx);
    r.resize_texture(tx, 128, 16);
    assert_eq!(r.textures.len(), 6);
    assert_eq!(
        r.textures[tx.base],
        RTexture { width: 128, height: 16, samples: 1, format: RTextureFormat::Screen }
    );
    assert_eq!(
        r.textures[tx.msaa],
        RTexture { width: 128, height: 16, samples: 4, format: RTextureFormat::Screen }
    );
    assert_eq!(
        r.textures[tx.zbuffer],
        RTexture { width: 128, height: 16, samples: 4, format: RTextureFormat::Depth }
    );
    assert_eq!(r.textures[other.base].width, 8);
    assert_eq!(r.textures[other.zbuffer].height, 8);
    let after = r.render_on_texture(&[p], tx);
    assert_eq!(before, after);
    let stale = r.objects[obj.0];
    r.rebind_object(obj);
    let fresh = r.objects[obj.0];
    assert_eq!(fresh.v_buffer, stale.v_buffer);
    assert_eq!((fresh.mvp_buffer, fresh.gen_buffer), (3, 4));
    assert_eq!(r.buffers.len(), 5);
}

#[test]
fn resize_screen_ignores_empty_sizes() {
    let mut r = Renderer::new(800, 600, 256);
    assert!(!r.resize_screen(0, 100));
    assert!(!r.resize_screen(100, 0));
    assert_eq!((r.width, r.height), (800, 600));
    assert!(r.resize_screen(1024, 768));
    assert_eq!((r.width, r.height), (1024, 768));
    assert_eq!(r.half_screen(), (512, 384));
}

#[test]
fn destroy_empties_every_table() {
    let mut r = Renderer::new(800, 600, 256);
    let p = r.add_pipeline(&RPipelineSetup::default());
    r.add_texture(4, 4, None, false);
    r.add_object(&triangle(p));
    assert!(!r.destroy(false));
    assert!(r.pipelines.is_empty() && r.textures.is_empty());
    assert!(r.objects.is_empty() && r.buffers.is_empty());
    assert!(r.destroy(true));
}

#[test]
fn update_returns_uniform_writes() {
    let mut r = Renderer::new(800, 600, 256);
    let p = r.add_pipeline(&RPipelineSetup::default());
    let (id, _) = r.add_object(&triangle(p));
    let m = identity();
    let mut view = identity();
    view[14] = (-100.0f32).to_bits();
    let writes = r.update_object(id, &RObjectUpdate::default(), &m, &view, &m);
    assert_eq!(writes.len(), 2);
    assert_eq!(writes[0].buffer, r.objects[id.0].mvp_buffer);
    assert_eq!(writes[0].words.len(), 48);
    assert_eq!(&writes[0].words[0..16], &m);
    assert_eq!(&writes[0].words[16..32], &view);
    assert_eq!(&writes[0].words[32..48], &m);
    assert_eq!(writes[1].buffer, r.objects[id.0].gen_buffer);
    assert_eq!(writes[1].words.len(), 64);
}

#[test]
fn joints_beyond_capacity_are_dropped() {
    let mut r = Renderer::new(800, 600, 256);
    let p = r.add_pipeline(&RPipelineSetup { has_animations: true, ..Default::default() });
    let (id, _) = r.add_object(&RObjectSetup { pipeline_id: p, max_joints: 2, ..Default::default() });
    let m = identity();
    let mut a = [0u32; 16];
    let mut b = [0u32; 16];
    let mut c = [0u32; 16];
    a[0] = 11;
    b[0] = 22;
    c[0] = 33;
    let update = RObjectUpdate::default().with_anim(vec![a, b, c]);
    let writes = r.update_object(id, &update, &m, &m, &m);
    assert_eq!(writes.len(), 3);
    assert_eq!(Some(writes[2].buffer), r.objects[id.0].joints_buffer);
    assert_eq!(writes[2].words.len(), 32);
    assert_eq!(writes[2].words[0], 11);
    assert_eq!(writes[2].words[16], 22);
    let none = r.update_object(id, &RObjectUpdate::default(), &m, &m, &m);
    assert_eq!(none.len(), 2);
}

#[test]
fn joints_are_ignored_without_animation() {
    let mut r = Renderer::new(800, 600, 256);
    let p = r.add_pipeline(&RPipelineSetup::default());
    let (id, _) = r.add_object(&RObjectSetup {
        pipeline_id: p,
        vertex_data: vertices(3),
        max_joints: 4,
        ..Default::default()
    });
    let m = identity();
    let update = RObjectUpdate::default().with_anim(vec![[7u32; 16]]);
    assert_eq!(r.update_object(id, &update, &m, &m, &m).len(), 2);
}

#[test]
fn camera_falls_back_to_default() {
    let r = Renderer::new(800, 600, 256);
    let own = blueprint::update::RCamera::new_persp(60.0f32.to_bits(), 1.0f32.to_bits(), 500.0f32.to_bits());
    let with = RObjectUpdate::default().with_camera(&own);
    assert_eq!(*r.camera_for(&with), own);
    let without = RObjectUpdate::default();
    assert_eq!(*r.camera_for(&without), blueprint::update::RCamera::default());
    assert_eq!(r.default_cam, blueprint::update::RCamera::default());
}

#[test]
fn overlay_pipe_builds_texture_pipeline_and_rectangle() {
    let mut r = Renderer::new(640, 480, 256);
    r.add_pipeline(&RPipelineSetup::default());
    let (p, o, t, writes) = r.add_overlay_pipe(vertices(4), vec![0, 1, 2, 2, 3, 0]);
    assert_eq!(p, RPipelineId(1));
    assert_eq!(o, RObjectId(0));
    assert_eq!(t, RTextureId { base: 0, msaa: 1, zbuffer: 2 });
    assert_eq!(
        r.textures[0],
        RTexture { width: 640, height: 480, samples: 1, format: RTextureFormat::Rgba8 }
    );
    assert_eq!(r.pipelines[1].shader, RShaderKind::Text);
    assert_eq!(r.pipelines[1].obj_indices, vec![0]);
    assert_eq!(r.objects[0].texture1, Some(t));
    assert_eq!(r.objects[0].pipe_id, p);
    assert_eq!(writes.len(), 2);
    assert_eq!(
        r.render_impl(&[p]),
        vec![RDrawCall::Indexed { object: 0, index_count: 6, instances: 1 }]
    );
}

#[test]
fn font_cache_and_overlay_queue() {
    let mut r = Renderer::new(640, 480, 256);
    assert!(r.font_for_measuring(0).is_none());
    assert_eq!(r.load_font(vec![1, 2, 3]), 0);
    assert_eq!(r.load_font(vec![4, 5]), 1);
    assert_eq!(r.font_for_drawing(1), &vec![4, 5]);
    assert_eq!(r.font_for_drawing(9), &vec![1, 2, 3]);
    assert_eq!(r.font_for_measuring(1), Some(&vec![4, 5]));
    assert!(r.font_for_measuring(2).is_none());
    let t = r.add_texture(16, 16, None, false);
    let mut first = blueprint::text::StringPlacement::default();
    first.string = "fps".to_owned();
    let mut second = blueprint::text::StringPlacement::default();
    second.string = "score".to_owned();
    r.queue_overlay_text(first);
    r.queue_overlay_text(second);
    let (font, placements) = r.redraw_texture_with_queue(5, t);
    assert_eq!(font, 0);
    assert_eq!(placements.len(), 2);
    assert_eq!(placements[0].string, "fps");
    assert_eq!(placements[1].string, "score");
    assert!(r.str_placements.is_empty());
    r.queue_overlay_text(blueprint::text::StringPlacement::default());
    r.clear_overlay_queue();
    assert!(r.str_placements.is_empty());
}

#[test]
fn end_to_end_flat_color_triangle() {
    let mut r = Renderer::new(800, 600, 256);
    let p = r.add_pipeline(&RPipelineSetup { shader: RShader::FlatColor, ..Default::default() });
    let (id, _) = r.add_object(&triangle(p));
    let update = RObjectUpdate::default()
        .with_position(blueprint::words::Vec3::new(10.0f32.to_bits(), 20.0f32.to_bits(), 0.0f32.to_bits()))
        .with_scale(blueprint::words::Vec3::new(1.0f32.to_bits(), 1.0f32.to_bits(), 1.0f32.to_bits()))
        .with_color(blueprint::words::RColor::rgba_pct(
            1.0f32.to_bits(),
            0.0f32.to_bits(),
            0.0f32.to_bits(),
            1.0f32.to_bits(),
        ));
    let model = blueprint::mat4::Mat4::translate(update.translate.x, update.translate.y, update.translate.z);
    let camera = blueprint::mat4::Mat4::identity().as_col_major_array();
    let writes = r.update_object(id, &update, &model, &camera, &camera);
    let mvp: Vec<f32> = writes[0].words.iter().map(|w| f32::from_bits(*w)).collect();
    assert_eq!(&mvp[12..15], &[10.0, 20.0, 0.0]);
    let gen: Vec<f32> = writes[1].words.iter().map(|w| f32::from_bits(*w)).collect();
    assert_eq!(&gen[0..4], &[1.0, 0.0, 0.0, 1.0]);
    assert_eq!(r.render_impl(&[p]).len(), 1);
}

#[test]
fn handles_are_validated() {
    let mut r = Renderer::new(800, 600, 256);
    assert!(!r.has_pipeline(RPipelineId(0)));
    let p = r.add_pipeline(&RPipelineSetup::default());
    let t = r.add_texture(32, 16, None, false);
    assert!(r.has_pipeline(p));
    assert!(!r.has_pipeline(RPipelineId(1)));
    assert!(r.has_texture(t));
    assert!(!r.has_texture(RTextureId { base: 1, msaa: 2, zbuffer: 3 }));
    assert!(!r.has_texture(RTextureId { base: 0, msaa: 0, zbuffer: 2 }));
    assert!(!r.has_texture(RTextureId { base: 0, msaa: 1, zbuffer: 1 }));
    assert_eq!(r.texture_extent(t), (32, 16));
    assert!(!r.has_object(RObjectId(0)));
    assert!(r.can_add_object(&triangle(p)));
    assert!(!r.can_add_object(&triangle(RPipelineId(7))));
    let mut bad = triangle(p);
    bad.texture1_id = Some(RTextureId { base: 3, msaa: 4, zbuffer: 5 });
    assert!(!r.can_add_object(&bad));
    bad.texture1_id = Some(t);
    assert!(r.can_add_object(&bad));
    let (o, _) = r.add_object(&bad);
    assert!(r.has_object(o));
    assert_eq!(rgba_row_bytes(200), 800);
    assert_eq!(rgba_row_bytes(0), 0);
}

#[test]
fn earlier_handles_survive_later_additions() {
    let mut r = Renderer::new(800, 600, 256);
    let p = r.add_pipeline(&RPipelineSetup::default());
    let t = r.add_texture(8, 8, None, false);
    let (o, _) = r.add_object(&triangle(p));
    let row = r.objects[o.0];
    let vertex_buffer = r.buffers[row.v_buffer];
    r.add_pipeline(&RPipelineSetup::default());
    r.add_texture(4, 4, None, true);
    r.add_object(&triangle(p));
    r.add_overlay_pipe(vertices(4), vec![0, 1, 2, 2, 3, 0]);
    r.add_sdf_pipeline(&vertices(4), &vec![0, 1, 2, 2, 3, 0]);
    r.resize_texture(t, 64, 64);
    r.rebind_object(o);
    r.load_font(vec![0]);
    assert!(r.has_pipeline(p) && r.has_texture(t) && r.has_object(o));
    let now = r.objects[o.0];
    assert_eq!((now.pipe_id, now.v_buffer, now.v_count), (row.pipe_id, row.v_buffer, row.v_count));
    assert_eq!(now.index_buffer, row.index_buffer);
    assert_eq!(r.buffers[now.v_buffer], vertex_buffer);
    assert_eq!(&r.pipelines[p.0].obj_indices[0..1], &[o.0]);
}

#[test]
fn declared_object_limit_is_enforced() {
    let mut r = Renderer::new(800, 600, 256);
    let limited = r.add_pipeline(&RPipelineSetup { max_obj_count: Some(2), ..Default::default() });
    let open = r.add_pipeline(&RPipelineSetup::default());
    assert_eq!(r.pipelines[limited.0].max_obj_count, Some(2));
    assert_eq!(r.pipelines[open.0].max_obj_count, None);
    assert!(r.can_add_object(&triangle(limited)));
    r.add_object(&triangle(limited));
    assert!(r.can_add_object(&triangle(limited)));
    r.add_object(&triangle(limited));
    assert!(!r.can_add_object(&triangle(limited)));
    assert!(r.can_add_object(&triangle(open)));
    let none = r.add_pipeline(&RPipelineSetup { max_obj_count: Some(0), ..Default::default() });
    assert!(!r.can_add_object(&triangle(none)));
}

#[test]
fn indices_must_name_vertices() {
    assert!(indices_fit(&vec![0, 1, 2, 2, 3, 0], 4));
    assert!(!indices_fit(&vec![0, 1, 4], 4));
    assert!(indices_fit(&Vec::new(), 0));
    assert!(!indices_fit(&vec![0], 0));
    let mut r = Renderer::new(800, 600, 256);
    let p = r.add_pipeline(&RPipelineSetup::default());
    let mut setup = triangle(p);
    setup.indices = vec![0, 1, 2];
    assert!(r.can_add_object(&setup));
    setup.indices = vec![0, 1, 3];
    assert!(!r.can_add_object(&setup));
}

#[test]
fn owning_pipeline_numbers_its_own_objects() {
    let mut p = ObjPipeline::new(256, true);
    assert!(p.use_depth && p.objects.is_empty());
    let (a, writes) = p.add_object(&RenderObjectSetup {
        vertex_data: vertices(4),
        indices: vec![0, 1, 2, 2, 3, 0],
        has_texture1: true,
        ..Default::default()
    });
    let (b, _) = p.add_object(&RenderObjectSetup { vertex_data: vertices(3), ..Default::default() });
    assert_eq!((a, b), (0, 1));
    assert_eq!(writes.len(), 2);
    assert_eq!(writes[1].words, vec![0, 1, 2, 2, 3, 0]);
    assert_eq!(
        p.buffers,
        vec![
            RBuffer { size: 128, usage: RBufferUse::Vertex },
            RBuffer { size: 24, usage: RBufferUse::Index },
            RBuffer { size: 256, usage: RBufferUse::Uniform },
            RBuffer { size: 256, usage: RBufferUse::Uniform },
            RBuffer { size: 96, usage: RBufferUse::Vertex },
            RBuffer { size: 256, usage: RBufferUse::Uniform },
            RBuffer { size: 256, usage: RBufferUse::Uniform },
        ]
    );
    assert!(p.objects[0].has_texture1 && !p.objects[0].has_texture2);
    assert_eq!((p.objects[1].v_buffer, p.objects[1].mvp_buffer, p.objects[1].gen_buffer), (4, 5, 6));
    let m = identity();
    let mut hide = RObjectUpdate::default();
    hide.visible = false;
    let up = p.update_object(a, &hide, &m, &m, &m);
    assert_eq!((up.len(), up[0].buffer, up[1].buffer), (2, 2, 3));
    assert_eq!(up[0].words.len(), 48);
    assert_eq!(p.render(), vec![RDrawCall::Plain { object: 1, vertex_count: 3, instances: 1 }]);
    p.update_object(a, &RObjectUpdate::default(), &m, &m, &m);
    assert_eq!(
        p.render(),
        vec![
            RDrawCall::Indexed { object: 0, index_count: 6, instances: 1 },
            RDrawCall::Plain { object: 1, vertex_count: 3, instances: 1 },
        ]
    );
    p.destroy();
    assert!(p.objects.is_empty() && p.buffers.is_empty());
    assert!(p.render().is_empty());
}
