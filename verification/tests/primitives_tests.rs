use flutter_rust_windows_embedder::registry::{ChannelHandlers, FontAtlases};
use flutter_rust_windows_embedder::primitives::{
    blend_state, depth_stencil_state, rasterizer_state, sort_by_priority, text_depth_state, BlendMode, BlendState,
    DepthState, DrawCall, EffectRegistry, PrimitiveOptions, PrimitiveScene, RasterState, TextScene,
};

fn opts(priority: i32) -> PrimitiveOptions {
    PrimitiveOptions { render_priority: priority, ..PrimitiveOptions::default() }
}

#[test]
fn default_options() {
    let o = PrimitiveOptions::default();
    assert!(!o.ignore_depth_stencil && !o.write_to_depth && o.scissor_enabled && !o.opaque);
    assert_eq!(o.render_priority, 0);
    assert_eq!(BlendMode::default(), BlendMode::Transparent);
}

#[test]
fn pipeline_states() {
    let mut o = PrimitiveOptions::default();
    assert_eq!(rasterizer_state(&o), RasterState::CullNone);
    o.cull_back = true;
    o.wireframe = true;
    assert_eq!(rasterizer_state(&o), RasterState::CullBackWireframe);
    assert_eq!(depth_stencil_state(&o, false), DepthState::Disabled);
    assert_eq!(depth_stencil_state(&o, true), DepthState::ReadOnly);
    o.write_to_depth = true;
    assert_eq!(depth_stencil_state(&o, true), DepthState::Write);
    assert_eq!(text_depth_state(&o, true), DepthState::ReadOnly);
    assert_eq!(blend_state(&o, Some(BlendMode::Opaque)), BlendState::Opaque);
    assert_eq!(blend_state(&o, None), BlendState::Transparent);
    o.opaque = true;
    assert_eq!(blend_state(&o, Some(BlendMode::Transparent)), BlendState::Opaque);
}

#[test]
fn effect_registry_first_registration_wins() {
    let mut reg: EffectRegistry<&str, u8, u8> = EffectRegistry::new();
    assert!(reg.register_custom_pixel_shader("glow", BlendMode::Opaque, "first"));
    assert!(!reg.register_custom_pixel_shader("glow", BlendMode::Transparent, "second"));
    assert_eq!(reg.blend_of("glow"), Some(BlendMode::Opaque));
    assert!(reg.contains("glow"));
    assert!(!reg.contains("other"));
    assert_eq!(reg.blend_of("other"), None);
}

#[test]
fn calls_sort_by_priority_and_keep_every_call() {
    let call = |batch: usize, priority: i32| DrawCall {
        batch,
        priority,
        raster: RasterState::CullNone,
        blend: BlendState::Transparent,
        depth: DepthState::ReadOnly,
        stencil_ref: 0,
        vertex_count: 3,
    };
    let sorted = sort_by_priority(vec![call(0, 5), call(1, -1), call(2, 3), call(3, -1)]);
    let prios: Vec<i32> = sorted.iter().map(|c| c.priority).collect();
    assert_eq!(prios, vec![-1, -1, 3, 5]);
    let batches: Vec<usize> = sorted.iter().map(|c| c.batch).collect();
    assert_eq!(batches, vec![1, 3, 2, 0]);
}

#[test]
fn groups_stay_until_cleared() {
    let mut scene: PrimitiveScene<u32> = PrimitiveScene::new();
    scene.set_primitives("box", &[1, 2, 3], &[]);
    scene.set_primitives_ex("lines", &[], &[7, 8], opts(2));
    scene.latch_buffers();
    assert!(scene.has_latched());
    let (tri, lines, _, _) = scene.latched_batches();
    assert_eq!(tri.len(), 1);
    assert_eq!(tri[0].vertices, vec![1, 2, 3]);
    assert_eq!(lines.len(), 1);
    assert_eq!(lines[0].vertices, vec![7, 8]);
    scene.latch_buffers();
    let (tri, _, _, _) = scene.latched_batches();
    assert_eq!(tri[0].vertices, vec![1, 2, 3]);
    scene.clear_primitives("box");
    scene.latch_buffers();
    let (tri, lines, _, _) = scene.latched_batches();
    assert!(tri.is_empty());
    assert_eq!(lines.len(), 1);
    scene.clear_all_primitives();
    scene.latch_buffers();
    assert!(!scene.has_latched());
}

#[test]
fn groups_with_the_same_options_share_a_batch() {
    let mut scene: PrimitiveScene<u32> = PrimitiveScene::new();
    scene.set_primitives("a", &[1, 2, 3], &[]);
    scene.set_primitives("b", &[4, 5, 6], &[]);
    scene.set_primitives_ex("c", &[7, 8, 9], &[], opts(1));
    scene.latch_buffers();
    let (tri, _, _, _) = scene.latched_batches();
    assert_eq!(tri.len(), 2);
    assert_eq!(tri[0].vertices, vec![1, 2, 3, 4, 5, 6]);
    assert_eq!(tri[1].vertices, vec![7, 8, 9]);
}

#[test]
fn frame_plan_orders_draws() {
    let mut scene: PrimitiveScene<u32> = PrimitiveScene::new();
    scene.set_primitives_ex("late", &[1, 2, 3], &[], opts(10));
    scene.set_primitives_ex("early", &[4, 5, 6], &[], opts(-10));
    scene.latch_buffers();
    let effects: EffectRegistry<u8, u8, u8> = EffectRegistry::new();
    let (tri, lines, _, _) = scene.plan_frame(true, &effects);
    assert_eq!(tri.len(), 2);
    assert!(tri[0].priority <= tri[1].priority);
    assert_eq!(tri[0].priority, -10);
    assert!(lines.is_empty());
}

#[test]
fn text_groups_by_font() {
    let mut text: TextScene<u32> = TextScene::new();
    let mut atlases: FontAtlases<u32> = FontAtlases::new();
    atlases.register("mono", 1);
    atlases.register("serif", 2);
    assert!(!text.has_renderable_content());
    text.set_text("mono", "hello", &[1, 2, 3], PrimitiveOptions::default());
    text.set_text("serif", "title", &[4, 5, 6], PrimitiveOptions::default());
    text.set_text("sans", "caption", &[7, 8, 9], PrimitiveOptions::default());
    text.latch_buffers();
    assert!(text.has_renderable_content());
    assert_eq!(text.plan_font(&atlases, "mono", true).len(), 1);
    assert_eq!(text.plan_font(&atlases, "mono", true)[0].vertex_count, 3);
    assert!(text.plan_font(&atlases, "sans", true).is_empty());
    text.clear_font_text("mono");
    text.latch_buffers();
    assert!(text.plan_font(&atlases, "mono", true).is_empty());
    assert_eq!(text.plan_font(&atlases, "serif", false)[0].depth, DepthState::Disabled);
    text.clear_all_text();
    text.latch_buffers();
    assert!(!text.has_renderable_content());
}

#[test]
fn font_atlases_replace_and_forget() {
    let mut atlases: FontAtlases<u32> = FontAtlases::new();
    let mut text: TextScene<u32> = TextScene::new();
    atlases.register("mono", 1);
    atlases.register("mono", 2);
    atlases.register("serif", 3);
    assert_eq!(atlases.get("mono"), Some(&2));
    text.set_text("mono", "a", &[1, 2, 3], PrimitiveOptions::default());
    text.set_text("serif", "b", &[4, 5, 6], PrimitiveOptions::default());
    text.unregister_font_atlas(&mut atlases, "mono");
    assert_eq!(atlases.get("mono"), None);
    assert_eq!(atlases.get("serif"), Some(&3));
    text.latch_buffers();
    assert!(text.plan_font(&atlases, "mono", true).is_empty());
    assert_eq!(text.plan_font(&atlases, "serif", true).len(), 1);
}

#[test]
fn channel_handlers_keep_the_latest() {
    let mut handlers: ChannelHandlers<&str> = ChannelHandlers::new();
    assert!(handlers.get("game/state").is_none());
    handlers.register("game/state", "first");
    handlers.register("game/state", "second");
    assert_eq!(handlers.get("game/state"), Some(&"second"));
    assert!(handlers.unregister("game/state"));
    assert!(!handlers.unregister("game/state"));
    assert!(handlers.get("game/state").is_none());
}
