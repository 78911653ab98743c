use render_harness::config::WindowConfig;
use render_harness::plan::{DrawPlan, RenderMode};

#[test]
fn triangle_plan_is_animated_without_depth() {
    assert_eq!(
        RenderMode::AnimatedTriangle.plan(),
        DrawPlan { depth_test: false, clear_depth: false, indexed: false, normals: false, light: false, animated: true }
    );
}

#[test]
fn static_mesh_plan_tests_depth_and_is_still() {
    assert_eq!(
        RenderMode::StaticMesh.plan(),
        DrawPlan { depth_test: true, clear_depth: true, indexed: true, normals: false, light: false, animated: false }
    );
}

#[test]
fn lit_mesh_plan_binds_normals_and_light() {
    assert_eq!(
        RenderMode::LitMesh.plan(),
        DrawPlan { depth_test: true, clear_depth: true, indexed: true, normals: true, light: true, animated: false }
    );
}

#[test]
fn window_config_keeps_its_values() {
    let c = WindowConfig::new("Rust Graphic", 1080, 920).with_min_size(1080, 920);
    assert_eq!(c.title, "Rust Graphic");
    assert_eq!((c.width, c.height), (1080, 920));
    assert_eq!(c.min_size, Some((1080, 920)));
    assert_eq!(WindowConfig::new("Glium_Window", 800, 720).min_size, None);
}
