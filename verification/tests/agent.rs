use agpu::tessellation::{fan_indices, quad_indices, ring_indices};
use agpu::animation::AnimationState;
use agpu::context::{gpu_context_action, gpu_context_actions, gpu_context_state, AdapterSummary, DeviceLimitsSummary};
use agpu::resource::{
    compute_pipeline_actions, pipeline_state, render_pipeline_actions, resource_action, texture_actions,
    texture_state, TextureInfo,
};
use agpu::utf8::{char_index_at, char_utf8_width};
use agpu::widget::text_area::count_lines;

fn json(text: &str) -> serde_json::Value {
    serde_json::from_str(text).unwrap()
}

fn adapter() -> AdapterSummary {
    AdapterSummary {
        name: "Test GPU".to_string(),
        backend: "Vulkan".to_string(),
        device_type: "DiscreteGpu".to_string(),
        driver: "drv".to_string(),
        driver_info: "1.0".to_string(),
    }
}

fn limits() -> DeviceLimitsSummary {
    DeviceLimitsSummary {
        max_texture_dimension_2d: 8192,
        max_buffer_size: 1 << 28,
        max_bind_groups: 4,
        max_vertex_buffers: 8,
        max_vertex_attributes: 16,
        max_compute_workgroup_size_x: 256,
        max_compute_workgroups_per_dimension: 65535,
    }
}

#[test]
fn gpu_context_state_lists_adapter_and_limits() {
    let state = gpu_context_state(&adapter(), &limits(), "VulkanPreferred");
    assert_eq!(
        state,
        json(
            r#"{"adapter_name": "Test GPU", "backend": "Vulkan", "device_type": "DiscreteGpu",
                "driver": "drv", "driver_info": "1.0", "backend_preference": "VulkanPreferred",
                "limits": {"max_texture_dimension_2d": 8192, "max_buffer_size": 268435456,
                           "max_bind_groups": 4, "max_vertex_buffers": 8, "max_vertex_attributes": 16,
                           "max_compute_workgroup_size_x": 256,
                           "max_compute_workgroups_per_dimension": 65535}}"#
        )
    );
}

#[test]
fn gpu_context_actions_answer_queries() {
    let names: Vec<String> = gpu_context_actions().into_iter().map(|a| a.name).collect();
    assert_eq!(names, vec!["get_adapter_info", "get_limits", "get_features"]);
    assert_eq!(
        gpu_context_action("get_adapter_info", &adapter(), &limits(), "Features(0x0)").unwrap(),
        json(r#"{"name": "Test GPU", "backend": "Vulkan", "device_type": "DiscreteGpu", "driver": "drv"}"#)
    );
    assert_eq!(
        gpu_context_action("get_limits", &adapter(), &limits(), "").unwrap(),
        json(r#"{"max_texture_dimension_2d": 8192, "max_buffer_size": 268435456, "max_bind_groups": 4}"#)
    );
    assert_eq!(
        gpu_context_action("get_features", &adapter(), &limits(), "Features(DEPTH_CLIP_CONTROL)").unwrap(),
        json(r#"{"features": "Features(DEPTH_CLIP_CONTROL)"}"#)
    );
    assert_eq!(
        gpu_context_action("reset", &adapter(), &limits(), "").unwrap_err(),
        "Unknown action: reset"
    );
}

#[test]
fn resource_states_and_info_action() {
    let info = TextureInfo {
        id: 7,
        label: Some("atlas"),
        width: 256,
        height: 128,
        depth_or_layers: 1,
        format: "Rgba8UnormSrgb",
        dimension: "D2",
        mip_levels: 1,
        sample_count: 4,
        usage: "TextureUsages(TEXTURE_BINDING)",
    };
    let state = texture_state(&info);
    assert_eq!(
        state,
        json(
            r#"{"id": 7, "label": "atlas", "width": 256, "height": 128, "depth_or_layers": 1,
                "format": "Rgba8UnormSrgb", "dimension": "D2", "mip_levels": 1, "sample_count": 4,
                "usage": "TextureUsages(TEXTURE_BINDING)"}"#
        )
    );
    assert_eq!(resource_action("get_info", state.clone()).unwrap(), state);
    assert_eq!(resource_action("drop", state).unwrap_err(), "Unknown action: drop");
    assert_eq!(
        pipeline_state(3, None, "RenderPipeline"),
        json(r#"{"id": 3, "label": null, "kind": "RenderPipeline"}"#)
    );
    assert_eq!(texture_actions()[0].name, "get_info");
    assert_eq!(render_pipeline_actions()[0].description, "Query pipeline metadata");
    assert_eq!(compute_pipeline_actions()[0].description, "Query compute pipeline metadata");
}

#[test]
fn animation_state_transitions() {
    assert_eq!(AnimationState::Pending.started(), AnimationState::Running);
    assert_eq!(AnimationState::Running.paused(), AnimationState::Paused);
    assert_eq!(AnimationState::Paused.started(), AnimationState::Running);
    assert_eq!(AnimationState::Completed.paused(), AnimationState::Completed);
    assert_eq!(AnimationState::Pending.paused(), AnimationState::Pending);
    assert!(AnimationState::Running.advances());
    assert!(!AnimationState::Paused.advances());
}

#[test]
fn utf8_offsets() {
    assert_eq!(char_utf8_width('a'), 1);
    assert_eq!(char_utf8_width('é'), 2);
    assert_eq!(char_utf8_width('€'), 3);
    assert_eq!(char_utf8_width('😀'), 4);
    let s = "aé€😀";
    assert_eq!(char_index_at(s, 0), 0);
    assert_eq!(char_index_at(s, 3), 2);
    assert_eq!(char_index_at(s, 6), 3);
    assert_eq!(char_index_at(s, 10), 4);
}

#[test]
fn line_counts_follow_str_lines() {
    for s in ["", "a", "a\n", "a\nb", "\n", "\n\n", "a\r\nb\r\n", "x\n\ny"] {
        assert_eq!(count_lines(s), s.lines().count(), "{s:?}");
    }
}

#[test]
fn shape_triangle_indices() {
    assert_eq!(quad_indices(10), vec![10, 11, 12, 10, 12, 13]);
    assert_eq!(fan_indices(5, 3), vec![5, 6, 7, 5, 7, 8, 5, 8, 6]);
    assert_eq!(ring_indices(0, 2), vec![0, 2, 1, 1, 2, 3, 2, 0, 3, 3, 0, 1]);
    let fan = fan_indices(100, 32);
    assert_eq!(fan.len(), 96);
    assert!(fan.iter().all(|&i| (100..=132).contains(&i)));
}
