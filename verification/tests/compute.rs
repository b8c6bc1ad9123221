use agpu::compute::{ComputeBinding, ComputeDispatch, ComputeTask};

#[test]
fn dispatch_linear() {
    let d = ComputeDispatch::linear(1000, 64);
    assert_eq!(d.workgroups_x, 16); // ceil(1000/64) = 16
    assert_eq!(d.workgroups_y, 1);
}

#[test]
fn dispatch_grid_2d() {
    let d = ComputeDispatch::grid_2d(256, 256, 16);
    assert_eq!(d.workgroups_x, 16);
    assert_eq!(d.workgroups_y, 16);
}

#[test]
fn dispatch_total_invocations() {
    let d = ComputeDispatch::new(4, 4, 1);
    assert_eq!(d.total_invocations([8, 8, 1]), 4 * 8 * 4 * 8);
}

#[test]
fn compute_binding_storage() {
    let b = ComputeBinding::storage("output", 0, 0);
    assert!(!b.read_only);
}

#[test]
fn compute_binding_readonly() {
    let b = ComputeBinding::read_only("input", 0, 1);
    assert!(b.read_only);
}

#[test]
fn compute_task_builder() {
    let task = ComputeTask::new("add_vectors", "Vector addition", "@compute fn main() {}")
        .entry_point("main")
        .workgroup_size(256, 1, 1)
        .binding(ComputeBinding::read_only("a", 0, 0))
        .binding(ComputeBinding::read_only("b", 0, 1))
        .binding(ComputeBinding::storage("result", 0, 2));
    assert_eq!(task.bindings().len(), 3);
    assert_eq!(task.workgroup(), [256, 1, 1]);
}

#[test]
fn dispatch_linear_exact_multiple_and_remainder() {
    assert_eq!(ComputeDispatch::linear(128, 64).workgroups_x, 2);
    assert_eq!(ComputeDispatch::linear(129, 64).workgroups_x, 3);
    assert_eq!(ComputeDispatch::linear(0, 64).workgroups_x, 0);
    assert_eq!(ComputeDispatch::linear(u32::MAX, 1).workgroups_x, u32::MAX);
    assert_eq!(ComputeDispatch::linear(u32::MAX, 2).workgroups_x, 2147483648);
}

#[test]
fn dispatch_grid_2d_uneven() {
    let d = ComputeDispatch::grid_2d(100, 17, 16);
    assert_eq!(d.workgroups_x, 7);
    assert_eq!(d.workgroups_y, 2);
    assert_eq!(d.workgroups_z, 1);
}

#[test]
fn dispatch_groups_cover_count() {
    for count in [1u32, 63, 64, 65, 1000, 4096] {
        let g = ComputeDispatch::linear(count, 64).workgroups_x as u64;
        assert!(g * 64 >= count as u64);
        assert!((g - 1) * 64 < count as u64);
    }
}

#[test]
fn dispatch_total_invocations_large() {
    let d = ComputeDispatch::new(65535, 65535, 1);
    assert_eq!(d.total_invocations([256, 1, 1]), 65535u64 * 65535 * 256);
}

#[test]
fn compute_task_defaults_and_getters() {
    let task = ComputeTask::new("t1", "Test", "src");
    assert_eq!(task.id(), "t1");
    assert_eq!(task.label(), "Test");
    assert_eq!(task.shader_source(), "src");
    assert_eq!(task.entry(), "main");
    assert_eq!(task.workgroup(), [64, 1, 1]);
    assert!(task.bindings().is_empty());
    let task = task.entry_point("cs_main").binding(ComputeBinding::storage("out", 1, 2));
    assert_eq!(task.entry(), "cs_main");
    assert_eq!(task.bindings()[0].name, "out");
    assert_eq!(task.bindings()[0].group, 1);
    assert_eq!(task.bindings()[0].binding, 2);
}

fn json(text: &str) -> serde_json::Value {
    serde_json::from_str(text).unwrap()
}

#[test]
fn compute_task_execute_get_bindings() {
    let mut task = ComputeTask::new("t1", "Test", "").binding(ComputeBinding::storage("out", 0, 0));
    let result = task.execute_action("get_bindings", &json("{}"));
    assert!(result.is_ok());
    assert_eq!(result.unwrap(), json(r#"{"bindings": ["out"]}"#));
}

#[test]
fn compute_task_unknown_action() {
    let mut task = ComputeTask::new("t1", "Test", "");
    let result = task.execute_action("nope", &json("{}"));
    assert!(result.is_err());
    assert_eq!(result.unwrap_err(), "Unknown action: nope");
}

#[test]
fn compute_task_dispatch_needs_gpu_context() {
    let mut task = ComputeTask::new("t1", "Test", "");
    let result = task.execute_action("dispatch", &json("{}")).unwrap();
    assert_eq!(result, json(r#"{"status": "requires_gpu_context"}"#));
}

#[test]
fn compute_task_agent_state_and_actions() {
    let task = ComputeTask::new("t1", "Test", "")
        .workgroup_size(8, 4, 2)
        .binding(ComputeBinding::read_only("a", 0, 1));
    let state = task.agent_state();
    assert_eq!(state["id"], "t1");
    assert_eq!(
        state,
        json(
            r#"{"id": "t1", "label": "Test", "entry_point": "main", "workgroup_size": [8, 4, 2],
                "bindings": [{"name": "a", "group": 0, "binding": 1, "read_only": true}]}"#
        )
    );
    let names: Vec<String> = task.actions().into_iter().map(|a| a.name).collect();
    assert_eq!(names, vec!["dispatch".to_string(), "get_bindings".to_string()]);
    assert_eq!(task.agent_id(), Some("t1"));
}
