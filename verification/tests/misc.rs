use agpu::context::GpuError;
use agpu::layout::{grid_placements, GridCell, GridItem, GridSpan};
use agpu::paint::ImageHandle;
use agpu::primitives::FontWeight;
use agpu::theme::ThemeMode;
use agpu::types::GpuResourceKind;

#[test]
fn font_weight_default() {
    assert_eq!(FontWeight::default(), FontWeight::Regular);
}

#[test]
fn theme_mode_default_is_dark() {
    assert_eq!(ThemeMode::default(), ThemeMode::Dark);
}

#[test]
fn gpu_error_messages() {
    assert_eq!(GpuError::NoAdapter.to_string(), "No suitable GPU adapter found");
    assert_eq!(
        GpuError::DeviceRequest("lost".into()).to_string(),
        "GPU device request failed: lost"
    );
    assert_eq!(
        GpuError::SurfaceConfig("bad format".into()).to_string(),
        "Surface configuration failed: bad format"
    );
}

#[test]
fn gpu_resource_kind_names() {
    assert_eq!(GpuResourceKind::Buffer.to_string(), "Buffer");
    assert_eq!(GpuResourceKind::BindGroupLayout.to_string(), "BindGroupLayout");
    assert_eq!(GpuResourceKind::CommandBuffer.to_string(), "CommandBuffer");
}

#[test]
fn image_handle_new() {
    let h = ImageHandle::new(7, 640, 480);
    assert_eq!((h.id, h.width, h.height), (7, 640, 480));
}

#[test]
fn grid_item_spans() {
    let item = GridItem::new(3).col_span(2).row_span(4);
    assert_eq!(item.index, 3);
    assert_eq!(item.span, GridSpan { col_span: 2, row_span: 4 });
    assert_eq!(GridSpan::default(), GridSpan { col_span: 1, row_span: 1 });
}

fn cell(col: usize, row: usize, col_span: usize, row_span: usize) -> GridCell {
    GridCell { col, row, col_span, row_span }
}

#[test]
fn grid_placements_with_spans() {
    let items = vec![GridItem::new(0).col_span(2), GridItem::new(2).row_span(2)];
    let cells = grid_placements(3, 2, &items, 4);
    assert_eq!(
        cells,
        vec![cell(0, 0, 2, 1), cell(2, 0, 1, 1), cell(0, 1, 1, 1), cell(1, 1, 1, 1)]
    );
}

#[test]
fn grid_placements_clip_spans_to_the_grid() {
    let items = vec![GridItem::new(0).col_span(5).row_span(9), GridItem::new(0).col_span(1)];
    let cells = grid_placements(2, 2, &items, 2);
    assert_eq!(cells, vec![cell(0, 0, 2, 2), cell(0, 1, 1, 1)]);
}

#[test]
fn grid_placements_overflowing_rows() {
    // a 1 x 1 grid: the children after the first start past the last row
    // and span no rows, but every child still gets its block.
    assert_eq!(grid_placements(1, 1, &vec![], 2), vec![cell(0, 0, 1, 1), cell(0, 1, 1, 0)]);
    assert_eq!(
        grid_placements(1, 1, &vec![GridItem::new(0)], 3),
        vec![cell(0, 0, 1, 1), cell(0, 1, 1, 0), cell(0, 2, 1, 0)]
    );
    assert_eq!(grid_placements(1, 1, &vec![], 0), vec![]);
}

use agpu::context::{adapter_decision, AdapterAttempt, AdapterDecision};
use agpu::theme::ThemeSelection;
use agpu::types::BackendPreference;

#[test]
fn theme_selection_toggle_and_names() {
    let mut ts = ThemeSelection::new();
    assert_eq!(ts.current(), 0);
    assert_eq!(ts.current_name(), "Dark");
    ts.toggle();
    assert_eq!(ts.current_name(), "Light");
    ts.toggle();
    assert_eq!(ts.current_name(), "Dark");
    ts.add("Solarized");
    assert_eq!(ts.list(), vec!["Dark", "Light", "Solarized"]);
    assert_eq!(ts.find("Solarized"), Some(2));
    assert_eq!(ts.find("Nope"), None);
    for _ in 0..3 {
        ts.toggle();
    }
    assert_eq!(ts.current(), 0);
}

#[test]
fn theme_selection_set_by_name_and_index() {
    let mut ts = ThemeSelection::new();
    ts.add("Ocean");
    ts.add("Ocean");
    assert!(ts.set_by_name("Ocean"));
    assert_eq!(ts.current(), 2);
    assert_eq!(ts.current_name(), "Ocean");
    assert!(!ts.set_by_name("Nonexistent"));
    assert_eq!(ts.current(), 2);
    ts.set_active(9);
    assert_eq!(ts.current(), 2);
    ts.set_active(1);
    assert_eq!(ts.current_name(), "Light");
}

#[test]
fn adapter_fallback_decisions() {
    let vk = BackendPreference::VulkanPreferred;
    let gl = BackendPreference::OpenGLPreferred;
    let pd = BackendPreference::default();
    assert_eq!(pd, BackendPreference::VulkanPreferred);
    let sp = BackendPreference::Specific(wgpu::Backends::METAL);
    for p in [vk, gl, pd, sp] {
        assert_eq!(adapter_decision(&p, AdapterAttempt::Preferred, true), AdapterDecision::UseAdapter);
        assert_eq!(adapter_decision(&p, AdapterAttempt::PlatformFallback, true), AdapterDecision::UseAdapter);
        assert_eq!(adapter_decision(&p, AdapterAttempt::PlatformFallback, false), AdapterDecision::NoAdapter);
    }
    assert_eq!(adapter_decision(&vk, AdapterAttempt::Preferred, false), AdapterDecision::RetryWithPlatformDefault);
    assert_eq!(adapter_decision(&gl, AdapterAttempt::Preferred, false), AdapterDecision::RetryWithPlatformDefault);
    assert_eq!(adapter_decision(&pd, AdapterAttempt::Preferred, false), AdapterDecision::RetryWithPlatformDefault);
    let plat = BackendPreference::PlatformDefault;
    assert_eq!(adapter_decision(&plat, AdapterAttempt::Preferred, false), AdapterDecision::NoAdapter);
    assert_eq!(adapter_decision(&sp, AdapterAttempt::Preferred, false), AdapterDecision::NoAdapter);
    assert!(vk.falls_back_to_platform());
    assert!(!sp.falls_back_to_platform());
}
