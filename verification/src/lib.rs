//! Verified core logic of the agpu GUI toolkit: input modifiers and key
//! events with their JSON form, hit testing, compute dispatch planning,
//! routing, grid placement, theme selection, GPU adapter fallback, text
//! editing at byte offsets, the state of the widgets, and how widgets,
//! compute tasks and GPU resources describe themselves to an agent and
//! carry out its actions.

pub mod animation;
pub mod compute;
pub mod context;
pub mod primitives;
pub mod event;
pub mod key_json;
pub mod layout;
pub mod ontology;
pub mod paint;
pub mod resource;
pub mod runtime;
pub mod tessellation;
pub mod text;
pub mod theme;
pub mod types;
pub mod utf8;
pub mod widget;

pub use animation::{AnimationState, RepeatMode};
pub use compute::{ComputeBinding, ComputeDispatch, ComputeTask};
pub use context::{adapter_decision, AdapterAttempt, AdapterDecision, GpuError};
pub use primitives::FontWeight;
pub use event::{KeyCode, KeyEvent, KeyEventKind, KeyModifiers, MouseButton};
pub use layout::{Align, CrossAlign, FlexWrap, GridItem, GridSpan, JustifyContent, ScrollDirection};
pub use ontology::ActionParamType;
pub use paint::{ImageHandle, NullPainter};
pub use resource::ShaderSourceKind;
pub use runtime::{CancellationToken, Router};
pub use theme::{ThemeMode, ThemeSelection};
pub use types::{BackendPreference, GpuResourceKind};
pub use widget::{
    Button, Checkbox, List, Menu, MenuItem, Modal, Panel, Radio, Select, Table, Tabs, TextArea,
    TextInput, Tooltip, TreeNode, TreeView,
};
