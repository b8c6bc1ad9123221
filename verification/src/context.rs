//! Errors of GPU initialisation, the decisions taken while choosing an
//! adapter, and what an agent sees of and asks of a GPU context.

use vstd::prelude::*;

verus! {

/// Errors from GPU initialisation.
#[derive(Debug)]
pub enum GpuError {
    NoAdapter,
    DeviceRequest(String),
    SurfaceConfig(String),
}

/// The message describing a GPU error.
pub open spec fn gpu_error_message(e: GpuError) -> Seq<char> {
    match e {
        GpuError::NoAdapter => "No suitable GPU adapter found"@,
        GpuError::DeviceRequest(d) => "GPU device request failed: "@ + d@,
        GpuError::SurfaceConfig(d) => "Surface configuration failed: "@ + d@,
    }
}

/// Each error's message names the failure and, for a device request or
/// a surface configuration, ends with the detail it was given.
pub proof fn lemma_gpu_error_messages(d: String)
    ensures
        gpu_error_message(GpuError::NoAdapter) == "No suitable GPU adapter found"@,
        gpu_error_message(GpuError::DeviceRequest(d)) == "GPU device request failed: "@ + d@,
        gpu_error_message(GpuError::SurfaceConfig(d)) == "Surface configuration failed: "@ + d@,
{
}

impl GpuError {
    /// The message describing this error.
    pub fn to_string(&self) -> (r: String)
        ensures
            r@ == gpu_error_message(*self),
    {
        match self {
            GpuError::NoAdapter => "No suitable GPU adapter found".to_owned(),
            GpuError::DeviceRequest(d) => {
                let mut s = "GPU device request failed: ".to_owned();
                s.push_str(d.as_str());
                s
            },
            GpuError::SurfaceConfig(d) => {
                let mut s = "Surface configuration failed: ".to_owned();
                s.push_str(d.as_str());
                s
            },
        }
    }
}

} // verus!

verus! {

use crate::types::BackendPreference;

/// Which adapter request is being answered.
#[derive(Debug, Clone, Copy, PartialEq, Eq, Structural)]
pub enum AdapterAttempt {
    /// The request on the preferred backends.
    Preferred,
    /// The retry on the platform's primary backends.
    PlatformFallback,
}

/// What GPU initialisation does after an adapter request.
#[derive(Debug, Clone, Copy, PartialEq, Eq, Structural)]
pub enum AdapterDecision {
    /// Use the adapter that was found.
    UseAdapter,
    /// Retry on the platform's primary backends.
    RetryWithPlatformDefault,
    /// Give up with [`GpuError::NoAdapter`].
    NoAdapter,
}

/// The step of GPU initialisation after an adapter request: a found
/// adapter is used; a missing one on the preferred backends is retried on
/// the platform default when the preference is Vulkan- or OpenGL-first;
/// otherwise initialisation fails.
pub open spec fn next_adapter_step(
    preference: BackendPreference,
    attempt: AdapterAttempt,
    found: bool,
) -> AdapterDecision {
    if found {
        AdapterDecision::UseAdapter
    } else if attempt == AdapterAttempt::Preferred && preference.falls_back_to_platform_spec() {
        AdapterDecision::RetryWithPlatformDefault
    } else {
        AdapterDecision::NoAdapter
    }
}

/// The step of GPU initialisation after an adapter request (see
/// `next_adapter_step`).
pub fn adapter_decision(
    preference: &BackendPreference,
    attempt: AdapterAttempt,
    found: bool,
) -> (r: AdapterDecision)
    ensures
        r == next_adapter_step(*preference, attempt, found),
{
    if found {
        AdapterDecision::UseAdapter
    } else {
        match attempt {
            AdapterAttempt::Preferred => if preference.falls_back_to_platform() {
                AdapterDecision::RetryWithPlatformDefault
            } else {
                AdapterDecision::NoAdapter
            },
            AdapterAttempt::PlatformFallback => AdapterDecision::NoAdapter,
        }
    }
}

/// An adapter that was found is always used; a missing adapter is
/// retried once, on the platform's primary backends, exactly when the
/// preference is Vulkan-first or OpenGL-first, and the retry is never
/// retried again: a platform-default or specific-backend preference, or a
/// failed retry, ends with no adapter.
pub proof fn lemma_adapter_steps(preference: BackendPreference, attempt: AdapterAttempt, found: bool)
    ensures
        found ==> next_adapter_step(preference, attempt, found) == AdapterDecision::UseAdapter,
        !found && attempt == AdapterAttempt::Preferred ==> (next_adapter_step(
            preference,
            attempt,
            found,
        ) == AdapterDecision::RetryWithPlatformDefault <==> (preference is VulkanPreferred
            || preference is OpenGLPreferred)),
        !found && attempt == AdapterAttempt::Preferred && (preference is PlatformDefault
            || preference is Specific) ==> next_adapter_step(preference, attempt, found)
            == AdapterDecision::NoAdapter,
        !found && attempt == AdapterAttempt::PlatformFallback ==> next_adapter_step(
            preference,
            attempt,
            found,
        ) == AdapterDecision::NoAdapter,
        next_adapter_step(preference, AdapterAttempt::PlatformFallback, found)
            != AdapterDecision::RetryWithPlatformDefault,
{
}

/// With the default, Vulkan-first preference, a missing Vulkan adapter
/// is retried on the platform's primary backends, and the retry is the
/// last request: after it the adapter is used or initialisation fails.
pub proof fn lemma_default_preference_falls_back(found_on_retry: bool)
    ensures
        next_adapter_step(BackendPreference::VulkanPreferred, AdapterAttempt::Preferred, false)
            == AdapterDecision::RetryWithPlatformDefault,
        next_adapter_step(BackendPreference::VulkanPreferred, AdapterAttempt::PlatformFallback, found_on_retry)
            == if found_on_retry { AdapterDecision::UseAdapter } else { AdapterDecision::NoAdapter },
{
}

} // verus!

verus! {

use crate::ontology::action::AgentAction;
use crate::ontology::agent::{is_simple_action, json_text, reply_view, same_text, unknown_action, unknown_action_text};
use crate::ontology::json::{entries_view, json_from_entries, json_from_u64, json_of_entries, json_of_str, json_of_u64};

/// What the GPU adapter reports about itself, as text (the backend and the
/// device type as their debug names).
pub struct AdapterSummary {
    pub name: String,
    pub backend: String,
    pub device_type: String,
    pub driver: String,
    pub driver_info: String,
}

/// The device limits that an agent sees.
pub struct DeviceLimitsSummary {
    pub max_texture_dimension_2d: u32,
    pub max_buffer_size: u64,
    pub max_bind_groups: u32,
    pub max_vertex_buffers: u32,
    pub max_vertex_attributes: u32,
    pub max_compute_workgroup_size_x: u32,
    pub max_compute_workgroups_per_dimension: u32,
}

/// The JSON object of all the limits an agent sees.
pub open spec fn limits_json(l: DeviceLimitsSummary) -> serde_json::Value {
    json_of_entries(
        seq![
            ("max_texture_dimension_2d"@, json_of_u64(l.max_texture_dimension_2d as u64)),
            ("max_buffer_size"@, json_of_u64(l.max_buffer_size)),
            ("max_bind_groups"@, json_of_u64(l.max_bind_groups as u64)),
            ("max_vertex_buffers"@, json_of_u64(l.max_vertex_buffers as u64)),
            ("max_vertex_attributes"@, json_of_u64(l.max_vertex_attributes as u64)),
            ("max_compute_workgroup_size_x"@, json_of_u64(l.max_compute_workgroup_size_x as u64)),
            (
                "max_compute_workgroups_per_dimension"@,
                json_of_u64(l.max_compute_workgroups_per_dimension as u64),
            ),
        ],
    )
}

/// The state of a GPU context that an agent sees: the adapter, the backend
/// preference (by its debug text) and the limits.
pub open spec fn context_state_json(
    info: AdapterSummary,
    limits: DeviceLimitsSummary,
    preference: Seq<char>,
) -> serde_json::Value {
    json_of_entries(
        seq![
            ("adapter_name"@, json_of_str(info.name@)),
            ("backend"@, json_of_str(info.backend@)),
            ("device_type"@, json_of_str(info.device_type@)),
            ("driver"@, json_of_str(info.driver@)),
            ("driver_info"@, json_of_str(info.driver_info@)),
            ("backend_preference"@, json_of_str(preference)),
            ("limits"@, limits_json(limits)),
        ],
    )
}

/// The reply of a GPU context to an agent action. "get_adapter_info"
/// answers with the adapter's name, backend, device type and driver;
/// "get_limits" with the texture, buffer and bind group limits;
/// "get_features" with the features' debug text; any other action is
/// refused.
pub open spec fn context_action_reply(
    action: Seq<char>,
    info: AdapterSummary,
    limits: DeviceLimitsSummary,
    features: Seq<char>,
) -> Result<serde_json::Value, Seq<char>> {
    if action == "get_adapter_info"@ {
        Ok(
            json_of_entries(
                seq![
                    ("name"@, json_of_str(info.name@)),
                    ("backend"@, json_of_str(info.backend@)),
                    ("device_type"@, json_of_str(info.device_type@)),
                    ("driver"@, json_of_str(info.driver@)),
                ],
            ),
        )
    } else if action == "get_limits"@ {
        Ok(
            json_of_entries(
                seq![
                    ("max_texture_dimension_2d"@, json_of_u64(limits.max_texture_dimension_2d as u64)),
                    ("max_buffer_size"@, json_of_u64(limits.max_buffer_size)),
                    ("max_bind_groups"@, json_of_u64(limits.max_bind_groups as u64)),
                ],
            ),
        )
    } else if action == "get_features"@ {
        Ok(json_of_entries(seq![("features"@, json_of_str(features))]))
    } else {
        Err(unknown_action_text(action))
    }
}

/// The actions an agent can invoke on a GPU context: three queries.
pub fn gpu_context_actions() -> (r: Vec<AgentAction>)
    ensures
        r@.len() == 3,
        is_simple_action(
            r@[0],
            "get_adapter_info"@,
            "Query GPU adapter name, backend, and device type"@,
            false,
        ),
        is_simple_action(
            r@[1],
            "get_limits"@,
            "Query device limits (max texture size, buffer size, etc.)"@,
            false,
        ),
        is_simple_action(r@[2], "get_features"@, "List enabled GPU features"@, false),
{
    vec![
        AgentAction::simple("get_adapter_info", "Query GPU adapter name, backend, and device type", false),
        AgentAction::simple(
            "get_limits",
            "Query device limits (max texture size, buffer size, etc.)",
            false,
        ),
        AgentAction::simple("get_features", "List enabled GPU features", false),
    ]
}

/// The JSON object of all the limits an agent sees (see `limits_json`).
fn limits_object(l: &DeviceLimitsSummary) -> (r: serde_json::Value)
    ensures
        r == limits_json(*l),
{
    let e = vec![
        (
            "max_texture_dimension_2d".to_owned(),
            json_from_u64(l.max_texture_dimension_2d as u64),
        ),
        ("max_buffer_size".to_owned(), json_from_u64(l.max_buffer_size)),
        ("max_bind_groups".to_owned(), json_from_u64(l.max_bind_groups as u64)),
        ("max_vertex_buffers".to_owned(), json_from_u64(l.max_vertex_buffers as u64)),
        ("max_vertex_attributes".to_owned(), json_from_u64(l.max_vertex_attributes as u64)),
        (
            "max_compute_workgroup_size_x".to_owned(),
            json_from_u64(l.max_compute_workgroup_size_x as u64),
        ),
        (
            "max_compute_workgroups_per_dimension".to_owned(),
            json_from_u64(l.max_compute_workgroups_per_dimension as u64),
        ),
    ];
    proof {
        assert(entries_view(e@) =~= seq![
            ("max_texture_dimension_2d"@, json_of_u64(l.max_texture_dimension_2d as u64)),
            ("max_buffer_size"@, json_of_u64(l.max_buffer_size)),
            ("max_bind_groups"@, json_of_u64(l.max_bind_groups as u64)),
            ("max_vertex_buffers"@, json_of_u64(l.max_vertex_buffers as u64)),
            ("max_vertex_attributes"@, json_of_u64(l.max_vertex_attributes as u64)),
            ("max_compute_workgroup_size_x"@, json_of_u64(l.max_compute_workgroup_size_x as u64)),
            (
                "max_compute_workgroups_per_dimension"@,
                json_of_u64(l.max_compute_workgroups_per_dimension as u64),
            ),
        ]);
    }
    json_from_entries(e)
}

/// The state of a GPU context that an agent sees (see `context_state_json`).
pub fn gpu_context_state(
    info: &AdapterSummary,
    limits: &DeviceLimitsSummary,
    preference: &str,
) -> (r: serde_json::Value)
    ensures
        r == context_state_json(*info, *limits, preference@),
{
    let e = vec![
        ("adapter_name".to_owned(), json_text(info.name.as_str())),
        ("backend".to_owned(), json_text(info.backend.as_str())),
        ("device_type".to_owned(), json_text(info.device_type.as_str())),
        ("driver".to_owned(), json_text(info.driver.as_str())),
        ("driver_info".to_owned(), json_text(info.driver_info.as_str())),
        ("backend_preference".to_owned(), json_text(preference)),
        ("limits".to_owned(), limits_object(limits)),
    ];
    proof {
        assert(entries_view(e@) =~= seq![
            ("adapter_name"@, json_of_str(info.name@)),
            ("backend"@, json_of_str(info.backend@)),
            ("device_type"@, json_of_str(info.device_type@)),
            ("driver"@, json_of_str(info.driver@)),
            ("driver_info"@, json_of_str(info.driver_info@)),
            ("backend_preference"@, json_of_str(preference@)),
            ("limits"@, limits_json(*limits)),
        ]);
    }
    json_from_entries(e)
}

/// Answers an agent action on a GPU context from what the adapter and the
/// device report (see `context_action_reply`).
pub fn gpu_context_action(
    action: &str,
    info: &AdapterSummary,
    limits: &DeviceLimitsSummary,
    features: &str,
) -> (r: Result<serde_json::Value, String>)
    ensures
        reply_view(r) == context_action_reply(action@, *info, *limits, features@),
{
    if same_text(action, "get_adapter_info") {
        let e = vec![
            ("name".to_owned(), json_text(info.name.as_str())),
            ("backend".to_owned(), json_text(info.backend.as_str())),
            ("device_type".to_owned(), json_text(info.device_type.as_str())),
            ("driver".to_owned(), json_text(info.driver.as_str())),
        ];
        proof {
            assert(entries_view(e@) =~= seq![
                ("name"@, json_of_str(info.name@)),
                ("backend"@, json_of_str(info.backend@)),
                ("device_type"@, json_of_str(info.device_type@)),
                ("driver"@, json_of_str(info.driver@)),
            ]);
        }
        Ok(json_from_entries(e))
    } else if same_text(action, "get_limits") {
        let e = vec![
            (
                "max_texture_dimension_2d".to_owned(),
                json_from_u64(limits.max_texture_dimension_2d as u64),
            ),
            ("max_buffer_size".to_owned(), json_from_u64(limits.max_buffer_size)),
            ("max_bind_groups".to_owned(), json_from_u64(limits.max_bind_groups as u64)),
        ];
        proof {
            assert(entries_view(e@) =~= seq![
                ("max_texture_dimension_2d"@, json_of_u64(limits.max_texture_dimension_2d as u64)),
                ("max_buffer_size"@, json_of_u64(limits.max_buffer_size)),
                ("max_bind_groups"@, json_of_u64(limits.max_bind_groups as u64)),
            ]);
        }
        Ok(json_from_entries(e))
    } else if same_text(action, "get_features") {
        let e = vec![("features".to_owned(), json_text(features))];
        proof {
            assert(entries_view(e@) =~= seq![("features"@, json_of_str(features@))]);
        }
        Ok(json_from_entries(e))
    } else {
        Err(unknown_action(action))
    }
}

/// The three queries answer from what the adapter and device report:
/// "get_adapter_info" the adapter's name, backend, device type and driver;
/// "get_limits" the 2D texture dimension, buffer size and bind group
/// limits, the first three of the limits the state shows; "get_features"
/// the features' text. None of them is refused.
pub proof fn lemma_context_queries(
    info: AdapterSummary,
    limits: DeviceLimitsSummary,
    features: Seq<char>,
)
    ensures
        context_action_reply("get_adapter_info"@, info, limits, features) == Ok::<
            serde_json::Value,
            Seq<char>,
        >(
            json_of_entries(
                seq![
                    ("name"@, json_of_str(info.name@)),
                    ("backend"@, json_of_str(info.backend@)),
                    ("device_type"@, json_of_str(info.device_type@)),
                    ("driver"@, json_of_str(info.driver@)),
                ],
            ),
        ),
        ({
            let three = seq![
                ("max_texture_dimension_2d"@, json_of_u64(limits.max_texture_dimension_2d as u64)),
                ("max_buffer_size"@, json_of_u64(limits.max_buffer_size)),
                ("max_bind_groups"@, json_of_u64(limits.max_bind_groups as u64)),
            ];
            &&& context_action_reply("get_limits"@, info, limits, features) == Ok::<
                serde_json::Value,
                Seq<char>,
            >(json_of_entries(three))
            &&& limits_json(limits) == json_of_entries(
                three + seq![
                    ("max_vertex_buffers"@, json_of_u64(limits.max_vertex_buffers as u64)),
                    ("max_vertex_attributes"@, json_of_u64(limits.max_vertex_attributes as u64)),
                    (
                        "max_compute_workgroup_size_x"@,
                        json_of_u64(limits.max_compute_workgroup_size_x as u64),
                    ),
                    (
                        "max_compute_workgroups_per_dimension"@,
                        json_of_u64(limits.max_compute_workgroups_per_dimension as u64),
                    ),
                ],
            )
        }),
        context_action_reply("get_features"@, info, limits, features) == Ok::<
            serde_json::Value,
            Seq<char>,
        >(json_of_entries(seq![("features"@, json_of_str(features))])),
{
    reveal_strlit("get_adapter_info");
    reveal_strlit("get_limits");
    reveal_strlit("get_features");
    assert("get_adapter_info"@.len() != "get_limits"@.len());
    assert("get_adapter_info"@.len() != "get_features"@.len());
    assert("get_limits"@[4] != "get_features"@[4]);
    let three = seq![
        ("max_texture_dimension_2d"@, json_of_u64(limits.max_texture_dimension_2d as u64)),
        ("max_buffer_size"@, json_of_u64(limits.max_buffer_size)),
        ("max_bind_groups"@, json_of_u64(limits.max_bind_groups as u64)),
    ];
    assert(three + seq![
        ("max_vertex_buffers"@, json_of_u64(limits.max_vertex_buffers as u64)),
        ("max_vertex_attributes"@, json_of_u64(limits.max_vertex_attributes as u64)),
        ("max_compute_workgroup_size_x"@, json_of_u64(limits.max_compute_workgroup_size_x as u64)),
        (
            "max_compute_workgroups_per_dimension"@,
            json_of_u64(limits.max_compute_workgroups_per_dimension as u64),
        ),
    ] =~= seq![
        ("max_texture_dimension_2d"@, json_of_u64(limits.max_texture_dimension_2d as u64)),
        ("max_buffer_size"@, json_of_u64(limits.max_buffer_size)),
        ("max_bind_groups"@, json_of_u64(limits.max_bind_groups as u64)),
        ("max_vertex_buffers"@, json_of_u64(limits.max_vertex_buffers as u64)),
        ("max_vertex_attributes"@, json_of_u64(limits.max_vertex_attributes as u64)),
        ("max_compute_workgroup_size_x"@, json_of_u64(limits.max_compute_workgroup_size_x as u64)),
        (
            "max_compute_workgroups_per_dimension"@,
            json_of_u64(limits.max_compute_workgroups_per_dimension as u64),
        ),
    ]);
}

} // verus!
