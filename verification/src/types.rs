//! GPU resource kinds.

use vstd::prelude::*;

verus! {

/// GPU resource kind — used by the resource tracker and ontology.
#[derive(Debug, Clone, Copy, PartialEq, Eq, Hash, Structural)]
pub enum GpuResourceKind {
    Buffer,
    Texture,
    TextureView,
    Sampler,
    ShaderModule,
    BindGroupLayout,
    BindGroup,
    PipelineLayout,
    RenderPipeline,
    ComputePipeline,
    QuerySet,
    CommandBuffer,
}

/// The name of a resource kind, as it is displayed.
pub open spec fn resource_kind_name(k: GpuResourceKind) -> Seq<char> {
    match k {
        GpuResourceKind::Buffer => "Buffer"@,
        GpuResourceKind::Texture => "Texture"@,
        GpuResourceKind::TextureView => "TextureView"@,
        GpuResourceKind::Sampler => "Sampler"@,
        GpuResourceKind::ShaderModule => "ShaderModule"@,
        GpuResourceKind::BindGroupLayout => "BindGroupLayout"@,
        GpuResourceKind::BindGroup => "BindGroup"@,
        GpuResourceKind::PipelineLayout => "PipelineLayout"@,
        GpuResourceKind::RenderPipeline => "RenderPipeline"@,
        GpuResourceKind::ComputePipeline => "ComputePipeline"@,
        GpuResourceKind::QuerySet => "QuerySet"@,
        GpuResourceKind::CommandBuffer => "CommandBuffer"@,
    }
}

/// Each resource kind is displayed as its own variant name, so different
/// kinds are displayed differently.
pub proof fn lemma_resource_kind_names(a: GpuResourceKind, b: GpuResourceKind)
    ensures
        resource_kind_name(GpuResourceKind::Buffer) == "Buffer"@,
        resource_kind_name(GpuResourceKind::Texture) == "Texture"@,
        resource_kind_name(GpuResourceKind::TextureView) == "TextureView"@,
        resource_kind_name(GpuResourceKind::Sampler) == "Sampler"@,
        resource_kind_name(GpuResourceKind::ShaderModule) == "ShaderModule"@,
        resource_kind_name(GpuResourceKind::BindGroupLayout) == "BindGroupLayout"@,
        resource_kind_name(GpuResourceKind::BindGroup) == "BindGroup"@,
        resource_kind_name(GpuResourceKind::PipelineLayout) == "PipelineLayout"@,
        resource_kind_name(GpuResourceKind::RenderPipeline) == "RenderPipeline"@,
        resource_kind_name(GpuResourceKind::ComputePipeline) == "ComputePipeline"@,
        resource_kind_name(GpuResourceKind::QuerySet) == "QuerySet"@,
        resource_kind_name(GpuResourceKind::CommandBuffer) == "CommandBuffer"@,
        a != b ==> resource_kind_name(a) != resource_kind_name(b),
{
    reveal_strlit("Buffer");
    reveal_strlit("Texture");
    reveal_strlit("TextureView");
    reveal_strlit("Sampler");
    reveal_strlit("ShaderModule");
    reveal_strlit("BindGroupLayout");
    reveal_strlit("BindGroup");
    reveal_strlit("PipelineLayout");
    reveal_strlit("RenderPipeline");
    reveal_strlit("ComputePipeline");
    reveal_strlit("QuerySet");
    reveal_strlit("CommandBuffer");
    let (na, nb) = (resource_kind_name(a), resource_kind_name(b));
    if na == nb {
        assert(na.len() == nb.len());
        assert(na[0] == nb[0]);
        assert(na.len() > 4 ==> na[4] == nb[4]);
        assert(na.len() > 5 ==> na[5] == nb[5]);
        assert(na.len() > 7 ==> na[7] == nb[7]);
    }
}

impl GpuResourceKind {
    /// The displayed name of this kind (its variant name).
    pub fn to_string(&self) -> (r: String)
        ensures
            r@ == resource_kind_name(*self),
    {
        let name = match self {
            GpuResourceKind::Buffer => "Buffer",
            GpuResourceKind::Texture => "Texture",
            GpuResourceKind::TextureView => "TextureView",
            GpuResourceKind::Sampler => "Sampler",
            GpuResourceKind::ShaderModule => "ShaderModule",
            GpuResourceKind::BindGroupLayout => "BindGroupLayout",
            GpuResourceKind::BindGroup => "BindGroup",
            GpuResourceKind::PipelineLayout => "PipelineLayout",
            GpuResourceKind::RenderPipeline => "RenderPipeline",
            GpuResourceKind::ComputePipeline => "ComputePipeline",
            GpuResourceKind::QuerySet => "QuerySet",
            GpuResourceKind::CommandBuffer => "CommandBuffer",
        };
        name.to_owned()
    }
}

} // verus!

verus! {

#[verifier::external_type_specification]
#[verifier::external_body]
pub struct ExBackends(wgpu::Backends);

/// Which GPU backends to request. The toolkit is Vulkan-first: the
/// default preference tries Vulkan and falls back to the platform's
/// primary backends.
#[derive(Debug, Clone, Copy, PartialEq, Eq)]
pub enum BackendPreference {
    /// Try Vulkan first, then fall back to the platform default.
    VulkanPreferred,
    /// Try OpenGL/GLES first, then fall back to the platform default.
    OpenGLPreferred,
    /// Use the platform default (DX12 on Windows, Metal on macOS, Vulkan on Linux).
    PlatformDefault,
    /// Force a specific set of backends.
    Specific(wgpu::Backends),
}

impl Default for BackendPreference {
    /// Vulkan first, with a fallback to the platform's primary backends.
    fn default() -> (r: Self)
        ensures
            r is VulkanPreferred,
            r.falls_back_to_platform_spec(),
    {
        BackendPreference::VulkanPreferred
    }
}

impl BackendPreference {
    /// Whether a failed adapter request with this preference is retried
    /// with the platform's primary backends.
    pub open spec fn falls_back_to_platform_spec(&self) -> bool {
        *self is VulkanPreferred || *self is OpenGLPreferred
    }

    /// Whether a failed adapter request with this preference is retried
    /// with the platform's primary backends.
    pub fn falls_back_to_platform(&self) -> (r: bool)
        ensures
            r == self.falls_back_to_platform_spec(),
    {
        match self {
            BackendPreference::VulkanPreferred | BackendPreference::OpenGLPreferred => true,
            _ => false,
        }
    }
}

} // verus!
