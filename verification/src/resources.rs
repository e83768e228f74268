//! The resource-type binding: every abstract resource kind the generic
//! graphics contract names resolves to exactly one concrete backend
//! representation. Native handles are opaque integers; the backend never
//! interprets their bits, only passes them back to the native layer.

use vstd::prelude::*;

verus! {

/// A dispatchable native handle: an opaque identifier issued by the native
/// layer for instances, devices, queues and command buffers.
pub type DispatchableHandle = u64;

/// A non-dispatchable native handle: an opaque identifier issued by the
/// native layer for buffers, images, views, samplers, fences and pipelines.
pub type NonDispatchableHandle = u64;

/// A buffer object's native handle.
pub type Buffer = NonDispatchableHandle;

/// An array buffer shares the buffer representation.
pub type ArrayBuffer = NonDispatchableHandle;

/// A shader module's native handle.
pub type Shader = NonDispatchableHandle;

/// A program deliberately aliases the shader-module representation: the
/// native layer has no separate linked-program object.
pub type Program = NonDispatchableHandle;

/// A framebuffer's native handle.
pub type FrameBuffer = NonDispatchableHandle;

/// A presentable surface is represented by an image view's handle.
pub type Surface = NonDispatchableHandle;

/// A texture is an image handle.
pub type Texture = NonDispatchableHandle;

/// A sampler's native handle.
pub type Sampler = NonDispatchableHandle;

/// A GPU-to-CPU synchronization primitive: an opaque fence handle, copyable
/// by value and safe to share across threads, since it carries only a stable
/// native handle and never a live resource reference. A signal is a new
/// GPU-side event observed through the native layer, never a field mutation.
#[derive(Copy, Clone, PartialEq, Eq, Hash, Debug, Structural)]
pub struct Fence(pub NonDispatchableHandle);

/// A pipeline-state object: a compiled pipeline's native handle.
#[derive(Copy, Clone, PartialEq, Eq, Hash, Debug, Structural)]
pub struct PipelineState(pub NonDispatchableHandle);

/// A texture together with its image handle, as the binding exposes it.
#[derive(Copy, Clone, PartialEq, Eq, Hash, Debug, Structural)]
pub struct NewTexture(pub NonDispatchableHandle);

/// A render-target or depth-stencil view. The two kinds deliberately share
/// this representation: the native layer represents both as an image view.
#[derive(Copy, Clone, PartialEq, Eq, Hash, Debug, Structural)]
pub struct TargetView(pub NonDispatchableHandle);

/// A shader-resource view's native handle.
#[derive(Copy, Clone, PartialEq, Eq, Hash, Debug, Structural)]
pub struct ResourceView(pub NonDispatchableHandle);

/// A sampler together with its handle, as the binding exposes it.
#[derive(Copy, Clone, PartialEq, Eq, Hash, Debug, Structural)]
pub struct FatSampler(pub NonDispatchableHandle);

/// The backend's resource marker: a type that only names the binding from
/// abstract resource kinds to the concrete types above. Its one variant is a
/// marker; no code ever inspects a value of it.
#[derive(Copy, Clone, Debug, Eq, Hash, PartialEq, Structural)]
pub enum Resources {
    Backend,
}

/// The abstract resource kinds the generic graphics contract requires a
/// backend to bind.
#[derive(Copy, Clone, PartialEq, Eq, Hash, Debug, Structural)]
pub enum ResourceKind {
    Buffer,
    Shader,
    Program,
    PipelineStateObject,
    Texture,
    RenderTargetView,
    DepthStencilView,
    ShaderResourceView,
    UnorderedAccessView,
    Sampler,
    Fence,
}

/// The concrete representations this backend binds the abstract kinds to.
/// `EmptyPlaceholder` stands for a feature the backend does not support yet
/// (unordered-access views), bound to a unit type on purpose.
#[derive(Copy, Clone, PartialEq, Eq, Hash, Debug, Structural)]
pub enum BoundType {
    BufferObject,
    ShaderModule,
    PipelineStateObject,
    TextureImage,
    TargetView,
    ResourceView,
    EmptyPlaceholder,
    SamplerState,
    FenceObject,
}

/// The binding table as a mathematical function: one concrete representation
/// per abstract kind. Render-target and depth-stencil views alias the same
/// representation, as do shaders and programs; both aliases are deliberate.
pub open spec fn spec_binding(kind: ResourceKind) -> BoundType {
    match kind {
        ResourceKind::Buffer => BoundType::BufferObject,
        ResourceKind::Shader => BoundType::ShaderModule,
        ResourceKind::Program => BoundType::ShaderModule,
        ResourceKind::PipelineStateObject => BoundType::PipelineStateObject,
        ResourceKind::Texture => BoundType::TextureImage,
        ResourceKind::RenderTargetView => BoundType::TargetView,
        ResourceKind::DepthStencilView => BoundType::TargetView,
        ResourceKind::ShaderResourceView => BoundType::ResourceView,
        ResourceKind::UnorderedAccessView => BoundType::EmptyPlaceholder,
        ResourceKind::Sampler => BoundType::SamplerState,
        ResourceKind::Fence => BoundType::FenceObject,
    }
}

/// Resolves an abstract resource kind to this backend's concrete
/// representation. Total: every kind resolves, and to exactly one type.
pub fn binding(kind: ResourceKind) -> (b: BoundType)
    ensures
        b == spec_binding(kind),
{
    match kind {
        ResourceKind::Buffer => BoundType::BufferObject,
        ResourceKind::Shader => BoundType::ShaderModule,
        ResourceKind::Program => BoundType::ShaderModule,
        ResourceKind::PipelineStateObject => BoundType::PipelineStateObject,
        ResourceKind::Texture => BoundType::TextureImage,
        ResourceKind::RenderTargetView => BoundType::TargetView,
        ResourceKind::DepthStencilView => BoundType::TargetView,
        ResourceKind::ShaderResourceView => BoundType::ResourceView,
        ResourceKind::UnorderedAccessView => BoundType::EmptyPlaceholder,
        ResourceKind::Sampler => BoundType::SamplerState,
        ResourceKind::Fence => BoundType::FenceObject,
    }
}

/// The generic resource contract: one associated type per abstract resource
/// kind. A backend satisfies the contract by declaring, at the type level,
/// the concrete representation of every kind.
pub trait ResourceTypes {
    type Buffer;

    type Shader;

    type Program;

    type PipelineStateObject;

    type Texture;

    type RenderTargetView;

    type DepthStencilView;

    type ShaderResourceView;

    type UnorderedAccessView;

    type Sampler;

    type Fence;
}

impl ResourceTypes for Resources {
    type Buffer = Buffer;

    type Shader = Shader;

    type Program = Program;

    type PipelineStateObject = PipelineState;

    type Texture = NewTexture;

    type RenderTargetView = TargetView;

    type DepthStencilView = TargetView;

    type ShaderResourceView = ResourceView;

    type UnorderedAccessView = ();

    type Sampler = FatSampler;

    type Fence = Fence;
}

/// Totality of the resource-type binding: every abstract kind resolves, to
/// exactly one concrete representation; the render-target and depth-stencil
/// view kinds deliberately alias one representation, as do the shader and
/// program kinds.
pub proof fn lemma_binding_totality()
    ensures
        spec_binding(ResourceKind::Buffer) == BoundType::BufferObject,
        spec_binding(ResourceKind::Shader) == BoundType::ShaderModule,
        spec_binding(ResourceKind::Program) == BoundType::ShaderModule,
        spec_binding(ResourceKind::PipelineStateObject) == BoundType::PipelineStateObject,
        spec_binding(ResourceKind::Texture) == BoundType::TextureImage,
        spec_binding(ResourceKind::RenderTargetView) == BoundType::TargetView,
        spec_binding(ResourceKind::DepthStencilView) == BoundType::TargetView,
        spec_binding(ResourceKind::ShaderResourceView) == BoundType::ResourceView,
        spec_binding(ResourceKind::UnorderedAccessView) == BoundType::EmptyPlaceholder,
        spec_binding(ResourceKind::Sampler) == BoundType::SamplerState,
        spec_binding(ResourceKind::Fence) == BoundType::FenceObject,
        spec_binding(ResourceKind::RenderTargetView) == spec_binding(ResourceKind::DepthStencilView),
        spec_binding(ResourceKind::Shader) == spec_binding(ResourceKind::Program),
{
}

} // verus!
