//! The backend device's resource bookkeeping: a slot pool that hands out
//! small integer identifiers with free-list reuse, and the device that
//! tracks every texture, buffer, shader and pipeline description.
//!
//! Submitting work to a native graphics API is outside this library; the
//! device verified here owns the identifier and description bookkeeping
//! that any such backend builds on.

use vstd::prelude::*;

verus! {

use crate::gfx::{
    BufferDesc,
    BufferHandle,
    PipelineDesc,
    PipelineHandle,
    RendererConfig,
    ShaderDesc,
    ShaderHandle,
    TextureDesc,
    TextureHandle,
};

/// A pool of slots identified by `u32`, reusing freed slots before
/// creating fresh ones.
pub struct ResourcePool<T> {
    slots: Vec<Option<T>>,
    free_list: Vec<u32>,
}

impl<T> ResourcePool<T> {
    /// The slots, occupied or empty.
    pub closed spec fn spec_slots(&self) -> Seq<Option<T>> {
        self.slots@
    }

    /// The identifiers waiting for reuse.
    pub closed spec fn spec_free_list(&self) -> Seq<u32> {
        self.free_list@
    }

    /// Free identifiers name empty slots, each at most once.
    pub open spec fn wf(&self) -> bool {
        &&& self.spec_slots().len() <= u32::MAX
        &&& forall|j: int|
            0 <= j < self.spec_free_list().len() ==> ((#[trigger] self.spec_free_list()[j]) as int)
                < self.spec_slots().len()
        &&& forall|j: int|
            0 <= j < self.spec_free_list().len() ==> self.spec_slots()[(
            #[trigger] self.spec_free_list()[j]) as int] is None
        &&& forall|j1: int, j2: int|
            0 <= j1 < j2 < self.spec_free_list().len() ==> (#[trigger] self.spec_free_list()[j1])
                != (#[trigger] self.spec_free_list()[j2])
    }

    /// An empty pool.
    pub fn new() -> (r: ResourcePool<T>)
        ensures
            r.wf(),
            r.spec_slots().len() == 0,
            r.spec_free_list().len() == 0,
    {
        ResourcePool { slots: Vec::new(), free_list: Vec::new() }
    }

    /// Stores `resource`, reusing a freed slot when one exists and
    /// otherwise appending a fresh one; returns the slot's identifier,
    /// which names an empty slot no live identifier shares.
    pub fn allocate(&mut self, resource: T) -> (r: u32)
        requires
            old(self).wf(),
            old(self).spec_free_list().len() > 0 || old(self).spec_slots().len() < u32::MAX,
        ensures
            final(self).wf(),
            old(self).spec_free_list().len() > 0 ==> {
                &&& r == old(self).spec_free_list().last()
                &&& final(self).spec_free_list() == old(self).spec_free_list().drop_last()
                &&& final(self).spec_slots() == old(self).spec_slots().update(
                    r as int,
                    Some(resource),
                )
            },
            old(self).spec_free_list().len() == 0 ==> {
                &&& r == old(self).spec_slots().len()
                &&& final(self).spec_free_list() == old(self).spec_free_list()
                &&& final(self).spec_slots() == old(self).spec_slots().push(Some(resource))
            },
            (r as int) < final(self).spec_slots().len(),
            final(self).spec_slots()[r as int] == Some(resource),
            (r as int) < old(self).spec_slots().len() ==> old(self).spec_slots()[r as int]
                is None,
    {
        match self.free_list.pop() {
            Some(id) => {
                let ghost pre = *old(self);
                self.slots[id as usize] = Some(resource);
                proof {
                    let n = pre.spec_free_list().len() as int;
                    assert forall|j: int|
                        0 <= j < self.spec_free_list().len() implies self.spec_slots()[(
                    #[trigger] self.spec_free_list()[j]) as int] is None by {
                        assert(self.spec_free_list()[j] == pre.spec_free_list()[j]);
                        assert(pre.spec_free_list()[j] != pre.spec_free_list()[n - 1]);
                    }
                }
                id
            },
            None => {
                let id = self.slots.len() as u32;
                self.slots.push(Some(resource));
                proof {
                    assert(self.spec_free_list().len() == 0);
                }
                id
            },
        }
    }

    /// Empties the slot named `id` and queues it for reuse, handing its
    /// resource back; an identifier that names no occupied slot is
    /// refused with `None` and the pool is left unchanged.
    pub fn free(&mut self, id: u32) -> (r: Option<T>)
        requires
            old(self).wf(),
        ensures
            final(self).wf(),
            ((id as int) < old(self).spec_slots().len() && old(self).spec_slots()[id as int]
                is Some) ==> {
                &&& r == old(self).spec_slots()[id as int]
                &&& final(self).spec_slots() == old(self).spec_slots().update(
                    id as int,
                    None::<T>,
                )
                &&& final(self).spec_free_list() == old(self).spec_free_list().push(id)
            },
            !((id as int) < old(self).spec_slots().len() && old(self).spec_slots()[id as int]
                is Some) ==> r == None::<T> && final(self).spec_slots() == old(
                self,
            ).spec_slots() && final(self).spec_free_list() == old(self).spec_free_list(),
    {
        if (id as usize) >= self.slots.len() {
            return None;
        }
        let slot = vstd::std_specs::vec::vec_index_mut(&mut self.slots, id as usize);
        let taken = slot.take();
        match taken {
            Some(resource) => {
                self.free_list.push(id);
                proof {
                    let g = *old(self);
                    let n = g.spec_free_list().len() as int;
                    assert forall|j1: int, j2: int|
                        0 <= j1 < j2 < self.spec_free_list().len() implies (
                    #[trigger] self.spec_free_list()[j1]) != (
                    #[trigger] self.spec_free_list()[j2]) by {
                        if j2 == n {
                            assert(self.spec_free_list()[j1] == g.spec_free_list()[j1]);
                            assert(g.spec_slots()[g.spec_free_list()[j1] as int] is None);
                        }
                    }
                }
                Some(resource)
            },
            None => {
                proof {
                    assert(self.spec_slots() =~= old(self).spec_slots());
                }
                None
            },
        }
    }

    /// The resource in slot `id`, when that slot is occupied.
    pub fn get(&self, id: u32) -> (r: Option<&T>)
        ensures
            ((id as int) < self.spec_slots().len() && self.spec_slots()[id as int] is Some)
                ==> match r {
                Some(v) => Some(*v) == self.spec_slots()[id as int],
                None => false,
            },
            !((id as int) < self.spec_slots().len() && self.spec_slots()[id as int] is Some)
                ==> r == None::<&T>,
    {
        if (id as usize) >= self.slots.len() {
            return None;
        }
        self.slots[id as usize].as_ref()
    }

    /// The resource in slot `id` for in-place update, when that slot is
    /// occupied.
    pub fn get_mut(&mut self, id: u32) -> (r: Option<&mut T>)
        requires
            old(self).wf(),
        ensures
            final(self).wf(),
            ((id as int) < old(self).spec_slots().len() && old(self).spec_slots()[id as int]
                is Some) ==> match r {
                Some(v) => Some(*v) == old(self).spec_slots()[id as int] && final(self).spec_slots() == old(self).spec_slots().update(id as int, Some(*final(v)))
                    && final(self).spec_free_list() == old(self).spec_free_list(),
                None => false,
            },
            !((id as int) < old(self).spec_slots().len() && old(self).spec_slots()[id as int]
                is Some) ==> r == None::<&mut T> && final(self).spec_slots() == old(
                self,
            ).spec_slots() && final(self).spec_free_list() == old(self).spec_free_list(),
    {
        if (id as usize) >= self.slots.len() {
            return None;
        }
        proof {
            assert(old(self).spec_slots()[id as int] is Some ==> true);
        }
        let slot = vstd::std_specs::vec::vec_index_mut(&mut self.slots, id as usize);
        match slot {
            Some(v) => Some(v),
            None => None,
        }
    }
}

/// The device-side bookkeeping of every GPU resource: descriptions stored
/// under small integer handles, plus the renderer configuration and frame
/// counter.
pub struct BackendDevice {
    config: RendererConfig,
    textures: ResourcePool<TextureDesc>,
    buffers: ResourcePool<BufferDesc>,
    shaders: ResourcePool<ShaderDesc>,
    pipelines: ResourcePool<PipelineDesc>,
    current_frame: u64,
}

impl BackendDevice {
    /// The renderer configuration.
    pub closed spec fn spec_config(&self) -> RendererConfig {
        self.config
    }

    /// The texture descriptions held by the device.
    pub closed spec fn spec_textures(&self) -> ResourcePool<TextureDesc> {
        self.textures
    }

    /// The buffer descriptions held by the device.
    pub closed spec fn spec_buffers(&self) -> ResourcePool<BufferDesc> {
        self.buffers
    }

    /// The shader descriptions held by the device.
    pub closed spec fn spec_shaders(&self) -> ResourcePool<ShaderDesc> {
        self.shaders
    }

    /// The pipeline descriptions held by the device.
    pub closed spec fn spec_pipelines(&self) -> ResourcePool<PipelineDesc> {
        self.pipelines
    }

    /// Frames presented so far.
    pub closed spec fn spec_current_frame(&self) -> int {
        self.current_frame as int
    }

    /// Every resource pool is well formed.
    pub open spec fn wf(&self) -> bool {
        &&& self.spec_textures().wf()
        &&& self.spec_buffers().wf()
        &&& self.spec_shaders().wf()
        &&& self.spec_pipelines().wf()
    }

    /// A device with no resources, at frame zero.
    pub fn new(config: RendererConfig) -> (r: BackendDevice)
        ensures
            r.wf(),
            r.spec_config() == config,
            r.spec_textures().spec_slots().len() == 0,
            r.spec_buffers().spec_slots().len() == 0,
            r.spec_shaders().spec_slots().len() == 0,
            r.spec_pipelines().spec_slots().len() == 0,
            r.spec_current_frame() == 0,
    {
        BackendDevice {
            config,
            textures: ResourcePool::new(),
            buffers: ResourcePool::new(),
            shaders: ResourcePool::new(),
            pipelines: ResourcePool::new(),
            current_frame: 0,
        }
    }

    /// Registers a texture and returns its handle.
    pub fn create_texture(&mut self, desc: &TextureDesc) -> (r: TextureHandle)
        requires
            old(self).wf(),
            old(self).spec_textures().spec_free_list().len() > 0 || old(self).spec_textures().spec_slots().len() < u32::MAX,
        ensures
            final(self).wf(),
            final(self).spec_config() == old(self).spec_config(),
            (r.0 as int) < final(self).spec_textures().spec_slots().len(),
            final(self).spec_textures().spec_slots()[r.0 as int] == Some(*desc),
    {
        TextureHandle(self.textures.allocate(*desc))
    }

    /// Drops the texture under `handle`; a handle that names nothing is
    /// ignored.
    pub fn destroy_texture(&mut self, handle: TextureHandle)
        requires
            old(self).wf(),
        ensures
            final(self).wf(),
            final(self).spec_config() == old(self).spec_config(),
            (handle.0 as int) < final(self).spec_textures().spec_slots().len() ==> final(self).spec_textures().spec_slots()[handle.0 as int] is None,
    {
        let _ = self.textures.free(handle.0);
    }

    /// Registers a buffer and returns its handle.
    pub fn create_buffer(&mut self, desc: &BufferDesc) -> (r: BufferHandle)
        requires
            old(self).wf(),
            old(self).spec_buffers().spec_free_list().len() > 0 || old(self).spec_buffers().spec_slots().len() < u32::MAX,
        ensures
            final(self).wf(),
            final(self).spec_config() == old(self).spec_config(),
            (r.0 as int) < final(self).spec_buffers().spec_slots().len(),
            final(self).spec_buffers().spec_slots()[r.0 as int] == Some(*desc),
    {
        BufferHandle(self.buffers.allocate(*desc))
    }

    /// Drops the buffer under `handle`; a handle that names nothing is
    /// ignored.
    pub fn destroy_buffer(&mut self, handle: BufferHandle)
        requires
            old(self).wf(),
        ensures
            final(self).wf(),
            final(self).spec_config() == old(self).spec_config(),
            (handle.0 as int) < final(self).spec_buffers().spec_slots().len() ==> final(self).spec_buffers().spec_slots()[handle.0 as int] is None,
    {
        let _ = self.buffers.free(handle.0);
    }

    /// Registers a shader module and returns its handle.
    pub fn create_shader(&mut self, desc: ShaderDesc) -> (r: ShaderHandle)
        requires
            old(self).wf(),
            old(self).spec_shaders().spec_free_list().len() > 0 || old(self).spec_shaders().spec_slots().len() < u32::MAX,
        ensures
            final(self).wf(),
            final(self).spec_config() == old(self).spec_config(),
            (r.0 as int) < final(self).spec_shaders().spec_slots().len(),
            final(self).spec_shaders().spec_slots()[r.0 as int] == Some(desc),
    {
        ShaderHandle(self.shaders.allocate(desc))
    }

    /// Drops the shader under `handle`; a handle that names nothing is
    /// ignored.
    pub fn destroy_shader(&mut self, handle: ShaderHandle)
        requires
            old(self).wf(),
        ensures
            final(self).wf(),
            final(self).spec_config() == old(self).spec_config(),
            (handle.0 as int) < final(self).spec_shaders().spec_slots().len() ==> final(self).spec_shaders().spec_slots()[handle.0 as int] is None,
    {
        let _ = self.shaders.free(handle.0);
    }

    /// Registers a pipeline and returns its handle.
    pub fn create_pipeline(&mut self, desc: PipelineDesc) -> (r: PipelineHandle)
        requires
            old(self).wf(),
            old(self).spec_pipelines().spec_free_list().len() > 0 || old(self).spec_pipelines().spec_slots().len() < u32::MAX,
        ensures
            final(self).wf(),
            final(self).spec_config() == old(self).spec_config(),
            (r.0 as int) < final(self).spec_pipelines().spec_slots().len(),
            final(self).spec_pipelines().spec_slots()[r.0 as int] == Some(desc),
    {
        PipelineHandle(self.pipelines.allocate(desc))
    }

    /// Drops the pipeline under `handle`; a handle that names nothing is
    /// ignored.
    pub fn destroy_pipeline(&mut self, handle: PipelineHandle)
        requires
            old(self).wf(),
        ensures
            final(self).wf(),
            final(self).spec_config() == old(self).spec_config(),
            (handle.0 as int) < final(self).spec_pipelines().spec_slots().len() ==> final(self).spec_pipelines().spec_slots()[handle.0 as int] is None,
    {
        let _ = self.pipelines.free(handle.0);
    }

    /// The swapchain's texture handle; this bookkeeping device reports the
    /// first handle.
    pub fn get_swapchain_texture(&self) -> (r: TextureHandle)
        ensures
            r.0 == 0u32,
    {
        TextureHandle(0)
    }

    /// Records the new swapchain size in the configuration.
    pub fn resize(&mut self, width: u32, height: u32)
        ensures
            final(self).wf() == old(self).wf(),
            final(self).spec_config().width == width,
            final(self).spec_config().height == height,
            final(self).spec_current_frame() == old(self).spec_current_frame(),
    {
        self.config.width = width;
        self.config.height = height;
    }

    /// Counts one presented frame.
    pub fn present(&mut self)
        requires
            old(self).spec_current_frame() < u64::MAX,
        ensures
            final(self).wf() == old(self).wf(),
            final(self).spec_config() == old(self).spec_config(),
            final(self).spec_current_frame() == old(self).spec_current_frame() + 1,
    {
        self.current_frame = self.current_frame + 1;
    }
}

/// Creates a device with the given configuration.
pub fn create_device(config: RendererConfig) -> (r: BackendDevice)
    ensures
        r.wf(),
        r.spec_config() == config,
        r.spec_current_frame() == 0,
{
    BackendDevice::new(config)
}

} // verus!
