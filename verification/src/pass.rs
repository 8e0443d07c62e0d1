//! A render pass that remembers the pipeline and bind groups it has set and
//! leaves out the calls that would set them again.

use std::ops::Range;

use rustc_hash::FxHashMap;
use vstd::prelude::*;
use wgpu::{BindGroup, Buffer, BufferSlice, IndexFormat, RenderPass, RenderPipeline, ShaderStages};

use crate::gpu::{
    active_pipeline, bound_groups, fx_map_get, push_constant_words, recorded_commands, RecordedCommand, fx_map_insert, fx_map_with_capacity, offsets_address,
    pass_draw, pass_draw_indexed, pass_draw_indexed_indirect, pass_draw_indirect,
    pass_set_bind_group, pass_set_index_buffer, pass_set_pipeline, pass_set_push_constants,
    pass_set_vertex_buffer, same_bind_group, same_pipeline,
};

verus! {

/// The number of bind group slots the cache makes room for up front.
pub const BIND_GROUP_CACHE_CAPACITY: usize = 16;

/// A `wgpu::RenderPass` with a cache of the state it has set: the current
/// pipeline, and for each bind group index the bind group and the address
/// of the dynamic offsets last set there.
#[derive(Debug)]
pub struct StoryboardRenderPass<'a> {
    pass: RenderPass<'a>,
    current_bind_groups: FxHashMap<u32, (&'a BindGroup, usize)>,
    current_pipeline: Option<&'a RenderPipeline>,
}

impl<'a> StoryboardRenderPass<'a> {
    /// The underlying pass.
    pub closed spec fn render_pass(&self) -> RenderPass<'a> {
        self.pass
    }

    /// The pipeline the cache holds as current.
    pub closed spec fn cached_pipeline(&self) -> Option<RenderPipeline> {
        match self.current_pipeline {
            Some(p) => Some(*p),
            None => None,
        }
    }

    /// For each bind group index, the bind group the cache holds there and
    /// the address of the offsets it was set with.
    pub closed spec fn cached_bind_groups(&self) -> Map<u32, (BindGroup, usize)> {
        self.current_bind_groups@.map_values(|e: (&'a BindGroup, usize)| (*e.0, e.1))
    }

    /// The cache tells the truth about the pass: a cached pipeline is the
    /// active one, and a cached bind group is the one bound at its index.
    pub open spec fn cache_agrees_with_pass(&self) -> bool {
        &&& (self.cached_pipeline() is Some ==> active_pipeline(self.render_pass())
            == self.cached_pipeline())
        &&& forall|i: u32| #[trigger]
            self.cached_bind_groups().contains_key(i) ==> {
                &&& bound_groups(self.render_pass()).contains_key(i)
                &&& bound_groups(self.render_pass())[i].0 == self.cached_bind_groups()[i].0
            }
    }

    /// Wraps `pass` with an empty cache.
    pub fn new(pass: RenderPass<'a>) -> (this: Self)
        ensures
            this.render_pass() == pass,
            this.cached_pipeline() is None,
            this.cached_bind_groups() == Map::<u32, (BindGroup, usize)>::empty(),
            this.cache_agrees_with_pass(),
    {
        let this = Self {
            pass,
            current_pipeline: None,
            current_bind_groups: fx_map_with_capacity(BIND_GROUP_CACHE_CAPACITY),
        };
        assert(this.cached_bind_groups() =~= Map::<u32, (BindGroup, usize)>::empty());
        this
    }

    /// Makes `pipeline` the active pipeline. If the cache holds this
    /// pipeline as current, nothing happens: the pass gets no call and the
    /// cache is unchanged. Otherwise the pipeline is set on the pass and the
    /// cached bind groups are forgotten.
    pub fn set_pipeline(&mut self, pipeline: &'a RenderPipeline)
        requires
            old(self).cache_agrees_with_pass(),
        ensures
            final(self).cache_agrees_with_pass(),
            final(self).cached_pipeline() == Some(*pipeline),
            active_pipeline(final(self).render_pass()) == Some(*pipeline),
            recorded_commands(final(self).render_pass()) == recorded_commands(
                old(self).render_pass(),
            ),
            old(self).cached_pipeline() == Some(*pipeline) ==> *final(self) == *old(self),
            old(self).cached_pipeline() != Some(*pipeline) ==> final(self).cached_bind_groups()
                == Map::<u32, (BindGroup, usize)>::empty(),
    {
        let is_current = match self.current_pipeline {
            Some(current_pipeline) => same_pipeline(current_pipeline, pipeline),
            None => false,
        };
        self.set_pipeline_at(pipeline, is_current);
    }

    /// [`Self::set_pipeline`] with the identity test already made:
    /// `is_current` tells whether `pipeline` is the very object the cache
    /// holds as current. If it is, nothing happens: the pass gets no call
    /// and the cache is unchanged. Otherwise `pipeline` becomes the cached
    /// pipeline, the cached bind groups are forgotten and the pipeline is
    /// set on the pass.
    pub fn set_pipeline_at(&mut self, pipeline: &'a RenderPipeline, is_current: bool)
        requires
            old(self).cache_agrees_with_pass(),
            is_current ==> old(self).cached_pipeline() == Some(*pipeline),
        ensures
            final(self).cache_agrees_with_pass(),
            final(self).cached_pipeline() == Some(*pipeline),
            active_pipeline(final(self).render_pass()) == Some(*pipeline),
            recorded_commands(final(self).render_pass()) == recorded_commands(
                old(self).render_pass(),
            ),
            is_current ==> *final(self) == *old(self),
            !is_current ==> final(self).cached_bind_groups() == Map::<u32, (BindGroup, usize)>::empty(),
    {
        if is_current {
            return;
        }
        self.current_pipeline = Some(pipeline);

        self.reset_pipeline_desc();

        pass_set_pipeline(&mut self.pass, pipeline);
    }

    /// Binds `bind_group` with `offsets` at `index`, unless the cache holds
    /// this very bind group object there with offsets at the same address.
    pub fn set_bind_group(&mut self, index: u32, bind_group: &'a BindGroup, offsets: &[u32])
        requires
            old(self).cache_agrees_with_pass(),
            index <= 255,
            offsets@.len() <= 255,
        ensures
            final(self).cache_agrees_with_pass(),
            final(self).cached_pipeline() == old(self).cached_pipeline(),
            active_pipeline(final(self).render_pass()) == active_pipeline(old(self).render_pass()),
            recorded_commands(final(self).render_pass()) == recorded_commands(
                old(self).render_pass(),
            ),
            ({
                ||| {
                    &&& old(self).cached_bind_groups().contains_key(index)
                    &&& old(self).cached_bind_groups()[index].0 == *bind_group
                    &&& *final(self) == *old(self)
                }
                ||| {
                    &&& exists|address: usize|
                        final(self).cached_bind_groups() == old(self).cached_bind_groups().insert(
                            index,
                            (*bind_group, address),
                        )
                    &&& bound_groups(final(self).render_pass()) == bound_groups(
                        old(self).render_pass(),
                    ).insert(index, (*bind_group, offsets@))
                }
            }),
            bound_groups(old(self).render_pass()).contains_key(index) && bound_groups(
                old(self).render_pass(),
            )[index].1 == offsets@ ==> bound_groups(final(self).render_pass()) == bound_groups(
                old(self).render_pass(),
            ).insert(index, (*bind_group, offsets@)),
    {
        let offsets_ptr = offsets_address(offsets);
        let same_group = match fx_map_get(&self.current_bind_groups, &index) {
            Some(entry) => same_bind_group(bind_group, entry.0),
            None => false,
        };
        proof {
            if same_group {
                assert(self.cached_bind_groups().contains_key(index));
            }
        }
        self.set_bind_group_at(index, bind_group, offsets, offsets_ptr, same_group);
    }

    /// Whether a call binding `bind_group` with offsets at `offsets_ptr` at
    /// `index` is left out: `same_group` (the cache holds this very bind
    /// group object at `index`) and the cached offsets are at the same
    /// address.
    pub open spec fn skips_bind_group(&self, index: u32, offsets_ptr: usize, same_group: bool) -> bool {
        &&& same_group
        &&& self.cached_bind_groups().contains_key(index)
        &&& self.cached_bind_groups()[index].1 == offsets_ptr
    }

    /// [`Self::set_bind_group`] with the address of `offsets` already taken
    /// and the identity test already made: `same_group` tells whether
    /// `bind_group` is the very object the cache holds at `index`. If it is
    /// and the cached offsets are at `offsets_ptr`, nothing happens: the pass
    /// gets no call and the cache is unchanged. Otherwise the cache holds
    /// `bind_group` and `offsets_ptr` at `index` and the pass binds
    /// `bind_group` with `offsets` there.
    pub fn set_bind_group_at(
        &mut self,
        index: u32,
        bind_group: &'a BindGroup,
        offsets: &[u32],
        offsets_ptr: usize,
        same_group: bool,
    )
        requires
            old(self).cache_agrees_with_pass(),
            index <= 255,
            offsets@.len() <= 255,
            same_group ==> old(self).cached_bind_groups().contains_key(index) && old(
                self,
            ).cached_bind_groups()[index].0 == *bind_group,
        ensures
            final(self).cache_agrees_with_pass(),
            old(self).skips_bind_group(index, offsets_ptr, same_group) ==> *final(self) == *old(self),
            !old(self).skips_bind_group(index, offsets_ptr, same_group) ==> {
                &&& final(self).cached_bind_groups() == old(self).cached_bind_groups().insert(
                    index,
                    (*bind_group, offsets_ptr),
                )
                &&& final(self).cached_pipeline() == old(self).cached_pipeline()
                &&& bound_groups(final(self).render_pass()) == bound_groups(
                    old(self).render_pass(),
                ).insert(index, (*bind_group, offsets@))
                &&& active_pipeline(final(self).render_pass()) == active_pipeline(
                    old(self).render_pass(),
                )
                &&& recorded_commands(final(self).render_pass()) == recorded_commands(
                    old(self).render_pass(),
                )
            },
    {
        if same_group {
            if let Some(entry) = fx_map_get(&self.current_bind_groups, &index) {
                let (_, current_offsets_ptr) = *entry;
                if offsets_ptr == current_offsets_ptr {
                    return;
                }
            }
        }
        fx_map_insert(&mut self.current_bind_groups, index, (bind_group, offsets_ptr));
        proof {
            assert(self.cached_bind_groups() =~= old(self).cached_bind_groups().insert(
                index,
                (*bind_group, offsets_ptr),
            ));
        }

        pass_set_bind_group(&mut self.pass, index, bind_group, offsets);
    }

    /// Sets the index buffer on the pass. The cache is unchanged.
    pub fn set_index_buffer(&mut self, slice: BufferSlice<'a>, index_format: IndexFormat)
        requires
            old(self).cache_agrees_with_pass(),
        ensures
            final(self).cache_agrees_with_pass(),
            final(self).cached_pipeline() == old(self).cached_pipeline(),
            final(self).cached_bind_groups() == old(self).cached_bind_groups(),
            active_pipeline(final(self).render_pass()) == active_pipeline(old(self).render_pass()),
            bound_groups(final(self).render_pass()) == bound_groups(old(self).render_pass()),
            recorded_commands(final(self).render_pass()) == recorded_commands(
                old(self).render_pass(),
            ).push(RecordedCommand::SetIndexBuffer(slice, index_format)),
    {
        pass_set_index_buffer(&mut self.pass, slice, index_format);
        assert(self.cached_bind_groups() == old(self).cached_bind_groups());
    }

    /// Sets a vertex buffer on the pass. The cache is unchanged.
    pub fn set_vertex_buffer(&mut self, slot: u32, slice: BufferSlice<'a>)
        requires
            old(self).cache_agrees_with_pass(),
        ensures
            final(self).cache_agrees_with_pass(),
            final(self).cached_pipeline() == old(self).cached_pipeline(),
            final(self).cached_bind_groups() == old(self).cached_bind_groups(),
            active_pipeline(final(self).render_pass()) == active_pipeline(old(self).render_pass()),
            bound_groups(final(self).render_pass()) == bound_groups(old(self).render_pass()),
            recorded_commands(final(self).render_pass()) == recorded_commands(
                old(self).render_pass(),
            ).push(RecordedCommand::SetVertexBuffer(slot, slice)),
    {
        pass_set_vertex_buffer(&mut self.pass, slot, slice);
        assert(self.cached_bind_groups() == old(self).cached_bind_groups());
    }

    /// Records a draw on the pass. The cache is unchanged.
    pub fn draw(&mut self, vertices: Range<u32>, instances: Range<u32>)
        requires
            old(self).cache_agrees_with_pass(),
            vertices.start <= vertices.end,
            instances.start <= instances.end,
        ensures
            final(self).cache_agrees_with_pass(),
            final(self).cached_pipeline() == old(self).cached_pipeline(),
            final(self).cached_bind_groups() == old(self).cached_bind_groups(),
            active_pipeline(final(self).render_pass()) == active_pipeline(old(self).render_pass()),
            bound_groups(final(self).render_pass()) == bound_groups(old(self).render_pass()),
            recorded_commands(final(self).render_pass()) == recorded_commands(
                old(self).render_pass(),
            ).push((RecordedCommand::Draw {
                    vertices: (vertices.start, vertices.end),
                    instances: (instances.start, instances.end),
                })),
    {
        pass_draw(&mut self.pass, vertices, instances);
        assert(self.cached_bind_groups() == old(self).cached_bind_groups());
    }

    /// Records an indexed draw on the pass. The cache is unchanged.
    pub fn draw_indexed(&mut self, indices: Range<u32>, base_vertex: i32, instances: Range<u32>)
        requires
            old(self).cache_agrees_with_pass(),
            indices.start <= indices.end,
            instances.start <= instances.end,
        ensures
            final(self).cache_agrees_with_pass(),
            final(self).cached_pipeline() == old(self).cached_pipeline(),
            final(self).cached_bind_groups() == old(self).cached_bind_groups(),
            active_pipeline(final(self).render_pass()) == active_pipeline(old(self).render_pass()),
            bound_groups(final(self).render_pass()) == bound_groups(old(self).render_pass()),
            recorded_commands(final(self).render_pass()) == recorded_commands(
                old(self).render_pass(),
            ).push((RecordedCommand::DrawIndexed {
                    indices: (indices.start, indices.end),
                    base_vertex,
                    instances: (instances.start, instances.end),
                })),
    {
        pass_draw_indexed(&mut self.pass, indices, base_vertex, instances);
        assert(self.cached_bind_groups() == old(self).cached_bind_groups());
    }

    /// Records an indirect draw on the pass. The cache is unchanged.
    pub fn draw_indirect(&mut self, indirect_buffer: &'a Buffer, indirect_offset: u64)
        requires
            old(self).cache_agrees_with_pass(),
        ensures
            final(self).cache_agrees_with_pass(),
            final(self).cached_pipeline() == old(self).cached_pipeline(),
            final(self).cached_bind_groups() == old(self).cached_bind_groups(),
            active_pipeline(final(self).render_pass()) == active_pipeline(old(self).render_pass()),
            bound_groups(final(self).render_pass()) == bound_groups(old(self).render_pass()),
            recorded_commands(final(self).render_pass()) == recorded_commands(
                old(self).render_pass(),
            ).push(RecordedCommand::DrawIndirect(*indirect_buffer, indirect_offset)),
    {
        pass_draw_indirect(&mut self.pass, indirect_buffer, indirect_offset);
        assert(self.cached_bind_groups() == old(self).cached_bind_groups());
    }

    /// Records an indirect indexed draw on the pass. The cache is unchanged.
    pub fn draw_indexed_indirect(&mut self, indirect_buffer: &'a Buffer, indirect_offset: u64)
        requires
            old(self).cache_agrees_with_pass(),
        ensures
            final(self).cache_agrees_with_pass(),
            final(self).cached_pipeline() == old(self).cached_pipeline(),
            final(self).cached_bind_groups() == old(self).cached_bind_groups(),
            active_pipeline(final(self).render_pass()) == active_pipeline(old(self).render_pass()),
            bound_groups(final(self).render_pass()) == bound_groups(old(self).render_pass()),
            recorded_commands(final(self).render_pass()) == recorded_commands(
                old(self).render_pass(),
            ).push(RecordedCommand::DrawIndexedIndirect(*indirect_buffer, indirect_offset)),
    {
        pass_draw_indexed_indirect(&mut self.pass, indirect_buffer, indirect_offset);
        assert(self.cached_bind_groups() == old(self).cached_bind_groups());
    }

    /// Sets push constants on the pass. The cache is unchanged.
    pub fn set_push_constants(&mut self, stages: ShaderStages, offset: u32, data: &[u8])
        requires
            old(self).cache_agrees_with_pass(),
            offset % 4 == 0,
            data@.len() % 4 == 0,
            data@.len() <= u32::MAX,
            push_constant_words(recorded_commands(old(self).render_pass())) <= u32::MAX,
        ensures
            final(self).cache_agrees_with_pass(),
            final(self).cached_pipeline() == old(self).cached_pipeline(),
            final(self).cached_bind_groups() == old(self).cached_bind_groups(),
            active_pipeline(final(self).render_pass()) == active_pipeline(old(self).render_pass()),
            bound_groups(final(self).render_pass()) == bound_groups(old(self).render_pass()),
            recorded_commands(final(self).render_pass()) == recorded_commands(
                old(self).render_pass(),
            ).push(RecordedCommand::SetPushConstants(stages, offset, data@)),
    {
        pass_set_push_constants(&mut self.pass, stages, offset, data);
        assert(self.cached_bind_groups() == old(self).cached_bind_groups());
    }

    /// Forgets the cached bind groups.
    fn reset_pipeline_desc(&mut self)
        ensures
            final(self).pass == old(self).pass,
            final(self).current_pipeline == old(self).current_pipeline,
            final(self).cached_bind_groups() == Map::<u32, (BindGroup, usize)>::empty(),
    {
        self.current_bind_groups.clear();
        assert(self.cached_bind_groups() =~= Map::<u32, (BindGroup, usize)>::empty());
    }
}

/// A pipeline that the cache holds as current is the active pipeline of the
/// pass, so leaving out a call that would set it again leaves the pass as
/// it would have been.
pub proof fn lemma_cached_pipeline_is_active(p: &StoryboardRenderPass)
    requires
        p.cache_agrees_with_pass(),
        p.cached_pipeline() is Some,
    ensures
        active_pipeline(p.render_pass()) == p.cached_pipeline(),
{
}

/// A bind group that the cache holds at an index is the bind group the
/// pass has bound there.
pub proof fn lemma_cached_bind_group_is_bound(p: &StoryboardRenderPass, index: u32)
    requires
        p.cache_agrees_with_pass(),
        p.cached_bind_groups().contains_key(index),
    ensures
        bound_groups(p.render_pass()).contains_key(index),
        bound_groups(p.render_pass())[index].0 == p.cached_bind_groups()[index].0,
{
}

/// Once a call has bound `bind_group` with offsets at `offsets_ptr` at
/// `index`, the same call with the same bind group object and offsets
/// address is left out.
pub proof fn lemma_repeated_bind_group_is_skipped(
    p: &StoryboardRenderPass,
    index: u32,
    bind_group: BindGroup,
    offsets_ptr: usize,
)
    requires
        p.cached_bind_groups().contains_key(index),
        p.cached_bind_groups()[index] == (bind_group, offsets_ptr),
    ensures
        p.skips_bind_group(index, offsets_ptr, true),
{
}

} // verus!
