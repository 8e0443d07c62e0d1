//! The parts of `wgpu`, `rustc_hash` and `std` that the render pass cache
//! works with, and what this crate relies on about them.
//!
//! A `wgpu::RenderPass` records render commands. The cache in
//! `crate::pass` only needs two facts about the state those commands set
//! up: which render pipeline is active, and which bind group is bound at
//! each bind group index. They are named by [`active_pipeline`] and
//! [`bound_groups`]; the other recorded commands are named by
//! [`recorded_commands`]. The wrappers below say how each recording call
//! changes them.

use std::hash::BuildHasherDefault;
use std::ops::Range;

use rustc_hash::{FxHashMap, FxHasher};
use vstd::prelude::*;

verus! {

#[verifier::external_type_specification]
#[verifier::external_body]
pub struct ExRenderPass<'a>(wgpu::RenderPass<'a>);

#[verifier::external_type_specification]
#[verifier::external_body]
pub struct ExRenderPipeline(wgpu::RenderPipeline);

#[verifier::external_type_specification]
#[verifier::external_body]
pub struct ExBindGroup(wgpu::BindGroup);

#[verifier::external_type_specification]
#[verifier::external_body]
pub struct ExBuffer(wgpu::Buffer);

#[verifier::external_type_specification]
#[verifier::external_body]
pub struct ExBufferSlice<'a>(wgpu::BufferSlice<'a>);

#[verifier::external_type_specification]
#[verifier::external_body]
pub struct ExIndexFormat(wgpu::IndexFormat);

#[verifier::external_type_specification]
#[verifier::external_body]
pub struct ExShaderStages(wgpu::ShaderStages);

#[verifier::external_type_specification]
#[verifier::external_body]
pub struct ExFxHasher(FxHasher);

#[verifier::external_type_specification]
#[verifier::external_body]
#[verifier::reject_recursive_types(H)]
pub struct ExBuildHasherDefault<H>(BuildHasherDefault<H>);

/// The render pipeline that subsequent draw calls recorded in `pass` use:
/// the one given to its last `set_pipeline` call, `None` before the first.
pub uninterp spec fn active_pipeline(pass: wgpu::RenderPass) -> Option<wgpu::RenderPipeline>;

/// The bind group, with its dynamic offsets, that subsequent draw calls
/// recorded in `pass` see at each bind group index: the ones given to the
/// last `set_bind_group` call for that index.
pub uninterp spec fn bound_groups(pass: wgpu::RenderPass) -> Map<u32, (wgpu::BindGroup, Seq<u32>)>;

/// A command recorded in a render pass, other than setting the pipeline or
/// a bind group: its arguments as the recording call received them (a range
/// as its start and end).
pub enum RecordedCommand<'a> {
    SetIndexBuffer(wgpu::BufferSlice<'a>, wgpu::IndexFormat),
    SetVertexBuffer(u32, wgpu::BufferSlice<'a>),
    Draw { vertices: (u32, u32), instances: (u32, u32) },
    DrawIndexed { indices: (u32, u32), base_vertex: i32, instances: (u32, u32) },
    DrawIndirect(wgpu::Buffer, u64),
    DrawIndexedIndirect(wgpu::Buffer, u64),
    SetPushConstants(wgpu::ShaderStages, u32, Seq<u8>),
}

/// The commands recorded in `pass` by the calls that set buffers, push
/// constants or draw, in the order of the calls ("a list of render
/// commands", as wgpu describes a render pass).
pub uninterp spec fn recorded_commands(pass: wgpu::RenderPass) -> Seq<RecordedCommand>;

/// The number of 4-byte words of push constant data that `commands` hold.
pub open spec fn push_constant_words(commands: Seq<RecordedCommand>) -> nat
    decreases commands.len(),
{
    if commands.len() == 0 {
        0
    } else {
        push_constant_words(commands.drop_last()) + match commands.last() {
            RecordedCommand::SetPushConstants(_, _, data) => data.len() / 4,
            _ => 0,
        }
    }
}

/// `wgpu::RenderPass::set_pipeline`: "Sets the active render pipeline."
/// Claimed: afterwards `pipeline` is the active pipeline, and no command of
/// [`recorded_commands`] is added. Nothing is claimed of the bind groups.
#[verifier::external_body]
pub(crate) fn pass_set_pipeline<'a>(pass: &mut wgpu::RenderPass<'a>, pipeline: &'a wgpu::RenderPipeline)
    ensures
        active_pipeline(*final(pass)) == Some(*pipeline),
        recorded_commands(*final(pass)) == recorded_commands(*old(pass)),
{
    pass.set_pipeline(pipeline)
}

/// `wgpu::RenderPass::set_bind_group`: "Sets the active bind group for a
/// given bind group index." Claimed: afterwards `bind_group` with `offsets`
/// is bound at `index`; the other indices, the active pipeline and
/// [`recorded_commands`] are as before. wgpu-core records the index and the
/// number of offsets as `u8` and panics on larger values, which `requires`
/// leaves out.
#[verifier::external_body]
pub(crate) fn pass_set_bind_group<'a>(
    pass: &mut wgpu::RenderPass<'a>,
    index: u32,
    bind_group: &'a wgpu::BindGroup,
    offsets: &[u32],
)
    requires
        index <= 255,
        offsets@.len() <= 255,
    ensures
        bound_groups(*final(pass)) == bound_groups(*old(pass)).insert(index, (*bind_group, offsets@)),
        active_pipeline(*final(pass)) == active_pipeline(*old(pass)),
        recorded_commands(*final(pass)) == recorded_commands(*old(pass)),
{
    pass.set_bind_group(index, bind_group, offsets)
}

/// `wgpu::RenderPass::set_index_buffer`. Claimed: the command is appended
/// to [`recorded_commands`]; the active pipeline and the bound bind groups
/// are unchanged.
#[verifier::external_body]
pub(crate) fn pass_set_index_buffer<'a>(
    pass: &mut wgpu::RenderPass<'a>,
    slice: wgpu::BufferSlice<'a>,
    index_format: wgpu::IndexFormat,
)
    ensures
        active_pipeline(*final(pass)) == active_pipeline(*old(pass)),
        bound_groups(*final(pass)) == bound_groups(*old(pass)),
        recorded_commands(*final(pass)) == recorded_commands(*old(pass)).push(
            RecordedCommand::SetIndexBuffer(slice, index_format),
        ),
{
    pass.set_index_buffer(slice, index_format)
}

/// `wgpu::RenderPass::set_vertex_buffer`. Claimed: the command is appended
/// to [`recorded_commands`]; the active pipeline and the bound bind groups
/// are unchanged.
#[verifier::external_body]
pub(crate) fn pass_set_vertex_buffer<'a>(
    pass: &mut wgpu::RenderPass<'a>,
    slot: u32,
    slice: wgpu::BufferSlice<'a>,
)
    ensures
        active_pipeline(*final(pass)) == active_pipeline(*old(pass)),
        bound_groups(*final(pass)) == bound_groups(*old(pass)),
        recorded_commands(*final(pass)) == recorded_commands(*old(pass)).push(
            RecordedCommand::SetVertexBuffer(slot, slice),
        ),
{
    pass.set_vertex_buffer(slot, slice)
}

/// `wgpu::RenderPass::draw`. wgpu computes `end - start` of both ranges,
/// which overflows on a reversed range: `requires` leaves those out.
/// Claimed: the command is appended to [`recorded_commands`]; the active
/// pipeline and the bound bind groups are unchanged.
#[verifier::external_body]
pub(crate) fn pass_draw(pass: &mut wgpu::RenderPass, vertices: Range<u32>, instances: Range<u32>)
    requires
        vertices.start <= vertices.end,
        instances.start <= instances.end,
    ensures
        active_pipeline(*final(pass)) == active_pipeline(*old(pass)),
        bound_groups(*final(pass)) == bound_groups(*old(pass)),
        recorded_commands(*final(pass)) == recorded_commands(*old(pass)).push(
            (RecordedCommand::Draw {
                vertices: (vertices.start, vertices.end),
                instances: (instances.start, instances.end),
            }),
        ),
{
    pass.draw(vertices, instances)
}

/// `wgpu::RenderPass::draw_indexed`, with the same range condition as
/// [`pass_draw`]. Claimed: the command is appended to
/// [`recorded_commands`]; the active pipeline and the bound bind groups are
/// unchanged.
#[verifier::external_body]
pub(crate) fn pass_draw_indexed(
    pass: &mut wgpu::RenderPass,
    indices: Range<u32>,
    base_vertex: i32,
    instances: Range<u32>,
)
    requires
        indices.start <= indices.end,
        instances.start <= instances.end,
    ensures
        active_pipeline(*final(pass)) == active_pipeline(*old(pass)),
        bound_groups(*final(pass)) == bound_groups(*old(pass)),
        recorded_commands(*final(pass)) == recorded_commands(*old(pass)).push(
            (RecordedCommand::DrawIndexed {
                indices: (indices.start, indices.end),
                base_vertex,
                instances: (instances.start, instances.end),
            }),
        ),
{
    pass.draw_indexed(indices, base_vertex, instances)
}

/// `wgpu::RenderPass::draw_indirect`. Claimed: the command is appended to
/// [`recorded_commands`]; the active pipeline and the bound bind groups are
/// unchanged.
#[verifier::external_body]
pub(crate) fn pass_draw_indirect<'a>(
    pass: &mut wgpu::RenderPass<'a>,
    indirect_buffer: &'a wgpu::Buffer,
    indirect_offset: u64,
)
    ensures
        active_pipeline(*final(pass)) == active_pipeline(*old(pass)),
        bound_groups(*final(pass)) == bound_groups(*old(pass)),
        recorded_commands(*final(pass)) == recorded_commands(*old(pass)).push(
            RecordedCommand::DrawIndirect(*indirect_buffer, indirect_offset),
        ),
{
    pass.draw_indirect(indirect_buffer, indirect_offset)
}

/// `wgpu::RenderPass::draw_indexed_indirect`. Claimed: the command is
/// appended to [`recorded_commands`]; the active pipeline and the bound
/// bind groups are unchanged.
#[verifier::external_body]
pub(crate) fn pass_draw_indexed_indirect<'a>(
    pass: &mut wgpu::RenderPass<'a>,
    indirect_buffer: &'a wgpu::Buffer,
    indirect_offset: u64,
)
    ensures
        active_pipeline(*final(pass)) == active_pipeline(*old(pass)),
        bound_groups(*final(pass)) == bound_groups(*old(pass)),
        recorded_commands(*final(pass)) == recorded_commands(*old(pass)).push(
            RecordedCommand::DrawIndexedIndirect(*indirect_buffer, indirect_offset),
        ),
{
    pass.draw_indexed_indirect(indirect_buffer, indirect_offset)
}

/// `wgpu::RenderPass::set_push_constants`. wgpu-core asserts that the
/// offset and the data length are multiples of 4 and converts the length
/// to `u32`, and it converts the number of push constant words the pass
/// already holds to `u32`; `requires` leaves the other inputs out. Claimed:
/// the command is
/// appended to [`recorded_commands`]; the active pipeline and the bound
/// bind groups are unchanged.
#[verifier::external_body]
pub(crate) fn pass_set_push_constants(
    pass: &mut wgpu::RenderPass,
    stages: wgpu::ShaderStages,
    offset: u32,
    data: &[u8],
)
    requires
        offset % 4 == 0,
        data@.len() % 4 == 0,
        data@.len() <= u32::MAX,
        push_constant_words(recorded_commands(*old(pass))) <= u32::MAX,
    ensures
        active_pipeline(*final(pass)) == active_pipeline(*old(pass)),
        bound_groups(*final(pass)) == bound_groups(*old(pass)),
        recorded_commands(*final(pass)) == recorded_commands(*old(pass)).push(
            RecordedCommand::SetPushConstants(stages, offset, data@),
        ),
{
    pass.set_push_constants(stages, offset, data)
}

/// `std::ptr::eq` on two pipelines: whether they are the same object.
/// A `wgpu::RenderPipeline` is not zero-sized and not `Clone`, and holds a
/// wgpu-core id that no other live pipeline holds, so two pipelines are the
/// same object exactly when they are the same value. Claimed: the result is
/// whether they are equal.
#[verifier::external_body]
pub(crate) fn same_pipeline(a: &wgpu::RenderPipeline, b: &wgpu::RenderPipeline) -> (same: bool)
    ensures
        same == (*a == *b),
{
    std::ptr::eq(a, b)
}

/// `std::ptr::eq` on two bind groups: whether they are the same object.
/// A `wgpu::BindGroup` is not zero-sized and not `Clone`, and holds a
/// wgpu-core id that no other live bind group holds, so two bind groups are
/// the same object exactly when they are the same value. Claimed: the
/// result is whether they are equal.
#[verifier::external_body]
pub(crate) fn same_bind_group(a: &wgpu::BindGroup, b: &wgpu::BindGroup) -> (same: bool)
    ensures
        same == (*a == *b),
{
    std::ptr::eq(a, b)
}

/// The address of the first element of `offsets` (`<[u32]>::as_ptr`, as an
/// integer). An address depends on the machine and the run: nothing is
/// claimed of it.
#[verifier::external_body]
pub(crate) fn offsets_address(offsets: &[u32]) -> usize {
    offsets.as_ptr() as usize
}

/// `HashMap::with_capacity_and_hasher` with the `FxHasher` of
/// `rustc_hash`. Claimed: the new map is empty.
#[verifier::external_body]
pub(crate) fn fx_map_with_capacity<V>(capacity: usize) -> (created: FxHashMap<u32, V>)
    ensures
        created@.dom() == Set::<u32>::empty(),
{
    FxHashMap::with_capacity_and_hasher(capacity, BuildHasherDefault::default())
}

/// `HashMap::get` on a map hashed by `FxHasher`. `FxHasher` hashes a `u32`
/// deterministically, so the map behaves as a map: claimed, the result is
/// the value stored under `key`, if any.
#[verifier::external_body]
pub(crate) fn fx_map_get<'m, V>(map: &'m FxHashMap<u32, V>, key: &u32) -> (found: Option<&'m V>)
    ensures
        found is Some <==> map@.contains_key(*key),
        found matches Some(v) ==> map@[*key] == *v,
{
    map.get(key)
}

/// `HashMap::insert` on a map hashed by `FxHasher`. Claimed: afterwards
/// `key` maps to `value` and every other key is unchanged.
#[verifier::external_body]
pub(crate) fn fx_map_insert<V>(map: &mut FxHashMap<u32, V>, key: u32, value: V)
    ensures
        final(map)@ == old(map)@.insert(key, value),
{
    map.insert(key, value);
}

} // verus!
