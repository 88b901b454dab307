//! The commands of one frame: a compute pass that steps the simulation and
//! a render pass that draws the generation it wrote.

use vstd::prelude::*;

use crate::bindings::{BindGroup, Buffer, Parity, Stages};
use crate::grid::Generation;
use crate::geometry::{vertex_count, VERTEX_SLOT};
use crate::grid::{cell_count, drawable, workgroup_count, Grid, WORKGROUP};

verus! {

/// A colour with 8 bits a channel; 255 is full intensity.
#[derive(Clone, Copy, Debug, PartialEq, Eq, Structural)]
pub struct Color {
    pub red: u8,
    pub green: u8,
    pub blue: u8,
    pub alpha: u8,
}

/// Workgroup counts of a dispatch along the three axes.
#[derive(Clone, Copy, Debug, PartialEq, Eq, Structural)]
pub struct Workgroups {
    pub x: u32,
    pub y: u32,
    pub z: u32,
}

/// The compute pass of a frame.
#[derive(Clone, Copy, Debug, PartialEq, Eq, Structural)]
pub struct ComputePass {
    /// The bind group at group 0, by the parity that selects it.
    pub bind_group: Parity,
    /// The workgroups to dispatch.
    pub workgroups: Workgroups,
}

/// The render pass of a frame.
#[derive(Clone, Copy, Debug, PartialEq, Eq, Structural)]
pub struct RenderPass {
    /// The colour that the surface image is cleared to.
    pub clear: Color,
    /// The slot at which the quad's vertex buffer is bound.
    pub vertex_slot: u32,
    /// The bind group at group 0, by the parity that selects it.
    pub bind_group: Parity,
    /// The draw call covers the vertices `0..vertices`.
    pub vertices: u32,
    /// The draw call covers the instances `0..instances`.
    pub instances: u32,
}

/// The commands of one frame, submitted as one unit: the compute pass, then
/// the render pass.
#[derive(Clone, Copy, Debug, PartialEq, Eq, Structural)]
pub struct FramePlan {
    pub compute: ComputePass,
    pub render: RenderPass,
}

/// Opaque black.
pub open spec fn opaque_black() -> Color {
    Color { red: 0, green: 0, blue: 0, alpha: 255 }
}

/// The frame of a grid of dimension `n` at step parity `parity`. The compute
/// pass uses the bind group of `parity` and dispatches `n / 8` rounded up
/// workgroups along x and y and none along z. The render pass clears to
/// opaque black, uses the bind group of the toggled parity, and draws the six
/// vertices of the quad once for each cell.
pub open spec fn frame(n: nat, parity: Parity) -> FramePlan {
    FramePlan {
        compute: ComputePass {
            bind_group: parity,
            workgroups: Workgroups {
                x: workgroup_count(n) as u32,
                y: workgroup_count(n) as u32,
                z: 0,
            },
        },
        render: RenderPass {
            clear: opaque_black(),
            vertex_slot: 0,
            bind_group: parity.spec_toggled(),
            vertices: 6,
            instances: cell_count(n) as u32,
        },
    }
}

/// The frame of `grid` at step parity `parity`.
pub fn plan(grid: &Grid, parity: Parity) -> (plan: FramePlan)
    ensures
        plan == frame(grid@, parity),
        plan.compute.workgroups.x == workgroup_count(grid@),
        plan.compute.workgroups.y == workgroup_count(grid@),
        plan.render.instances == cell_count(grid@),
{
    let count: u32 = grid.workgroups();
    FramePlan {
        compute: ComputePass {
            bind_group: parity,
            workgroups: Workgroups { x: count, y: count, z: 0 },
        },
        render: RenderPass {
            clear: Color { red: 0, green: 0, blue: 0, alpha: 255 },
            vertex_slot: VERTEX_SLOT,
            bind_group: parity.toggled(),
            vertices: vertex_count(),
            instances: grid.cells(),
        },
    }
}

/// In every frame the render pass uses the bind group of the parity after
/// the toggle, and the generation that this group reads is the generation
/// that the frame's compute pass wrote.
pub proof fn render_reads_what_compute_wrote(n: nat, parity: Parity)
    ensures
        frame(n, parity).compute.bind_group == parity,
        frame(n, parity).render.bind_group == parity.spec_toggled(),
        BindGroup::spec_of(frame(n, parity).render.bind_group) == (BindGroup {
            input: parity.spec_toggled().spec_input(),
            output: parity.spec_toggled().spec_output(),
        }),
        BindGroup::spec_of(frame(n, parity).render.bind_group).input == BindGroup::spec_of(
            frame(n, parity).compute.bind_group,
        ).output,
        BindGroup::spec_of(frame(n, parity).render.bind_group).input.slot() == 1 - parity.bit(),
{
}

/// In every frame exactly one generation is written: the compute pass can
/// write the output of its bind group and nothing else, and the render pass
/// can write neither generation. The other generation is only read.
pub proof fn frame_writes_one_generation(n: nat, parity: Parity, generation: Generation)
    ensures
        BindGroup::spec_of(frame(n, parity).compute.bind_group).can_write(
            Stages::of_compute_pass(),
            generation,
        ) <==> generation == parity.spec_output(),
        !BindGroup::spec_of(frame(n, parity).render.bind_group).can_write(
            Stages::of_render_pass(),
            generation,
        ),
        parity.spec_output().slot() == 1 - parity.bit(),
{
    let group = BindGroup::spec_of(parity);
    if generation == parity.spec_output() {
        assert(group.spec_entries()[2].buffer == Buffer::Cells(generation));
    }
}

/// The workgroup count along an axis is the least whose workgroups cover the
/// `n` cells of the axis, eight cells a workgroup: its workgroups cover them,
/// and any `count` whose workgroups cover them is at least as large.
pub proof fn dispatch_covers_grid(n: nat, count: nat)
    ensures
        workgroup_count(n) * WORKGROUP >= n,
        workgroup_count(n) * WORKGROUP < n + WORKGROUP,
        count * WORKGROUP >= n ==> count >= workgroup_count(n),
{
}

/// The counts of the frame of a grid that can be drawn are those of
/// `workgroup_count` and `cell_count`: none is cut to fit its field.
pub proof fn frame_counts_fit(n: nat, parity: Parity)
    requires
        drawable(n),
    ensures
        frame(n, parity).compute.workgroups.x == workgroup_count(n),
        frame(n, parity).compute.workgroups.y == workgroup_count(n),
        frame(n, parity).compute.workgroups.z == 0,
        frame(n, parity).render.vertices == 6,
        frame(n, parity).render.instances == n * n,
{
    assert(n <= n * n) by (nonlinear_arith);
}

} // verus!
