//! Everything that is created once at startup, as descriptions that the
//! driver hands to the device: the buffers with their contents, the binding
//! layout, the two bind groups and the two pipelines.

use vstd::prelude::*;

use crate::bindings::{cell_layout, layout, BindGroup, LayoutEntry, Parity};
use crate::geometry::{packed_pairs, quad, vertex_layout, VertexLayout, QUAD};
use crate::grid::{seed, Generation, Grid};
use crate::memory::native;
use crate::state::State;
use crate::surface::PixelFormat;

verus! {

/// An entry point of one of the two shader programs.
#[derive(Clone, Copy, Debug, PartialEq, Eq, Structural)]
pub enum EntryPoint {
    /// The vertex stage of the cell shader.
    Vertex,
    /// The fragment stage of the cell shader.
    Fragment,
    /// The compute stage of the simulation shader.
    Compute,
}

/// The render pipeline: the cell shader's two stages, the layout of the
/// quad's vertex buffer, and the format of the one colour target.
#[derive(Clone, Copy, Debug, PartialEq, Eq, Structural)]
pub struct RenderPipeline {
    pub vertex: EntryPoint,
    pub fragment: EntryPoint,
    pub buffer: VertexLayout,
    pub target: PixelFormat,
}

/// The compute pipeline: the simulation shader's one stage.
#[derive(Clone, Copy, Debug, PartialEq, Eq, Structural)]
pub struct ComputePipeline {
    pub entry: EntryPoint,
}

/// What is created once at startup and never resized or replaced.
#[derive(Debug)]
pub struct Setup {
    /// Contents of the vertex buffer: the quad's coordinates, in units of
    /// `1 / SCALE`.
    pub quad: Vec<i8>,
    /// Contents of the uniform buffer: the grid's width and height.
    pub dimensions: (u32, u32),
    /// Contents of generation buffer A, in bytes.
    pub generation_a: Vec<u8>,
    /// Contents of generation buffer B, in bytes.
    pub generation_b: Vec<u8>,
    /// The binding layout that the bind groups and both pipelines share.
    pub layout: Vec<LayoutEntry>,
    /// The two bind groups, the one for parity 0 first.
    pub bind_groups: Vec<BindGroup>,
    /// The render pipeline.
    pub render: RenderPipeline,
    /// The compute pipeline.
    pub compute: ComputePipeline,
}

impl EntryPoint {
    /// The name of the entry point in its shader program.
    pub open spec fn spec_name(self) -> Seq<char> {
        match self {
            EntryPoint::Vertex => "vertex_main"@,
            EntryPoint::Fragment => "fragment_main"@,
            EntryPoint::Compute => "compute_main"@,
        }
    }

    /// The name of the entry point in its shader program.
    pub fn name(self) -> (name: &'static str)
        ensures
            name@ == self.spec_name(),
    {
        match self {
            EntryPoint::Vertex => "vertex_main",
            EntryPoint::Fragment => "fragment_main",
            EntryPoint::Compute => "compute_main",
        }
    }
}

impl Setup {
    /// What to create for `state`: the contents of the four buffers, the
    /// layout, the bind groups and the pipelines. The render pipeline's
    /// target has the format of the surface configuration.
    pub fn plan(state: &State) -> (setup: Setup)
        ensures
            setup.quad@ == QUAD@,
            setup.dimensions.0 == state@.grid,
            setup.dimensions.1 == state@.grid,
            native(seed(state@.grid, Generation::A), setup.generation_a@),
            native(seed(state@.grid, Generation::B), setup.generation_b@),
            setup.layout@ == cell_layout(),
            setup.bind_groups@ == seq![
                BindGroup::spec_of(Parity::Zero),
                BindGroup::spec_of(Parity::One),
            ],
            setup.render == (RenderPipeline {
                vertex: EntryPoint::Vertex,
                fragment: EntryPoint::Fragment,
                buffer: packed_pairs(),
                target: state@.config.format,
            }),
            setup.compute == (ComputePipeline { entry: EntryPoint::Compute }),
    {
        let grid: Grid = state.grid();
        Setup {
            quad: quad(),
            dimensions: grid.dimensions(),
            generation_a: grid.seed_bytes(Generation::A),
            generation_b: grid.seed_bytes(Generation::B),
            layout: layout(),
            bind_groups: BindGroup::pair(),
            render: RenderPipeline {
                vertex: EntryPoint::Vertex,
                fragment: EntryPoint::Fragment,
                buffer: vertex_layout(),
                target: state.config().format,
            },
            compute: ComputePipeline { entry: EntryPoint::Compute },
        }
    }
}

} // verus!
