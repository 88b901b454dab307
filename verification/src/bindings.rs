//! The binding layout that both shader programs are written against, and
//! the two bind groups that pair the generation buffers.

use vstd::prelude::*;

use crate::grid::Generation;

verus! {

/// Binding number of the dimensions uniform.
pub const UNIFORM_BINDING: u32 = 0;

/// Binding number of the generation that a pass reads.
pub const INPUT_BINDING: u32 = 1;

/// Binding number of the generation that the compute pass writes.
pub const OUTPUT_BINDING: u32 = 2;

/// The shader stages that can see a binding.
#[derive(Clone, Copy, Debug, PartialEq, Eq, Structural)]
pub struct Stages {
    pub vertex: bool,
    pub fragment: bool,
    pub compute: bool,
}

/// How a shader may use the buffer behind a binding.
#[derive(Clone, Copy, Debug, PartialEq, Eq, Structural)]
pub enum BindingKind {
    /// A uniform buffer.
    Uniform,
    /// A storage buffer that is only read.
    ReadOnlyStorage,
    /// A storage buffer that is read and written.
    ReadWriteStorage,
}

/// The role that a buffer is created for.
#[derive(Clone, Copy, Debug, PartialEq, Eq, Structural)]
pub enum BufferUsage {
    Vertex,
    Uniform,
    Storage,
}

/// One slot of the binding layout.
#[derive(Clone, Copy, Debug, PartialEq, Eq, Structural)]
pub struct LayoutEntry {
    pub binding: u32,
    pub visibility: Stages,
    pub kind: BindingKind,
}

/// One of the four buffers that are created at startup.
#[derive(Clone, Copy, Debug, PartialEq, Eq, Structural)]
pub enum Buffer {
    /// The vertex buffer that holds the quad.
    Quad,
    /// The uniform buffer that holds the grid's width and height.
    Dimensions,
    /// One of the two generation buffers.
    Cells(Generation),
}

/// One slot of a bind group: the buffer bound at a binding number.
#[derive(Clone, Copy, Debug, PartialEq, Eq, Structural)]
pub struct BindGroupEntry {
    pub binding: u32,
    pub buffer: Buffer,
}

/// The step parity: which of the two bind groups the next compute pass uses.
#[derive(Clone, Copy, Debug, PartialEq, Eq, Structural)]
pub enum Parity {
    Zero,
    One,
}

/// One of the two bind groups: the dimensions uniform, the generation that
/// is read and the generation that is written.
#[derive(Clone, Copy, Debug, PartialEq, Eq, Structural)]
pub struct BindGroup {
    pub input: Generation,
    pub output: Generation,
}

impl Stages {
    /// The stages that run in a compute pass.
    pub open spec fn of_compute_pass() -> Stages {
        Stages { vertex: false, fragment: false, compute: true }
    }

    /// The stages that run in a render pass.
    pub open spec fn of_render_pass() -> Stages {
        Stages { vertex: true, fragment: true, compute: false }
    }

    /// Whether one of these stages is also one of `other`.
    pub open spec fn overlaps(self, other: Stages) -> bool {
        ||| self.vertex && other.vertex
        ||| self.fragment && other.fragment
        ||| self.compute && other.compute
    }
}

impl BindingKind {
    /// The usage that a buffer needs to be bound with this kind.
    pub open spec fn spec_usage(self) -> BufferUsage {
        match self {
            BindingKind::Uniform => BufferUsage::Uniform,
            BindingKind::ReadOnlyStorage => BufferUsage::Storage,
            BindingKind::ReadWriteStorage => BufferUsage::Storage,
        }
    }

    /// The usage that a buffer needs to be bound with this kind.
    #[verifier::when_used_as_spec(spec_usage)]
    pub fn usage(self) -> (usage: BufferUsage)
        ensures
            usage == self.spec_usage(),
    {
        match self {
            BindingKind::Uniform => BufferUsage::Uniform,
            BindingKind::ReadOnlyStorage => BufferUsage::Storage,
            BindingKind::ReadWriteStorage => BufferUsage::Storage,
        }
    }
}

impl Buffer {
    /// The usage that the buffer is created with.
    pub open spec fn spec_usage(self) -> BufferUsage {
        match self {
            Buffer::Quad => BufferUsage::Vertex,
            Buffer::Dimensions => BufferUsage::Uniform,
            Buffer::Cells(_) => BufferUsage::Storage,
        }
    }

    /// The usage that the buffer is created with.
    #[verifier::when_used_as_spec(spec_usage)]
    pub fn usage(self) -> (usage: BufferUsage)
        ensures
            usage == self.spec_usage(),
    {
        match self {
            Buffer::Quad => BufferUsage::Vertex,
            Buffer::Dimensions => BufferUsage::Uniform,
            Buffer::Cells(_) => BufferUsage::Storage,
        }
    }
}

/// The binding layout: binding 0 is the uniform, seen by all three stages;
/// binding 1 the generation that is read, seen by the vertex and the compute
/// stage; binding 2 the generation that is written, seen by the compute stage
/// alone.
pub open spec fn cell_layout() -> Seq<LayoutEntry> {
    seq![
        LayoutEntry {
            binding: UNIFORM_BINDING,
            visibility: Stages { vertex: true, fragment: true, compute: true },
            kind: BindingKind::Uniform,
        },
        LayoutEntry {
            binding: INPUT_BINDING,
            visibility: Stages { vertex: true, fragment: false, compute: true },
            kind: BindingKind::ReadOnlyStorage,
        },
        LayoutEntry {
            binding: OUTPUT_BINDING,
            visibility: Stages { vertex: false, fragment: false, compute: true },
            kind: BindingKind::ReadWriteStorage,
        },
    ]
}

/// The binding layout that the bind groups and both pipelines share.
pub fn layout() -> (entries: Vec<LayoutEntry>)
    ensures
        entries@ == cell_layout(),
{
    let mut entries: Vec<LayoutEntry> = Vec::new();
    entries.push(
        LayoutEntry {
            binding: UNIFORM_BINDING,
            visibility: Stages { vertex: true, fragment: true, compute: true },
            kind: BindingKind::Uniform,
        },
    );
    entries.push(
        LayoutEntry {
            binding: INPUT_BINDING,
            visibility: Stages { vertex: true, fragment: false, compute: true },
            kind: BindingKind::ReadOnlyStorage,
        },
    );
    entries.push(
        LayoutEntry {
            binding: OUTPUT_BINDING,
            visibility: Stages { vertex: false, fragment: false, compute: true },
            kind: BindingKind::ReadWriteStorage,
        },
    );
    assert(entries@ =~= cell_layout());
    entries
}

impl Parity {
    /// The parity as a number, 0 or 1.
    pub open spec fn bit(self) -> int {
        match self {
            Parity::Zero => 0,
            Parity::One => 1,
        }
    }

    /// The other parity.
    pub open spec fn spec_toggled(self) -> Parity {
        match self {
            Parity::Zero => Parity::One,
            Parity::One => Parity::Zero,
        }
    }

    /// The generation that a pass with this parity reads: the one whose slot
    /// is the parity.
    pub open spec fn spec_input(self) -> Generation {
        match self {
            Parity::Zero => Generation::A,
            Parity::One => Generation::B,
        }
    }

    /// The generation that a compute pass with this parity writes.
    pub open spec fn spec_output(self) -> Generation {
        self.spec_input().spec_other()
    }

    /// The parity as an index into the pair of bind groups.
    pub fn index(self) -> (i: usize)
        ensures
            i == self.bit(),
    {
        match self {
            Parity::Zero => 0,
            Parity::One => 1,
        }
    }

    /// The other parity.
    #[verifier::when_used_as_spec(spec_toggled)]
    pub fn toggled(self) -> (next: Parity)
        ensures
            next == self.spec_toggled(),
            next.bit() == 1 - self.bit(),
    {
        match self {
            Parity::Zero => Parity::One,
            Parity::One => Parity::Zero,
        }
    }

    /// The generation that a pass with this parity reads.
    #[verifier::when_used_as_spec(spec_input)]
    pub fn input(self) -> (generation: Generation)
        ensures
            generation == self.spec_input(),
            generation.slot() == self.bit(),
    {
        match self {
            Parity::Zero => Generation::A,
            Parity::One => Generation::B,
        }
    }

    /// The generation that a compute pass with this parity writes.
    #[verifier::when_used_as_spec(spec_output)]
    pub fn output(self) -> (generation: Generation)
        ensures
            generation == self.spec_output(),
            generation.slot() == 1 - self.bit(),
    {
        self.input().other()
    }
}

impl BindGroup {
    /// The bind group that parity `parity` selects.
    pub open spec fn spec_of(parity: Parity) -> BindGroup {
        BindGroup { input: parity.spec_input(), output: parity.spec_output() }
    }

    /// Whether a pass that runs `stages` with this bind group can write
    /// `generation`: some slot binds the generation where the layout has a
    /// binding that can be written and that one of the stages sees.
    pub open spec fn can_write(self, stages: Stages, generation: Generation) -> bool {
        exists|i: int|
            0 <= i < cell_layout().len() && (#[trigger] self.spec_entries()[i]).buffer
                == Buffer::Cells(generation) && cell_layout()[i].kind
                == BindingKind::ReadWriteStorage && cell_layout()[i].visibility.overlaps(stages)
    }

    /// The slots of the bind group, in the order of the layout.
    pub open spec fn spec_entries(self) -> Seq<BindGroupEntry> {
        seq![
            BindGroupEntry { binding: UNIFORM_BINDING, buffer: Buffer::Dimensions },
            BindGroupEntry { binding: INPUT_BINDING, buffer: Buffer::Cells(self.input) },
            BindGroupEntry { binding: OUTPUT_BINDING, buffer: Buffer::Cells(self.output) },
        ]
    }

    /// The bind group that parity `parity` selects: it reads the generation
    /// in slot `parity` and writes the other one.
    #[verifier::when_used_as_spec(spec_of)]
    pub fn of(parity: Parity) -> (group: BindGroup)
        ensures
            group == BindGroup::spec_of(parity),
            group.input.slot() == parity.bit(),
            group.output.slot() == 1 - parity.bit(),
    {
        BindGroup { input: parity.input(), output: parity.output() }
    }

    /// Both bind groups, the one for parity 0 first.
    pub fn pair() -> (groups: Vec<BindGroup>)
        ensures
            groups@ == seq![BindGroup::spec_of(Parity::Zero), BindGroup::spec_of(Parity::One)],
    {
        let mut groups: Vec<BindGroup> = Vec::new();
        groups.push(BindGroup::of(Parity::Zero));
        groups.push(BindGroup::of(Parity::One));
        assert(groups@ =~= seq![
            BindGroup::spec_of(Parity::Zero),
            BindGroup::spec_of(Parity::One),
        ]);
        groups
    }

    /// The slots of the bind group, in the order of the layout.
    pub fn entries(&self) -> (entries: Vec<BindGroupEntry>)
        ensures
            entries@ == self.spec_entries(),
    {
        let mut entries: Vec<BindGroupEntry> = Vec::new();
        entries.push(BindGroupEntry { binding: UNIFORM_BINDING, buffer: Buffer::Dimensions });
        entries.push(
            BindGroupEntry { binding: INPUT_BINDING, buffer: Buffer::Cells(self.input) },
        );
        entries.push(
            BindGroupEntry { binding: OUTPUT_BINDING, buffer: Buffer::Cells(self.output) },
        );
        assert(entries@ =~= self.spec_entries());
        entries
    }
}

/// A bind group never binds one generation as both input and output: in a
/// frame one generation is written and the other is only read.
pub proof fn group_reads_and_writes_different_buffers(parity: Parity)
    ensures
        BindGroup::spec_of(parity).input != BindGroup::spec_of(parity).output,
        BindGroup::spec_of(parity).input.slot() == parity.bit(),
        BindGroup::spec_of(parity).output.slot() == 1 - parity.bit(),
{
}

/// The bind group that the toggled parity selects reads the generation that
/// the bind group of the parity before the toggle writes, and writes the one
/// that it reads: the two groups swap the roles of the two buffers.
pub proof fn toggled_group_swaps_roles(parity: Parity)
    ensures
        BindGroup::spec_of(parity.spec_toggled()).input == BindGroup::spec_of(parity).output,
        BindGroup::spec_of(parity.spec_toggled()).output == BindGroup::spec_of(parity).input,
        parity.spec_toggled().spec_toggled() == parity,
        parity.spec_toggled().bit() == 1 - parity.bit(),
{
}

/// Every slot of a bind group fits the layout slot of its position: the
/// binding numbers agree, and the buffer was created with the usage that the
/// layout's kind of binding needs. Only the compute stage sees the binding
/// that is written.
pub proof fn groups_fit_layout(group: BindGroup)
    ensures
        group.spec_entries().len() == cell_layout().len(),
        forall|i: int|
            0 <= i < cell_layout().len() ==> {
                &&& (#[trigger] group.spec_entries()[i]).binding == cell_layout()[i].binding
                &&& group.spec_entries()[i].buffer.spec_usage()
                    == cell_layout()[i].kind.spec_usage()
            },
        forall|i: int|
            0 <= i < cell_layout().len() && (#[trigger] cell_layout()[i]).kind
                == BindingKind::ReadWriteStorage ==> cell_layout()[i].visibility == (Stages {
                vertex: false,
                fragment: false,
                compute: true,
            }),
{
}

} // verus!
