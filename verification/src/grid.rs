//! The cell grid: its dimension, the counts derived from it, and the two
//! seeded generations.

use vstd::prelude::*;

use crate::memory::{native, words_to_bytes};

verus! {

/// Edge of one compute workgroup, in cells. The simulation shader is compiled
/// for workgroups of `WORKGROUP` x `WORKGROUP` invocations.
pub const WORKGROUP: u32 = 8;

/// Dimension of the grid that the program runs.
pub const GRID_SIZE: u32 = 32;

/// One of the two generation buffers.
#[derive(Clone, Copy, Debug, PartialEq, Eq, Structural)]
pub enum Generation {
    A,
    B,
}

impl Generation {
    /// Position of the buffer in the two-slot arena: 0 for `A`, 1 for `B`.
    pub open spec fn slot(self) -> int {
        match self {
            Generation::A => 0,
            Generation::B => 1,
        }
    }

    /// The other buffer of the arena.
    pub open spec fn spec_other(self) -> Generation {
        match self {
            Generation::A => Generation::B,
            Generation::B => Generation::A,
        }
    }

    /// Distance between two live cells of the seed: every cell of `A` is
    /// live, every second cell of `B`.
    pub open spec fn stride(self) -> int {
        match self {
            Generation::A => 1,
            Generation::B => 2,
        }
    }

    /// Position of the buffer in the two-slot arena.
    pub fn index(self) -> (i: usize)
        ensures
            i == self.slot(),
    {
        match self {
            Generation::A => 0,
            Generation::B => 1,
        }
    }

    /// The other buffer of the arena.
    #[verifier::when_used_as_spec(spec_other)]
    pub fn other(self) -> (o: Generation)
        ensures
            o == self.spec_other(),
    {
        match self {
            Generation::A => Generation::B,
            Generation::B => Generation::A,
        }
    }
}

/// Whether a grid of dimension `n` can be drawn: its cells are the instances
/// of one draw call, whose count is a `u32`.
pub open spec fn drawable(n: nat) -> bool {
    n * n <= u32::MAX
}

/// Number of cells of a grid of dimension `n`.
pub open spec fn cell_count(n: nat) -> nat {
    n * n
}

/// Number of workgroups along one axis for a grid of dimension `n`: `n / 8`
/// rounded up.
pub open spec fn workgroup_count(n: nat) -> nat {
    if n % (WORKGROUP as nat) == 0 {
        n / (WORKGROUP as nat)
    } else {
        n / (WORKGROUP as nat) + 1
    }
}

/// Activation of cell `i` in the seed of `generation`: 1 (live) where the
/// linear index is a multiple of the generation's stride, else 0 (dead).
pub open spec fn seed_cell(generation: Generation, i: int) -> u32 {
    if i % generation.stride() == 0 {
        1
    } else {
        0
    }
}

/// The seed of `generation` for a grid of dimension `n`.
pub open spec fn seed(n: nat, generation: Generation) -> Seq<u32> {
    Seq::new(cell_count(n), |i: int| seed_cell(generation, i))
}

/// Each seed holds one activation for each of the N * N cells. In the seed
/// of generation A every cell is live. In the seed of generation B the cells
/// with an even linear index are live and the others are dead.
pub proof fn seeds_are_as_described(n: nat, i: int)
    requires
        0 <= i < cell_count(n),
    ensures
        seed(n, Generation::A).len() == n * n,
        seed(n, Generation::B).len() == n * n,
        seed(n, Generation::A)[i] == 1,
        seed(n, Generation::B)[i] == 1 <==> i % 2 == 0,
        seed(n, Generation::B)[i] == 0 <==> i % 2 != 0,
{
}

/// A square grid of cells. Its dimension is fixed when it is made.
#[derive(Clone, Copy, Debug)]
pub struct Grid {
    size: u32,
}

impl View for Grid {
    type V = nat;

    /// The dimension N of the grid.
    closed spec fn view(&self) -> nat {
        self.size as nat
    }
}

impl Grid {
    #[verifier::type_invariant]
    spec fn inv(self) -> bool {
        drawable(self.size as nat)
    }

    /// A grid of dimension `size`, if it can be drawn.
    pub fn new(size: u32) -> (grid: Option<Grid>)
        ensures
            drawable(size as nat) <==> grid is Some,
            grid matches Some(g) ==> g@ == size,
    {
        match size.checked_mul(size) {
            Some(_) => Some(Grid { size }),
            None => None,
        }
    }

    /// The dimension N.
    pub fn size(&self) -> (n: u32)
        ensures
            n == self@,
            drawable(self@),
    {
        proof {
            use_type_invariant(self);
        }
        self.size
    }

    /// The number of cells, N * N: the length of each generation buffer and
    /// the instance count of the draw call.
    pub fn cells(&self) -> (count: u32)
        ensures
            count == cell_count(self@),
    {
        proof {
            use_type_invariant(self);
        }
        self.size * self.size
    }

    /// The number of workgroups to dispatch along x and along y.
    pub fn workgroups(&self) -> (count: u32)
        ensures
            count == workgroup_count(self@),
    {
        let whole: u32 = self.size / WORKGROUP;
        if self.size % WORKGROUP == 0 {
            whole
        } else {
            whole + 1
        }
    }

    /// The contents of the dimensions uniform: (width, height).
    pub fn dimensions(&self) -> (dims: (u32, u32))
        ensures
            dims.0 == self@,
            dims.1 == self@,
    {
        (self.size, self.size)
    }

    /// The seeded contents of a generation buffer, one activation per cell.
    pub fn seed(&self, generation: Generation) -> (cells: Vec<u32>)
        ensures
            cells@ == seed(self@, generation),
    {
        let count: u32 = self.cells();
        let stride: u32 = match generation {
            Generation::A => 1,
            Generation::B => 2,
        };
        let mut cells: Vec<u32> = Vec::new();
        let mut i: u32 = 0;
        while i < count
            invariant
                i <= count,
                count == cell_count(self@),
                stride == generation.stride(),
                cells@.len() == i,
                forall|k: int| 0 <= k < i ==> cells@[k] == seed_cell(generation, k),
            decreases count - i,
        {
            let value: u32 = if i % stride == 0 {
                1
            } else {
                0
            };
            cells.push(value);
            i = i + 1;
        }
        assert(cells@ =~= seed(self@, generation));
        cells
    }

    /// The seeded contents of a generation buffer as the bytes that the
    /// buffer is initialised with: four bytes a cell.
    pub fn seed_bytes(&self, generation: Generation) -> (bytes: Vec<u8>)
        ensures
            native(seed(self@, generation), bytes@),
            bytes@.len() == 4 * cell_count(self@),
    {
        let cells: Vec<u32> = self.seed(generation);
        words_to_bytes(&cells)
    }
}

} // verus!
