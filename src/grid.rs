//! The grid resource: dimensions, workgroup dispatch sizing and the two scalar fields.
use vstd::prelude::*;
use crate::pipeline::{
    compute_bind_entries, compute_set_spec, grid_sampler, grid_sampler_spec, render_bind_entries,
    render_set_spec, BindEntry, SamplerSettings,
};

verus! {

/// Side length of a compute workgroup (the kernel runs 16 x 16 invocations per group).
pub const WORKGROUP_SIZE: u32 = 16;

/// Number of fractional bits of a field sample: a sample `k` stands for `k / 2^24`.
pub const SAMPLE_FRACTION_BITS: u32 = 24;

/// One past the largest sample: a sample `k` lies in `[0, SAMPLE_ONE)`, so `k / 2^24` lies in `[0, 1)`.
pub const SAMPLE_ONE: u32 = 0x0100_0000;

/// Width and height of the grid image, in cells.
#[derive(Clone, Copy, Debug, PartialEq, Eq, Structural)]
pub struct GridDim {
    pub x: u32,
    pub y: u32,
}

/// Why a grid of the requested size is refused.
#[derive(Clone, Copy, Debug, PartialEq, Eq, Structural)]
pub enum GridConfigError {
    /// Width or height is zero.
    ZeroSize,
}

/// Workgroup counts of one compute dispatch.
#[derive(Clone, Copy, Debug, PartialEq, Eq, Structural)]
pub struct Dispatch {
    pub x: u32,
    pub y: u32,
    pub z: u32,
}

impl GridDim {
    /// Both sides are positive multiples of the workgroup size: every cell is covered by
    /// exactly one invocation.
    pub open spec fn is_exact(self) -> bool {
        &&& self.x > 0
        &&& self.y > 0
        &&& self.x % 16 == 0
        &&& self.y % 16 == 0
    }

    pub open spec fn cells(self) -> nat {
        self.x as nat * self.y as nat
    }

    /// Workgroups per axis: the side divided by the workgroup size, truncated.
    pub open spec fn dispatch_spec(self) -> Dispatch {
        Dispatch { x: self.x / 16, y: self.y / 16, z: 1 }
    }

    pub fn new(x: u32, y: u32) -> (r: GridDim)
        ensures
            r == (GridDim { x, y }),
    {
        GridDim { x, y }
    }

    /// A grid of `x` by `y` cells, refused when either side is zero.
    pub fn checked(x: u32, y: u32) -> (r: Result<GridDim, GridConfigError>)
        ensures
            x == 0 || y == 0 <==> r == Err::<GridDim, GridConfigError>(GridConfigError::ZeroSize),
            x > 0 && y > 0 <==> r == Ok::<GridDim, GridConfigError>(GridDim { x, y }),
    {
        if x == 0 || y == 0 {
            Err(GridConfigError::ZeroSize)
        } else {
            Ok(GridDim { x, y })
        }
    }

    /// Number of cells, `x * y`.
    pub fn cell_count(&self) -> (r: u64)
        ensures
            r as nat == self.cells(),
    {
        assert(self.x as nat * self.y as nat <= 0xFFFF_FFFFnat * 0xFFFF_FFFFnat) by (nonlinear_arith)
            requires
                self.x <= 0xFFFF_FFFFu32,
                self.y <= 0xFFFF_FFFFu32,
        ;
        self.x as u64 * self.y as u64
    }

    /// Workgroup counts of the compute pass over this grid: `(x / 16, y / 16, 1)`.
    /// A side that is not a multiple of 16 loses its last partial group.
    pub fn dispatch_size(&self) -> (r: Dispatch)
        ensures
            r == self.dispatch_spec(),
    {
        Dispatch { x: self.x / WORKGROUP_SIZE, y: self.y / WORKGROUP_SIZE, z: 1 }
    }
}

/// Covered cells: with an exact grid, the dispatched invocations cover exactly its cells.
pub proof fn lemma_exact_dispatch_covers(d: GridDim)
    requires
        d.is_exact(),
    ensures
        d.dispatch_spec().x as int * 16 == d.x,
        d.dispatch_spec().y as int * 16 == d.y,
        d.dispatch_spec().z == 1,
{
}

/// Relies on `rand::random`: a value drawn from the thread-local generator. Nothing is
/// promised of it.
pub assume_specification<T>[ rand::random::<T> ]() -> (r: T)
    where
        rand::distributions::Standard: rand::distributions::Distribution<T>,
;

/// A sample `k` stands for the value `k / 2^24`, which lies in `[0, 1)` exactly when `k < 2^24`.
pub open spec fn is_unit_sample(k: u32) -> bool {
    k < 0x0100_0000
}

/// Every sample of `s` stands for a value in `[0, 1)`.
pub open spec fn all_unit_samples(s: Seq<u32>) -> bool {
    forall|i: int| 0 <= i < s.len() ==> is_unit_sample(#[trigger] s[i])
}

/// The sample a random word gives: its top 24 bits.
pub fn unit_sample(word: u32) -> (r: u32)
    ensures
        r == word >> 8u32,
        is_unit_sample(r),
{
    assert(word >> 8u32 < 0x0100_0000u32) by (bit_vector);
    word >> 8u32
}

/// Draws one sample uniformly from `[0, 2^24)`: the sample of a random word.
pub fn draw_unit_sample() -> (r: u32)
    ensures
        is_unit_sample(r),
{
    let word: u32 = rand::random::<u32>();
    unit_sample(word)
}

/// A scalar field of `n` independently drawn samples.
pub fn random_field(n: usize) -> (r: Vec<u32>)
    ensures
        r@.len() == n,
        all_unit_samples(r@),
{
    let mut field: Vec<u32> = Vec::with_capacity(n);
    let mut i: usize = 0;
    while i < n
        invariant
            i <= n,
            field@.len() == i,
            all_unit_samples(field@),
        decreases n - i,
    {
        let k = draw_unit_sample();
        field.push(k);
        i = i + 1;
    }
    field
}

/// What a grid holds: its dimensions, the two fields, its two binding sets and the
/// settings of the sampler its render set binds.
pub struct GridView {
    pub dims: GridDim,
    pub u: Seq<u32>,
    pub v: Seq<u32>,
    pub render_set: Seq<BindEntry>,
    pub compute_set: Seq<BindEntry>,
    pub sampler: SamplerSettings,
}

/// Host-side state of the grid resource: its dimensions, the two scalar fields `u` and
/// `v` (one sample per cell, row-major), the binding sets that expose them to the compute
/// and render stages, and the sampler settings. All of it is written once, at
/// construction; the grid image itself lives on the device and is written only by the
/// compute stage.
#[derive(Debug)]
pub struct Grid {
    dims: GridDim,
    u: Vec<u32>,
    v: Vec<u32>,
    render_set: Vec<BindEntry>,
    compute_set: Vec<BindEntry>,
    sampler: SamplerSettings,
}

impl View for Grid {
    type V = GridView;

    closed spec fn view(&self) -> GridView {
        GridView {
            dims: self.dims,
            u: self.u@,
            v: self.v@,
            render_set: self.render_set@,
            compute_set: self.compute_set@,
            sampler: self.sampler,
        }
    }
}

impl Grid {
    /// Each field holds one sample in `[0, 1)` per cell; the binding sets and the sampler
    /// are the grid's fixed ones.
    pub open spec fn wf(&self) -> bool {
        &&& self@.u.len() == self@.dims.cells()
        &&& self@.v.len() == self@.dims.cells()
        &&& all_unit_samples(self@.u)
        &&& all_unit_samples(self@.v)
        &&& self@.render_set == render_set_spec()
        &&& self@.compute_set == compute_set_spec()
        &&& self@.sampler == grid_sampler_spec()
    }

    /// A grid of `dims` with freshly drawn fields.
    pub(crate) fn with_dims(dims: GridDim) -> (r: Grid)
        requires
            dims.cells() <= usize::MAX,
        ensures
            r@.dims == dims,
            r.wf(),
    {
        let n = dims.cell_count();
        let u = random_field(n as usize);
        let v = random_field(n as usize);
        Grid {
            dims,
            u,
            v,
            render_set: render_bind_entries(),
            compute_set: compute_bind_entries(),
            sampler: grid_sampler(),
        }
    }

    /// A `width` by `height` grid whose fields are filled with independently drawn
    /// samples in `[0, 1)`; refused, before anything is drawn, when a side is zero.
    pub fn new_random(width: u32, height: u32) -> (r: Result<Grid, GridConfigError>)
        requires
            width as nat * height as nat <= usize::MAX,
        ensures
            width == 0 || height == 0 <==> r == Err::<Grid, GridConfigError>(
                GridConfigError::ZeroSize,
            ),
            r matches Ok(g) ==> g@.dims == (GridDim { x: width, y: height }) && g.wf(),
    {
        match GridDim::checked(width, height) {
            Ok(dims) => Ok(Grid::with_dims(dims)),
            Err(e) => Err(e),
        }
    }

    pub fn dims(&self) -> (r: GridDim)
        ensures
            r == self@.dims,
    {
        self.dims
    }

    /// Samples of field `u`, row-major.
    pub fn u(&self) -> (r: &Vec<u32>)
        ensures
            r@ == self@.u,
    {
        &self.u
    }

    /// Samples of field `v`, row-major.
    pub fn v(&self) -> (r: &Vec<u32>)
        ensures
            r@ == self@.v,
    {
        &self.v
    }

    /// Binding set of the render stage.
    pub fn render_set(&self) -> (r: &Vec<BindEntry>)
        ensures
            r@ == self@.render_set,
    {
        &self.render_set
    }

    /// Binding set of the compute stage.
    pub fn compute_set(&self) -> (r: &Vec<BindEntry>)
        ensures
            r@ == self@.compute_set,
    {
        &self.compute_set
    }

    pub fn sampler(&self) -> (r: SamplerSettings)
        ensures
            r == self@.sampler,
    {
        self.sampler
    }

    /// Sample of field `u` at column `col`, row `row`.
    pub fn u_at(&self, col: u32, row: u32) -> (r: u32)
        requires
            self.wf(),
            col < self@.dims.x,
            row < self@.dims.y,
        ensures
            r == self@.u[row * self@.dims.x + col],
            is_unit_sample(r),
    {
        proof {
            assert(self.u.len() == self.dims.cells());
        }
        let i = cell_index(self.dims, col, row);
        self.u[i]
    }

    /// Sample of field `v` at column `col`, row `row`.
    pub fn v_at(&self, col: u32, row: u32) -> (r: u32)
        requires
            self.wf(),
            col < self@.dims.x,
            row < self@.dims.y,
        ensures
            r == self@.v[row * self@.dims.x + col],
            is_unit_sample(r),
    {
        proof {
            assert(self.v.len() == self.dims.cells());
        }
        let i = cell_index(self.dims, col, row);
        self.v[i]
    }
}

/// Row-major index of the cell at column `col`, row `row`.
fn cell_index(dims: GridDim, col: u32, row: u32) -> (r: usize)
    requires
        col < dims.x,
        row < dims.y,
        dims.cells() <= usize::MAX,
    ensures
        r == row * dims.x + col,
        r < dims.cells(),
{
    assert((row as nat * dims.x as nat + col as nat) < dims.x as nat * dims.y as nat) by (nonlinear_arith)
        requires
            col < dims.x,
            row < dims.y,
    ;
    row as usize * dims.x as usize + col as usize
}

} // verus!
