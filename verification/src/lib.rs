//! Host-side logic of a GPU-resident cellular automaton.

use vstd::prelude::*;

pub mod bindings;
pub mod events;
pub mod frame;
pub mod frame_loop;
pub mod geometry;
pub mod grid;
pub mod memory;
pub mod setup;
pub mod state;
pub mod surface;
pub mod trace;

verus! {

/// The default value of `T`, as `T`'s own `Default` gives it.
pub fn default<T: Default>() -> (r: T)
    ensures
        call_ensures(T::default, (), r),
{
    T::default()
}

} // verus!
