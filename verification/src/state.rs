//! The state that the frame loop owns: the window's identity, the surface
//! configuration, the grid and the step parity.

use vstd::prelude::*;

use crate::bindings::Parity;
use crate::events::WindowEvent;
use crate::frame::{frame, plan, FramePlan};
use crate::grid::{cell_count, drawable, workgroup_count, Grid};
use crate::surface::{Acquisition, InitError, SurfaceConfig};

verus! {

/// What a `State` holds, as plain values.
pub struct StateView {
    /// Identity of the window that the surface belongs to.
    pub window: u64,
    /// The active surface configuration.
    pub config: SurfaceConfig,
    /// Dimension of the grid.
    pub grid: nat,
    /// The step parity.
    pub parity: Parity,
}

/// The state of the simulation's host side. Only the surface configuration
/// and the step parity ever change.
#[derive(Debug)]
pub struct State {
    window: u64,
    config: SurfaceConfig,
    grid: Grid,
    step: Parity,
}

impl View for State {
    type V = StateView;

    closed spec fn view(&self) -> StateView {
        StateView {
            window: self.window,
            config: self.config,
            grid: self.grid@,
            parity: self.step,
        }
    }
}

impl State {
    /// The state at startup for the window `window`, from what acquiring the
    /// graphics stack yielded. There is a state only where acquisition went
    /// all the way and the surface's format is the expected one; the step
    /// parity is then 0.
    pub fn new(window: u64, acquisition: Acquisition, grid: Grid) -> (state: Result<
        State,
        InitError,
    >)
        ensures
            match acquisition.spec_outcome() {
                Ok(config) => state matches Ok(s) && s@ == (StateView {
                    window,
                    config,
                    grid: grid@,
                    parity: Parity::Zero,
                }),
                Err(error) => state matches Err(e) && e == error,
            },
    {
        match acquisition.outcome() {
            Ok(config) => Ok(State { window, config, grid, step: Parity::Zero }),
            Err(error) => Err(error),
        }
    }

    /// Identity of the window that the surface belongs to.
    pub fn window(&self) -> (window: u64)
        ensures
            window == self@.window,
    {
        self.window
    }

    /// The active surface configuration.
    pub fn config(&self) -> (config: SurfaceConfig)
        ensures
            config == self@.config,
    {
        self.config
    }

    /// The grid.
    pub fn grid(&self) -> (grid: Grid)
        ensures
            grid@ == self@.grid,
            drawable(self@.grid),
    {
        let n: u32 = self.grid.size();
        self.grid
    }

    /// The step parity.
    pub fn parity(&self) -> (parity: Parity)
        ensures
            parity == self@.parity,
    {
        self.step
    }

    /// Takes a new size of the window. Where both dimensions are positive
    /// the configuration gets the new size and the result is `true`: the
    /// surface is to be configured anew. Where one is zero nothing changes
    /// and the result is `false`.
    pub fn resize(&mut self, width: u32, height: u32) -> (configure: bool)
        ensures
            configure <==> width > 0 && height > 0,
            final(self)@ == (StateView {
                config: old(self)@.config.spec_resized(width, height),
                ..old(self)@
            }),
            !configure ==> *final(self) == *old(self),
    {
        if width > 0 && height > 0 {
            self.config = self.config.resized(width, height);
            true
        } else {
            false
        }
    }

    /// Offers a window event to the state before the frame loop handles it.
    /// The state consumes none: the result is `false` and nothing changes.
    pub fn input(&mut self, event: &WindowEvent) -> (consumed: bool)
        ensures
            !consumed,
            *final(self) == *old(self),
    {
        false
    }

    /// Advances host-side state before a frame. There is none to advance:
    /// the simulation lives on the device.
    pub fn update(&mut self)
        ensures
            *final(self) == *old(self),
    {
    }

    /// Plans one frame and toggles the step parity. The compute pass of the
    /// plan uses the bind group of the parity before the call, the render
    /// pass that of the parity after it.
    pub fn render(&mut self) -> (plan: FramePlan)
        ensures
            plan == frame(old(self)@.grid, old(self)@.parity),
            plan.compute.bind_group == old(self)@.parity,
            plan.render.bind_group == final(self)@.parity,
            plan.compute.workgroups.x == workgroup_count(old(self)@.grid),
            plan.compute.workgroups.y == workgroup_count(old(self)@.grid),
            plan.render.instances == cell_count(old(self)@.grid),
            final(self)@ == (StateView {
                parity: old(self)@.parity.spec_toggled(),
                ..old(self)@
            }),
            final(self)@.parity.bit() == 1 - old(self)@.parity.bit(),
    {
        let plan: FramePlan = plan(&self.grid, self.step);
        self.step = self.step.toggled();
        plan
    }
}

} // verus!
