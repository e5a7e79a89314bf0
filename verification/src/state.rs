//! The simulation context and its frame sequencer.
//!
//! The context owns the two generation buffers and the step counter. In
//! every tick one buffer is read and the other written, and the parity of
//! the step counter says which is which: the buffer written in one tick is
//! the one read in the next.

use vstd::prelude::*;
use crate::device::{cast_cells, is_memory_image};
use crate::grid::{evolve, evolved, is_generation, Dimensions};
use crate::present::{Frame, QUAD_VERTICES};
use crate::seed::{random_cells, DEFAULT_THRESHOLD, DRAW_RANGE};

verus! {

/// The side of the grid, in cells.
pub const GRID_SIZE: u32 = 64;

/// Why no drawable surface could be had for a frame.
#[derive(Clone, Copy, Debug, PartialEq, Eq, Structural)]
pub enum SurfaceError {
    /// The surface did not become available in time.
    Timeout,
    /// The surface has changed and must be configured again.
    Outdated,
    /// The surface is lost.
    Lost,
    /// The device has no memory left.
    OutOfMemory,
}

/// Where the sequencer stands within a tick.
#[derive(Clone, Copy, Debug, PartialEq, Eq, Structural)]
pub enum Phase {
    /// Between ticks.
    Idle,
    /// The roles of the buffers are chosen; the next generation is due.
    Evolving,
    /// The next generation is written; its draw is due.
    Presenting,
    /// The frame is on its way; the step counter is due.
    Presented,
}

/// The roles of the two buffers in one tick.
#[derive(Clone, Copy, Debug, PartialEq, Eq, Structural)]
pub struct Roles {
    /// The buffer that is read.
    pub source: usize,
    /// The buffer that is written.
    pub destination: usize,
}

/// The buffer that is read in the tick that begins at step `step`.
pub open spec fn source_of(step: nat) -> int {
    step as int % 2
}

/// The buffer that is written in the tick that begins at step `step`.
pub open spec fn destination_of(step: nat) -> int {
    (step + 1) as int % 2
}

/// What a simulation context holds.
pub struct StateView {
    pub dims: Dimensions,
    pub first: Seq<u32>,
    pub second: Seq<u32>,
    pub step: nat,
    pub size: (u32, u32),
    pub phase: Phase,
}

impl StateView {
    /// The contents of buffer `index`: 0 is the first, anything else the
    /// second.
    pub open spec fn buffer(self, index: int) -> Seq<u32> {
        if index == 0 {
            self.first
        } else {
            self.second
        }
    }

    /// The buffer that the current step reads.
    pub open spec fn source(self) -> Seq<u32> {
        self.buffer(source_of(self.step))
    }

    /// The buffer that the current step writes.
    pub open spec fn destination(self) -> Seq<u32> {
        self.buffer(destination_of(self.step))
    }

    /// Both buffers hold one value for each cell of the grid.
    pub open spec fn well_formed(self) -> bool {
        &&& self.dims.well_formed()
        &&& self.first.len() == self.dims.cell_count()
        &&& self.second.len() == self.dims.cell_count()
    }

    /// The context with the next generation of the source written over the
    /// destination.
    pub open spec fn evolved(self) -> StateView {
        if source_of(self.step) == 0 {
            StateView { second: evolved(self.first, self.dims), ..self }
        } else {
            StateView { first: evolved(self.second, self.dims), ..self }
        }
    }

    /// The context one whole tick later: the destination holds the next
    /// generation, and the step counter has advanced by one.
    pub open spec fn after_tick(self) -> StateView {
        StateView { step: self.step + 1, phase: Phase::Idle, ..self.evolved() }
    }

    /// The context in another phase.
    pub open spec fn in_phase(self, phase: Phase) -> StateView {
        StateView { phase, ..self }
    }

    /// The draw that shows the generation written in the current step.
    pub open spec fn frame(self) -> Frame {
        Frame {
            buffer: destination_of(self.step) as usize,
            vertices: QUAD_VERTICES,
            instances: self.dims.cell_count() as u32,
        }
    }
}

/// The simulation context: the grid's dimensions, the two generation
/// buffers, the step counter, the size of the surface drawn to, and the
/// phase of the sequencer.
pub struct State {
    dims: Dimensions,
    first: Vec<u32>,
    second: Vec<u32>,
    step: usize,
    size: (u32, u32),
    phase: Phase,
}

impl View for State {
    type V = StateView;

    closed spec fn view(&self) -> StateView {
        StateView {
            dims: self.dims,
            first: self.first@,
            second: self.second@,
            step: self.step as nat,
            size: self.size,
            phase: self.phase,
        }
    }
}

impl SurfaceError {
    /// Whether the failure ends the run. A surface that timed out or is
    /// outdated may be there again at the next tick; a lost surface or a
    /// device out of memory will not.
    pub fn is_fatal(&self) -> (fatal: bool)
        ensures
            fatal == (*self == SurfaceError::Lost || *self == SurfaceError::OutOfMemory),
    {
        match self {
            SurfaceError::Timeout => false,
            SurfaceError::Outdated => false,
            SurfaceError::Lost => true,
            SurfaceError::OutOfMemory => true,
        }
    }
}

impl State {
    /// Both buffers hold one value for each cell of the grid.
    pub open spec fn well_formed(&self) -> bool {
        self@.well_formed()
    }

    /// A context over a grid of `columns` by `rows` cells whose buffers both
    /// hold `cells`, at step zero, for a surface of `width` by `height`.
    /// There is none where the grid has no cells or too many, or where
    /// `cells` is not one value for each of them.
    pub fn with_cells(
        columns: u32,
        rows: u32,
        cells: Vec<u32>,
        width: u32,
        height: u32,
    ) -> (state: Option<State>)
        ensures
            state.is_some() <==> (0 < columns && 0 < rows && columns * rows <= u32::MAX
                && cells.len() == columns * rows),
            state.is_some() ==> state.unwrap().well_formed() && state.unwrap()@ == (StateView {
                dims: Dimensions { width: columns, height: rows },
                first: cells@,
                second: cells@,
                step: 0,
                size: (width, height),
                phase: Phase::Idle,
            }),
    {
        match Dimensions::new(columns, rows) {
            None => None,
            Some(dims) => {
                if cells.len() != dims.cells() {
                    return None;
                }
                let second = cells.clone();
                Some(
                    State {
                        dims,
                        first: cells,
                        second,
                        step: 0,
                        size: (width, height),
                        phase: Phase::Idle,
                    },
                )
            },
        }
    }

    /// A context over the grid of 64 by 64 cells with a random first
    /// generation, in which a cell is alive when its draw exceeds
    /// `threshold`. Both buffers hold that generation.
    pub fn seeded(width: u32, height: u32, threshold: u32) -> (state: State)
        ensures
            state.well_formed(),
            state@.dims == (Dimensions { width: GRID_SIZE, height: GRID_SIZE }),
            state@.first == state@.second,
            is_generation(state@.first, state@.dims),
            threshold >= DRAW_RANGE - 1 ==> forall|i: int|
                0 <= i < state@.first.len() ==> #[trigger] state@.first[i] == 0,
            state@.step == 0,
            state@.size == (width, height),
            state@.phase == Phase::Idle,
    {
        let dims = Dimensions { width: GRID_SIZE, height: GRID_SIZE };
        assert(dims.width == 64 && dims.height == 64);
        assert(dims.width * dims.height == 4096);
        let cells = random_cells(dims.cells(), threshold);
        let second = cells.clone();
        State { dims, first: cells, second, step: 0, size: (width, height), phase: Phase::Idle }
    }

    /// A context over the grid of 64 by 64 cells with a random first
    /// generation in which about two cells in five are alive.
    pub fn new(width: u32, height: u32) -> (state: State)
        ensures
            state.well_formed(),
            state@.dims == (Dimensions { width: GRID_SIZE, height: GRID_SIZE }),
            state@.first == state@.second,
            is_generation(state@.first, state@.dims),
            state@.step == 0,
            state@.size == (width, height),
            state@.phase == Phase::Idle,
    {
        State::seeded(width, height, DEFAULT_THRESHOLD)
    }
}

impl State {
    /// The step counter.
    pub fn step(&self) -> (step: usize)
        ensures
            step == self@.step,
    {
        self.step
    }

    /// The phase of the sequencer.
    pub fn phase(&self) -> (phase: Phase)
        ensures
            phase == self@.phase,
    {
        self.phase
    }

    /// The dimensions of the grid.
    pub fn dimensions(&self) -> (dims: Dimensions)
        ensures
            dims == self@.dims,
    {
        self.dims
    }

    /// The size of the surface, as last set.
    pub fn size(&self) -> (size: (u32, u32))
        ensures
            size == self@.size,
    {
        self.size
    }

    /// The roles of the buffers at the current step.
    pub fn roles(&self) -> (roles: Roles)
        ensures
            roles.source == source_of(self@.step),
            roles.destination == destination_of(self@.step),
            roles.source != roles.destination,
    {
        if self.step % 2 == 0 {
            Roles { source: 0, destination: 1 }
        } else {
            Roles { source: 1, destination: 0 }
        }
    }

    /// The cells of buffer `index`, for reading.
    pub fn buffer_cells(&self, index: usize) -> (cells: &Vec<u32>)
        requires
            index < 2,
        ensures
            cells@ == self@.buffer(index as int),
    {
        if index == 0 {
            &self.first
        } else {
            &self.second
        }
    }

    /// The cells of buffer `index` as the bytes of a storage buffer: four
    /// bytes for each cell, as they lie in memory.
    pub fn buffer_bytes(&self, index: usize) -> (bytes: Vec<u8>)
        requires
            index < 2,
        ensures
            is_memory_image(self@.buffer(index as int), bytes@),
    {
        cast_cells(self.buffer_cells(index))
    }

    /// Takes over a new size of the surface. A size with a side of zero is
    /// passed over: nothing changes. The grid, the buffers and the step
    /// counter are never touched. Says whether the surface has to be
    /// configured for the new size.
    pub fn resize(&mut self, width: u32, height: u32) -> (configure: bool)
        ensures
            configure == (width > 0 && height > 0),
            configure ==> final(self)@ == (StateView { size: (width, height), ..old(self)@ }),
            !configure ==> final(self)@ == old(self)@,
    {
        if width == 0 || height == 0 {
            return false;
        }
        self.size = (width, height);
        true
    }

    /// Advances the step counter by one, which swaps the roles of the two
    /// buffers.
    pub fn step_up(&mut self)
        requires
            old(self)@.step < usize::MAX,
        ensures
            final(self)@ == (StateView { step: old(self)@.step + 1, ..old(self)@ }),
    {
        self.step += 1;
    }

    /// Begins a tick: fixes the roles of the buffers by the parity of the
    /// step counter.
    pub fn begin_tick(&mut self) -> (roles: Roles)
        requires
            old(self)@.phase == Phase::Idle,
        ensures
            final(self)@ == old(self)@.in_phase(Phase::Evolving),
            roles.source == source_of(old(self)@.step),
            roles.destination == destination_of(old(self)@.step),
            roles.source != roles.destination,
    {
        self.phase = Phase::Evolving;
        self.roles()
    }

    /// Writes the next generation of the source buffer over the destination
    /// buffer. The source is left as it is.
    pub fn evolve_stage(&mut self)
        requires
            old(self).well_formed(),
            old(self)@.phase == Phase::Evolving,
        ensures
            final(self).well_formed(),
            final(self)@ == old(self)@.evolved().in_phase(Phase::Presenting),
            final(self)@.destination() == evolved(old(self)@.source(), old(self)@.dims),
            final(self)@.source() == old(self)@.source(),
    {
        if self.step % 2 == 0 {
            evolve(&self.dims, &self.first, &mut self.second);
        } else {
            evolve(&self.dims, &self.second, &mut self.first);
        }
        self.phase = Phase::Presenting;
    }

    /// Decides the draw of the frame. With a surface at hand it is the draw
    /// of one quad for each cell, reading the buffer that was just written;
    /// without one the frame is dropped and the failure handed on.
    pub fn present_stage(
        &mut self,
        surface: Result<(), SurfaceError>,
    ) -> (outcome: Result<Frame, SurfaceError>)
        requires
            old(self).well_formed(),
            old(self)@.phase == Phase::Presenting,
        ensures
            final(self)@ == old(self)@.in_phase(Phase::Presented),
            outcome == match surface {
                Ok(_) => Ok::<Frame, SurfaceError>(old(self)@.frame()),
                Err(error) => Err::<Frame, SurfaceError>(error),
            },
    {
        self.phase = Phase::Presented;
        match surface {
            Ok(_) => Ok(
                Frame {
                    buffer: self.roles().destination,
                    vertices: QUAD_VERTICES,
                    instances: self.dims.cells() as u32,
                },
            ),
            Err(error) => Err(error),
        }
    }

    /// Ends a tick: advances the step counter, whether or not the frame was
    /// shown.
    pub fn end_tick(&mut self)
        requires
            old(self)@.phase == Phase::Presented,
            old(self)@.step < usize::MAX,
        ensures
            final(self)@ == (StateView {
                step: old(self)@.step + 1,
                phase: Phase::Idle,
                ..old(self)@
            }),
    {
        self.phase = Phase::Idle;
        self.step_up();
    }

    /// Runs one tick: computes the next generation, decides its draw, and
    /// advances the step counter. `surface` says whether a drawable surface
    /// could be had. The generation advances and the counter goes up by one
    /// whatever the surface; only the draw depends on it. A failure is
    /// handed back as it came, and `is_fatal` tells whether to go on.
    pub fn render(
        &mut self,
        surface: Result<(), SurfaceError>,
    ) -> (outcome: Result<Frame, SurfaceError>)
        requires
            old(self).well_formed(),
            old(self)@.phase == Phase::Idle,
            old(self)@.step < usize::MAX,
        ensures
            final(self).well_formed(),
            final(self)@ == old(self)@.after_tick(),
            final(self)@.step == old(self)@.step + 1,
            final(self)@.source() == evolved(old(self)@.source(), old(self)@.dims),
            outcome == match surface {
                Ok(_) => Ok::<Frame, SurfaceError>(old(self)@.frame()),
                Err(error) => Err::<Frame, SurfaceError>(error),
            },
    {
        let _roles = self.begin_tick();
        self.evolve_stage();
        let outcome = self.present_stage(surface);
        self.end_tick();
        outcome
    }
}

/// The roles alternate: the two roles never fall on one buffer, and the
/// buffer written at one step is the buffer read at the next.
pub proof fn lemma_roles_alternate(step: nat)
    ensures
        0 <= source_of(step) < 2,
        0 <= destination_of(step) < 2,
        source_of(step) != destination_of(step),
        destination_of(step) == source_of(step + 1),
        source_of(step) == destination_of(step + 1),
{
}

/// A tick hands the written generation on: what the next tick reads is the
/// generation that follows what this tick read, and the draw of this tick
/// reads that same buffer.
pub proof fn lemma_tick_hands_on(before: StateView)
    requires
        before.well_formed(),
    ensures
        before.after_tick().well_formed(),
        before.after_tick().source() == evolved(before.source(), before.dims),
        before.after_tick().destination() == before.source(),
        before.frame().buffer == source_of(before.after_tick().step),
        before.after_tick().step == before.step + 1,
{
}

} // verus!
