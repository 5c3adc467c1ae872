//! The whole-program phase machine: boot, render the fixed message, idle
//! forever — or fault and halt with the surface frozen as it was. The
//! surrounding binary drives these transitions; every decision about what
//! they may do to the display lives here.

use vstd::prelude::*;
use crate::screen::{Cell, ScreenState, DEFAULT_ATTR, HEIGHT, WIDTH, initial_screen, put_bytes};
use crate::writer::Writer;

verus! {

/// The program's phase. `Idle` and `Faulted` are terminal: no transition
/// leaves them.
#[derive(Clone, Copy, PartialEq, Eq, Structural, Debug)]
pub enum Phase {
    Booted,
    Rendering,
    Idle,
    Faulted,
}

/// The bytes of the fixed boot message, "Hello World!".
pub open spec fn hello_bytes() -> Seq<u8> {
    seq![0x48u8, 0x65, 0x6c, 0x6c, 0x6f, 0x20, 0x57, 0x6f, 0x72, 0x6c, 0x64, 0x21]
}

/// The fixed boot message as a byte vector.
pub fn hello_message() -> (v: Vec<u8>)
    ensures
        v@ == hello_bytes(),
{
    let mut v: Vec<u8> = Vec::new();
    v.push(0x48);
    v.push(0x65);
    v.push(0x6c);
    v.push(0x6c);
    v.push(0x6f);
    v.push(0x20);
    v.push(0x57);
    v.push(0x6f);
    v.push(0x72);
    v.push(0x6c);
    v.push(0x64);
    v.push(0x21);
    proof {
        assert(v@ =~= hello_bytes());
    }
    v
}

/// The program as a state machine: its phase and the one display writer.
pub struct Machine {
    phase: Phase,
    writer: Writer,
}

impl Machine {
    /// The current phase.
    pub closed spec fn phase_of(&self) -> Phase {
        self.phase
    }

    /// The display's abstract state.
    pub closed spec fn screen(&self) -> ScreenState {
        self.writer@
    }

    /// Well-formedness: the display state is well formed.
    pub open spec fn wf(&self) -> bool {
        self.screen().wf()
    }

    /// Whether the machine is in a terminal phase.
    pub open spec fn halted(&self) -> bool {
        self.phase_of() == Phase::Idle || self.phase_of() == Phase::Faulted
    }

    /// Entry: construct the one writer over a blank surface, under the
    /// default attribute, with nothing rendered yet.
    pub fn boot() -> (m: Machine)
        ensures
            m.wf(),
            m.phase_of() == Phase::Booted,
            m.screen() == initial_screen(DEFAULT_ATTR),
    {
        Machine { phase: Phase::Booted, writer: Writer::new(DEFAULT_ATTR) }
    }

    /// Start rendering: the display is untouched by this step.
    pub fn begin_render(&mut self)
        requires
            old(self).wf(),
            old(self).phase_of() == Phase::Booted,
        ensures
            final(self).wf(),
            final(self).phase_of() == Phase::Rendering,
            final(self).screen() == old(self).screen(),
    {
        self.phase = Phase::Rendering;
    }

    /// Render the fixed message, then go idle for good.
    pub fn finish_render(&mut self)
        requires
            old(self).wf(),
            old(self).phase_of() == Phase::Rendering,
        ensures
            final(self).wf(),
            final(self).phase_of() == Phase::Idle,
            final(self).screen() == put_bytes(old(self).screen(), hello_bytes()),
    {
        let msg = hello_message();
        self.writer.write_str(msg.as_slice());
        self.phase = Phase::Idle;
    }

    /// An unrecoverable fault: the machine halts in `Faulted`, and the
    /// display keeps exactly the state it had when the fault struck — the
    /// handler performs no write that could itself fault.
    pub fn fault(&mut self)
        requires
            old(self).phase_of() == Phase::Booted || old(self).phase_of() == Phase::Rendering,
        ensures
            final(self).phase_of() == Phase::Faulted,
            final(self).screen() == old(self).screen(),
            old(self).wf() ==> final(self).wf(),
    {
        self.phase = Phase::Faulted;
    }

    /// One turn of a terminal busy-wait loop: nothing observable changes.
    pub fn park(&mut self)
        requires
            old(self).halted(),
        ensures
            *final(self) == *old(self),
    {
    }

    /// The current phase, for the surrounding binary.
    pub fn current_phase(&self) -> (p: Phase)
        ensures
            p == self.phase_of(),
    {
        self.phase
    }

    /// The cell currently stored at a row and column of the surface.
    pub fn cell_at(&self, row: usize, col: usize) -> (c: Cell)
        requires
            self.wf(),
            row < HEIGHT,
            col < WIDTH,
        ensures
            c == self.screen().cell(row as int, col as int),
    {
        self.writer.cell_at(row, col)
    }

    /// The cursor's current column.
    pub fn cursor_col(&self) -> (c: usize)
        ensures
            c == self.screen().col,
    {
        self.writer.cursor_col()
    }

    /// The cursor's current row.
    pub fn cursor_row(&self) -> (r: usize)
        ensures
            r == self.screen().row,
    {
        self.writer.cursor_row()
    }
}

} // verus!
