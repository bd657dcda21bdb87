//! The render task as a machine: it is told what happened and answers with
//! what to do next. It draws each frame off screen; waiting for a reading
//! and pushing the finished pixels to the display are left to the caller.

use crate::canvas::blank;
use crate::canvas::lemma_frame_overwrites;
use crate::canvas::painted;
use crate::canvas::Canvas;
use crate::colour::Colour;
use crate::dashboard::frame_shapes;
use crate::dashboard::lemma_frame_in_reach;
use crate::dashboard::readouts_fit;
use crate::dashboard::Dashboard;
use crate::error::ErrorKind;
use crate::frame::shapes;
use crate::history::latest;
use crate::label::co2_text;
use crate::label::humidity_text;
use crate::label::lemma_co2_text_fits;
use crate::label::temperature_text;
use crate::reading::Reading;
use vstd::prelude::*;

verus! {

/// Where the render task stands.
#[derive(Clone, Copy, Debug, PartialEq, Eq, Structural)]
pub enum RenderPhase {
    /// The display is being reset and initialised.
    Starting,
    /// Waiting for the next reading.
    Waiting,
    /// A finished frame is being pushed to the display.
    Showing,
    /// The task has given up.
    Halted,
}

/// What the caller reports back.
#[derive(Clone, Debug, PartialEq, Eq)]
pub enum RenderEvent {
    /// The last command was carried out.
    Done,
    /// A reading arrived through the handoff.
    Received(Reading),
    /// The display driver reported an error.
    Failed,
}

/// What the caller is to do next.
#[derive(Clone, Debug, PartialEq, Eq)]
pub enum RenderCommand {
    /// Reset and initialise the display.
    StartDisplay,
    /// Wait for a reading and report it.
    Wait,
    /// Push these pixels, the whole finished frame row by row, to the
    /// display in one piece.
    Show(Vec<Colour>),
    /// Stop for good, for the reason given.
    Halt(ErrorKind),
    /// Nothing: the event was not awaited.
    Idle,
}

/// The render task: its phase, the histories it draws from and the canvas
/// it draws into.
pub struct RenderTask {
    phase: RenderPhase,
    dashboard: Dashboard,
    canvas: Canvas,
}

impl RenderTask {
    /// Where the task stands.
    pub closed spec fn spec_phase(&self) -> RenderPhase {
        self.phase
    }

    /// The histories of the task.
    pub closed spec fn spec_dashboard(&self) -> Dashboard {
        self.dashboard
    }

    /// The canvas of the task.
    pub closed spec fn spec_canvas(&self) -> Canvas {
        self.canvas
    }

    /// A task before the display is set up, without any history and with a
    /// black canvas. Its first command is to start the display.
    pub fn start() -> (started: (RenderTask, RenderCommand))
        ensures
            started.0.spec_phase() == RenderPhase::Starting,
            started.0.spec_dashboard().co2@ == Seq::<i32>::empty(),
            started.0.spec_dashboard().temperature@ == Seq::<i32>::empty(),
            started.0.spec_dashboard().humidity@ == Seq::<i32>::empty(),
            started.0.spec_canvas()@ == blank(),
            started.1 == RenderCommand::StartDisplay,
    {
        (
            RenderTask {
                phase: RenderPhase::Starting,
                dashboard: Dashboard::new(),
                canvas: Canvas::new(),
            },
            RenderCommand::StartDisplay,
        )
    }

    /// Where the task stands.
    #[verifier::when_used_as_spec(spec_phase)]
    pub fn phase(&self) -> (phase: RenderPhase)
        ensures
            phase == self.spec_phase(),
    {
        self.phase
    }

    /// The histories of the task.
    pub fn dashboard(&self) -> (dashboard: &Dashboard)
        ensures
            *dashboard == self.spec_dashboard(),
    {
        &self.dashboard
    }

    /// Takes `event` in and says what to do next.
    ///
    /// A display that fails to start or to take a frame halts the task. A
    /// reading is recorded and the whole frame is drawn anew, from a cleared
    /// canvas, before any of it is shown; where one of the readouts does not
    /// fit, the task halts and records nothing. After a frame is shown the
    /// task waits again. An event that the phase does not await changes
    /// nothing.
    pub fn step(&mut self, event: RenderEvent) -> (command: RenderCommand)
        ensures
            match (old(self).spec_phase(), event) {
                (RenderPhase::Starting, RenderEvent::Done) | (
                    RenderPhase::Showing,
                    RenderEvent::Done,
                ) => {
                    &&& final(self).spec_phase() == RenderPhase::Waiting
                    &&& command == RenderCommand::Wait
                    &&& final(self).spec_dashboard() == old(self).spec_dashboard()
                },
                (RenderPhase::Starting, RenderEvent::Failed) | (
                    RenderPhase::Showing,
                    RenderEvent::Failed,
                ) => {
                    &&& final(self).spec_phase() == RenderPhase::Halted
                    &&& command == RenderCommand::Halt(ErrorKind::DisplayFailure)
                    &&& final(self).spec_dashboard() == old(self).spec_dashboard()
                },
                (RenderPhase::Waiting, RenderEvent::Received(reading)) => if readouts_fit(
                    &reading,
                ) {
                    &&& final(self).spec_phase() == RenderPhase::Showing
                    &&& final(self).spec_dashboard().co2@ == latest(
                        old(self).spec_dashboard().co2@.push(reading.plots().0),
                    )
                    &&& final(self).spec_dashboard().temperature@ == latest(
                        old(self).spec_dashboard().temperature@.push(reading.plots().1),
                    )
                    &&& final(self).spec_dashboard().humidity@ == latest(
                        old(self).spec_dashboard().humidity@.push(reading.plots().2),
                    )
                    &&& command is Show
                    &&& command->Show_0@ == painted(
                        blank(),
                        frame_shapes(
                            final(self).spec_dashboard().co2@,
                            final(self).spec_dashboard().temperature@,
                            final(self).spec_dashboard().humidity@,
                            co2_text(reading.co2),
                            temperature_text(reading.temperature.shown@),
                            humidity_text(reading.humidity.shown@),
                        ),
                    )
                } else {
                    &&& final(self).spec_phase() == RenderPhase::Halted
                    &&& command == RenderCommand::Halt(ErrorKind::FormatOverflow)
                    &&& final(self).spec_dashboard().co2@ == old(self).spec_dashboard().co2@
                    &&& final(self).spec_dashboard().temperature@ == old(
                        self,
                    ).spec_dashboard().temperature@
                    &&& final(self).spec_dashboard().humidity@ == old(
                        self,
                    ).spec_dashboard().humidity@
                },
                _ => {
                    &&& final(self).spec_phase() == old(self).spec_phase()
                    &&& command == RenderCommand::Idle
                    &&& final(self).spec_dashboard() == old(self).spec_dashboard()
                },
            },
    {
        match (self.phase, event) {
            (RenderPhase::Starting, RenderEvent::Done) | (
                RenderPhase::Showing,
                RenderEvent::Done,
            ) => {
                self.phase = RenderPhase::Waiting;
                RenderCommand::Wait
            },
            (RenderPhase::Starting, RenderEvent::Failed) | (
                RenderPhase::Showing,
                RenderEvent::Failed,
            ) => {
                self.phase = RenderPhase::Halted;
                RenderCommand::Halt(ErrorKind::DisplayFailure)
            },
            (RenderPhase::Waiting, RenderEvent::Received(reading)) => {
                match self.dashboard.render(&reading) {
                    Ok(frame) => {
                        proof {
                            lemma_co2_text_fits(reading.co2);
                            lemma_frame_in_reach(
                                self.dashboard.co2@,
                                self.dashboard.temperature@,
                                self.dashboard.humidity@,
                                co2_text(reading.co2),
                                temperature_text(reading.temperature.shown@),
                                humidity_text(reading.humidity.shown@),
                            );
                            lemma_frame_overwrites(self.canvas@, blank(), shapes(frame@));
                        }
                        self.canvas.paint(&frame);
                        self.phase = RenderPhase::Showing;
                        RenderCommand::Show(self.canvas.pixels())
                    },
                    Err(error) => {
                        self.phase = RenderPhase::Halted;
                        RenderCommand::Halt(error)
                    },
                }
            },
            _ => RenderCommand::Idle,
        }
    }
}

} // verus!
