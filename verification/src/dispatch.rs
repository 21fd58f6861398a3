//! The event-loop consumer: a two-phase state machine that turns relayed
//! commands and the host's close signal into window operations. The size
//! toggle is driven by the window's observed height, not by a stored flag,
//! so an external resize changes which way the next toggle goes.

use crate::geometry::LogicalSize;
use crate::relay::Command;
use vstd::prelude::*;

verus! {

/// Whether the event loop keeps running or is about to exit.
#[derive(Clone, Copy, PartialEq, Eq, Structural, Debug)]
pub enum Phase {
    Running,
    Terminating,
}

/// Fixed startup configuration: the window's base (collapsed) size and the
/// height it grows to when the size toggle fires.
#[derive(Clone, Copy, PartialEq, Eq, Structural, Debug)]
pub struct ShellConfig {
    pub base_size: LogicalSize,
    pub expanded_height: u32,
}

impl ShellConfig {
    /// The expanded height strictly exceeds the base height, so the two
    /// sizes the toggle moves between are distinct.
    pub open spec fn wf(self) -> bool {
        self.expanded_height > self.base_size.height
    }
}

/// One host-level happening the dispatcher reacts to.
#[derive(Clone, Copy, PartialEq, Eq, Structural, Debug)]
pub enum HostEvent {
    /// The host asks to close the window.
    CloseRequested,
    /// A command relayed from the hosted page is dequeued.
    Relayed(Command),
    /// Any other host event: focus changes, redraws, and the like.
    Other,
}

/// What the host window is told to do in response to one event.
#[derive(Clone, Copy, PartialEq, Eq, Structural, Debug)]
pub enum HostAction {
    /// Leave the window alone.
    Nothing,
    /// Begin an interactive move of the window, tracking the pointer.
    BeginDrag,
    /// Resize the window to the given logical width and height.
    Resize(u32, u32),
    /// End the event loop with the given process exit status.
    Exit(i32),
}

/// The height the size toggle moves the window to, given its currently
/// observed height: collapsed back to the base if it stands taller than
/// the base, expanded otherwise.
pub open spec fn spec_toggle_height(config: ShellConfig, current_height: u32) -> u32 {
    if current_height > config.base_size.height {
        config.base_size.height
    } else {
        config.expanded_height
    }
}

/// The action one event provokes: a close request always exits with
/// status 0; a relayed command acts only while the loop is running, a drag
/// beginning a window move and a toggle resizing to the toggled height at
/// the base width; everything else does nothing.
pub open spec fn spec_step_action(d: Dispatcher, event: HostEvent, current_height: u32) -> HostAction {
    match event {
        HostEvent::CloseRequested => HostAction::Exit(0),
        HostEvent::Relayed(c) => if d.phase == Phase::Running {
            match c {
                Command::DragWindow => HostAction::BeginDrag,
                Command::ToggleSetting => HostAction::Resize(
                    d.config.base_size.width,
                    spec_toggle_height(d.config, current_height),
                ),
            }
        } else {
            HostAction::Nothing
        },
        HostEvent::Other => HostAction::Nothing,
    }
}

/// The event-loop consumer: its fixed configuration and its phase.
#[derive(Clone, Copy, PartialEq, Eq, Structural, Debug)]
pub struct Dispatcher {
    pub config: ShellConfig,
    pub phase: Phase,
}

impl Dispatcher {
    /// A fresh dispatcher starts out running.
    pub fn new(config: ShellConfig) -> (d: Dispatcher)
        ensures
            d.config == config,
            d.phase == Phase::Running,
    {
        Dispatcher { config, phase: Phase::Running }
    }

    /// Reacts to one host event: the returned action is what the host
    /// window is told to do, and a close request is the one event that
    /// moves the phase, always to `Terminating`. `current_height` is the
    /// window's height as the host observes it at this moment.
    pub fn step(&mut self, event: HostEvent, current_height: u32) -> (a: HostAction)
        ensures
            final(self).config == old(self).config,
            final(self).phase == (if event == HostEvent::CloseRequested {
                Phase::Terminating
            } else {
                old(self).phase
            }),
            a == spec_step_action(*old(self), event, current_height),
    {
        match event {
            HostEvent::CloseRequested => {
                self.phase = Phase::Terminating;
                HostAction::Exit(0)
            },
            HostEvent::Relayed(c) => {
                if self.phase == Phase::Running {
                    match c {
                        Command::DragWindow => HostAction::BeginDrag,
                        Command::ToggleSetting => HostAction::Resize(
                            self.config.base_size.width,
                            toggle_height(&self.config, current_height),
                        ),
                    }
                } else {
                    HostAction::Nothing
                }
            },
            HostEvent::Other => HostAction::Nothing,
        }
    }
}

/// The height the size toggle moves the window to, given its currently
/// observed height.
pub fn toggle_height(config: &ShellConfig, current_height: u32) -> (h: u32)
    ensures
        h == spec_toggle_height(*config, current_height),
{
    if current_height > config.base_size.height {
        config.base_size.height
    } else {
        config.expanded_height
    }
}

/// The size toggle alternates: fired at the base height it expands the
/// window, and fired again at the height it just moved to, it collapses
/// the window back to the base height.
pub proof fn lemma_toggle_alternates(config: ShellConfig)
    requires
        config.wf(),
    ensures
        spec_toggle_height(config, config.base_size.height) == config.expanded_height,
        spec_toggle_height(config, spec_toggle_height(config, config.base_size.height))
            == config.base_size.height,
{
}

/// A close request while running terminates the loop with exit status 0:
/// the one way the process ends.
pub proof fn lemma_close_request_exits(d: Dispatcher, current_height: u32)
    ensures
        spec_step_action(d, HostEvent::CloseRequested, current_height) == HostAction::Exit(0),
{
}

} // verus!
