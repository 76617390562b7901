use vstd::prelude::*;

verus! {

/// The longest pause between two steps, in milliseconds.
pub const MAX_INTERVAL: u16 = 65535;

/// What the user asked for, as the control surface sees it.
#[derive(Clone, Copy, Debug, PartialEq, Eq)]
pub enum Input {
    Quit,
    /// Starts a paused simulation, or pauses a running one.
    Toggle,
    /// Restores the snapshot (while paused).
    Reset,
    /// Empties the world (while paused).
    Clear,
    /// Halves the step interval while running; grows the radius of the
    /// bodies under the cursor while paused.
    Faster,
    /// Doubles the step interval while running; grows the mass of the
    /// bodies under the cursor while paused.
    Slower,
    /// Adds a light body while paused; selects a body while running.
    PrimaryClick { x: i32, y: i32 },
    /// Adds a heavy body while paused.
    SecondaryClick { x: i32, y: i32 },
    Other,
}

/// What the world is to do in answer to an input.
#[derive(Clone, Copy, Debug, PartialEq, Eq)]
pub enum Action {
    Nothing,
    Quit,
    /// Add a body at `(x, y)`, heavy or light.
    AddBody { x: i32, y: i32, heavy: bool },
    /// Take a snapshot of the live bodies: the simulation starts.
    SaveState,
    Reset,
    Clear,
    /// Grow the mass of the bodies exactly at the cursor.
    GrowMass,
    /// Grow the radius of the bodies exactly at the cursor.
    GrowRadius,
    /// Select the body under `(x, y)`, if any.
    Select { x: i32, y: i32 },
}

/// Whether the simulation runs, and how long to wait between two steps.
#[derive(Clone, Copy, Debug)]
pub struct Control {
    pub running: bool,
    pub update_ms: u16,
    pub selected_body: Option<u16>,
}

/// `ms` doubled, but never past `MAX_INTERVAL`.
pub open spec fn doubled(ms: u16) -> u16 {
    if 2 * ms <= MAX_INTERVAL { (2 * ms) as u16 } else { MAX_INTERVAL }
}

/// The answer to `input` while the simulation is paused.
pub open spec fn paused_action(input: Input) -> Action {
    match input {
        Input::Quit => Action::Quit,
        Input::Toggle => Action::SaveState,
        Input::Reset => Action::Reset,
        Input::Clear => Action::Clear,
        Input::Faster => Action::GrowRadius,
        Input::Slower => Action::GrowMass,
        Input::PrimaryClick { x, y } => Action::AddBody { x, y, heavy: false },
        Input::SecondaryClick { x, y } => Action::AddBody { x, y, heavy: true },
        Input::Other => Action::Nothing,
    }
}

/// The answer to `input` while the simulation runs.
pub open spec fn running_action(input: Input) -> Action {
    match input {
        Input::Quit => Action::Quit,
        Input::PrimaryClick { x, y } => Action::Select { x, y },
        _ => Action::Nothing,
    }
}

/// The step interval after `input` while the simulation runs.
pub open spec fn running_interval(ms: u16, input: Input) -> u16 {
    match input {
        Input::Faster => ms / 2,
        Input::Slower => doubled(ms),
        _ => ms,
    }
}

impl Control {
    /// Paused, with the given step interval and nothing selected.
    pub fn new(update_ms: u16) -> (r: Control)
        ensures
            !r.running,
            r.update_ms == update_ms,
            r.selected_body is None,
    {
        Control { running: false, update_ms, selected_body: None }
    }

    /// Takes one input: updates the run state and the step interval, and
    /// says what the world is to do.
    ///
    /// While paused, `Toggle` starts the simulation (after a snapshot) and
    /// the other inputs edit the world. While running, `Toggle` pauses,
    /// `Faster` and `Slower` halve and double the interval, and a primary
    /// click selects.
    pub fn handle(&mut self, input: Input) -> (r: Action)
        ensures
            final(self).selected_body == old(self).selected_body,
            !old(self).running ==> {
                &&& r == paused_action(input)
                &&& final(self).running == (input == Input::Toggle)
                &&& final(self).update_ms == old(self).update_ms
            },
            old(self).running ==> {
                &&& r == running_action(input)
                &&& final(self).running == (input != Input::Toggle)
                &&& final(self).update_ms == running_interval(old(self).update_ms, input)
            },
    {
        if !self.running {
            match input {
                Input::Quit => Action::Quit,
                Input::Toggle => {
                    self.running = true;
                    Action::SaveState
                },
                Input::Reset => Action::Reset,
                Input::Clear => Action::Clear,
                Input::Faster => Action::GrowRadius,
                Input::Slower => Action::GrowMass,
                Input::PrimaryClick { x, y } => Action::AddBody { x, y, heavy: false },
                Input::SecondaryClick { x, y } => Action::AddBody { x, y, heavy: true },
                Input::Other => Action::Nothing,
            }
        } else {
            match input {
                Input::Quit => Action::Quit,
                Input::Toggle => {
                    self.running = false;
                    Action::Nothing
                },
                Input::Faster => {
                    self.update_ms = self.update_ms / 2;
                    Action::Nothing
                },
                Input::Slower => {
                    if self.update_ms <= MAX_INTERVAL / 2 {
                        self.update_ms = self.update_ms * 2;
                    } else {
                        self.update_ms = MAX_INTERVAL;
                    }
                    Action::Nothing
                },
                Input::PrimaryClick { x, y } => Action::Select { x, y },
                _ => Action::Nothing,
            }
        }
    }
}

} // verus!
