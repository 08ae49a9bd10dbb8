//! Planning a remediation: the ordered commands that float, resize, center
//! and focus one window, computed from the focused output's geometry.
//!
//! The window is sized to fixed proportions of the output — a fifth of its
//! width and half of its height — and, when the output reports logical
//! dimensions, moved so that a window of that size sits centered: the
//! control protocol's move primitive addresses the top-left corner, so the
//! anchor is the output's center minus half the window's extent.

use vstd::prelude::*;

verus! {

/// Width of the floated window as a percentage of the output width.
pub const PROPORTION_WIDTH_PERCENT: u32 = 20;

/// Height of the floated window as a percentage of the output height.
pub const PROPORTION_HEIGHT_PERCENT: u32 = 50;

/// Logical dimensions of an output, in logical pixels.
#[derive(Clone, Copy, PartialEq, Eq, Structural, Debug)]
pub struct LogicalSize {
    pub width: u32,
    pub height: u32,
}

/// The focused output as remediation needs it: its logical dimensions, if it
/// reports any.
#[derive(Clone, Copy, PartialEq, Eq, Structural, Debug)]
pub struct OutputGeometry {
    pub logical: Option<LogicalSize>,
}

/// One command against the window manager's control interface. Sizes are
/// percentages of the output dimension; positions are absolute logical
/// pixels, addressing the window's top-left corner.
#[derive(Clone, Copy, PartialEq, Eq, Structural, Debug)]
pub enum Command {
    MoveWindowToFloating { id: u64 },
    SetWindowWidth { id: u64, percent: u32 },
    SetWindowHeight { id: u64, percent: u32 },
    MoveFloatingWindow { id: u64, x: u32, y: u32 },
    FocusWindow { id: u64 },
}

/// Why a remediation could not be planned.
#[derive(Clone, Copy, PartialEq, Eq, Structural, Debug)]
pub enum RemediationError {
    /// The focused-output query was denied or reported no output; without
    /// its geometry nothing is issued.
    FocusedOutputUnavailable,
}

impl RemediationError {
    /// A short description, for logging.
    pub fn message(&self) -> (r: &'static str)
        ensures
            r@ == "Request for focused output denied"@,
    {
        "Request for focused output denied"
    }
}

/// The horizontal anchor that centers a window a fifth of the output wide:
/// half the width minus half the window's extent.
pub open spec fn anchor_x_spec(width: u32) -> int {
    width as int / 2 - (width as int / 5) / 2
}

/// The vertical anchor that centers a window half the output tall.
pub open spec fn anchor_y_spec(height: u32) -> int {
    height as int / 2 - (height as int / 2) / 2
}

/// The top-left anchor that centers a window of the fixed proportions within
/// an output of the given logical dimensions.
pub fn center_anchor(size: LogicalSize) -> (r: (u32, u32))
    ensures
        r.0 == anchor_x_spec(size.width),
        r.1 == anchor_y_spec(size.height),
{
    proof {
        assert((size.width as int / 5) / 2 <= size.width as int / 2) by (nonlinear_arith);
        assert((size.height as int / 2) / 2 <= size.height as int / 2) by (nonlinear_arith);
    }
    let x = size.width / 2 - (size.width / 5) / 2;
    let y = size.height / 2 - (size.height / 2) / 2;
    (x, y)
}

/// The full command sequence for a window: float it, set both sizes, center
/// it when the output reports logical dimensions (else skip centering), and
/// focus it.
pub open spec fn remediation_plan(id: u64, output: OutputGeometry) -> Seq<Command> {
    match output.logical {
        Some(size) => seq![
            Command::MoveWindowToFloating { id },
            Command::SetWindowWidth { id, percent: PROPORTION_WIDTH_PERCENT },
            Command::SetWindowHeight { id, percent: PROPORTION_HEIGHT_PERCENT },
            Command::MoveFloatingWindow {
                id,
                x: anchor_x_spec(size.width) as u32,
                y: anchor_y_spec(size.height) as u32,
            },
            Command::FocusWindow { id },
        ],
        None => seq![
            Command::MoveWindowToFloating { id },
            Command::SetWindowWidth { id, percent: PROPORTION_WIDTH_PERCENT },
            Command::SetWindowHeight { id, percent: PROPORTION_HEIGHT_PERCENT },
            Command::FocusWindow { id },
        ],
    }
}

/// Plans the remediation of one window. Fails exactly when the focused
/// output is unavailable — then nothing at all is to be issued — and
/// otherwise yields the ordered command sequence.
pub fn plan_remediation(id: u64, focused: Option<OutputGeometry>) -> (r: Result<
    Vec<Command>,
    RemediationError,
>)
    ensures
        match focused {
            None => r == Err::<Vec<Command>, _>(RemediationError::FocusedOutputUnavailable),
            Some(output) => r matches Ok(commands) && commands@ == remediation_plan(id, output),
        },
{
    let output = match focused {
        None => {
            return Err(RemediationError::FocusedOutputUnavailable);
        },
        Some(output) => output,
    };
    let mut commands: Vec<Command> = Vec::new();
    commands.push(Command::MoveWindowToFloating { id });
    commands.push(Command::SetWindowWidth { id, percent: PROPORTION_WIDTH_PERCENT });
    commands.push(Command::SetWindowHeight { id, percent: PROPORTION_HEIGHT_PERCENT });
    match output.logical {
        Some(size) => {
            let (x, y) = center_anchor(size);
            commands.push(Command::MoveFloatingWindow { id, x, y });
            commands.push(Command::FocusWindow { id });
            proof {
                assert(commands@ =~= remediation_plan(id, output));
            }
        },
        None => {
            commands.push(Command::FocusWindow { id });
            proof {
                assert(commands@ =~= remediation_plan(id, output));
            }
        },
    }
    Ok(commands)
}

impl Command {
    /// Whether a failure to issue this command is tolerated: the two resize
    /// commands are best-effort, every other command's failure is an error.
    pub fn is_best_effort(&self) -> (r: bool)
        ensures
            r == (self matches Command::SetWindowWidth { .. } || self matches Command::SetWindowHeight { .. }),
    {
        match self {
            Command::SetWindowWidth { .. } => true,
            Command::SetWindowHeight { .. } => true,
            _ => false,
        }
    }
}

} // verus!
