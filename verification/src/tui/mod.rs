//! Terminal UI logic: key mapping, themes and backend explanations.

pub mod chat_view;
pub mod theme;
pub mod themes;
pub mod views;

use crate::config::BackendName;
use vstd::prelude::*;

verus! {

/// Keyboard input result.
#[derive(Debug, Clone, Copy, PartialEq, Eq, Structural)]
pub enum InputAction {
    Quit,
    Up,
    Down,
    Left,
    Right,
    Select,
    Back,
    Tab,
    Char(char),
    NoAction,
}

/// The keys the interface distinguishes.
#[derive(Debug, Clone, Copy, PartialEq, Eq, Structural)]
pub enum Key {
    Char(char),
    Up,
    Down,
    Left,
    Right,
    Enter,
    Esc,
    Backspace,
    Tab,
    Other,
}

/// A key press, with whether Control was held.
#[derive(Debug, Clone, Copy, PartialEq, Eq, Structural)]
pub struct KeyPress {
    pub key: Key,
    pub ctrl: bool,
}

/// Ctrl+C and Ctrl+Q quit and other Control chords do nothing; while text
/// is being typed every character is passed through and only Enter, Esc and
/// Backspace act; otherwise arrows and vim keys navigate and `q` quits.
pub open spec fn spec_map_key(k: KeyPress, text_input: bool) -> InputAction {
    if k.ctrl {
        match k.key {
            Key::Char(c) => if c == 'c' || c == 'q' {
                InputAction::Quit
            } else {
                InputAction::NoAction
            },
            _ => InputAction::NoAction,
        }
    } else if text_input {
        match k.key {
            Key::Enter => InputAction::Select,
            Key::Esc => InputAction::Back,
            Key::Backspace => InputAction::Back,
            Key::Char(c) => InputAction::Char(c),
            _ => InputAction::NoAction,
        }
    } else {
        match k.key {
            Key::Char(c) => if c == 'q' {
                InputAction::Quit
            } else if c == 'k' {
                InputAction::Up
            } else if c == 'j' {
                InputAction::Down
            } else if c == 'h' {
                InputAction::Left
            } else if c == 'l' {
                InputAction::Right
            } else {
                InputAction::Char(c)
            },
            Key::Up => InputAction::Up,
            Key::Down => InputAction::Down,
            Key::Left => InputAction::Left,
            Key::Right => InputAction::Right,
            Key::Enter => InputAction::Select,
            Key::Esc => InputAction::Back,
            Key::Backspace => InputAction::Back,
            Key::Tab => InputAction::Tab,
            Key::Other => InputAction::NoAction,
        }
    }
}

/// Map a key press to an input action.
pub fn map_key(key: KeyPress, text_input: bool) -> (r: InputAction)
    ensures
        r == spec_map_key(key, text_input),
{
    if key.ctrl {
        return match key.key {
            Key::Char(c) => if c == 'c' || c == 'q' {
                InputAction::Quit
            } else {
                InputAction::NoAction
            },
            _ => InputAction::NoAction,
        };
    }
    if text_input {
        return match key.key {
            Key::Enter => InputAction::Select,
            Key::Esc => InputAction::Back,
            Key::Backspace => InputAction::Back,
            Key::Char(c) => InputAction::Char(c),
            _ => InputAction::NoAction,
        };
    }
    match key.key {
        Key::Char(c) => if c == 'q' {
            InputAction::Quit
        } else if c == 'k' {
            InputAction::Up
        } else if c == 'j' {
            InputAction::Down
        } else if c == 'h' {
            InputAction::Left
        } else if c == 'l' {
            InputAction::Right
        } else {
            InputAction::Char(c)
        },
        Key::Up => InputAction::Up,
        Key::Down => InputAction::Down,
        Key::Left => InputAction::Left,
        Key::Right => InputAction::Right,
        Key::Enter => InputAction::Select,
        Key::Esc => InputAction::Back,
        Key::Backspace => InputAction::Back,
        Key::Tab => InputAction::Tab,
        Key::Other => InputAction::NoAction,
    }
}

/// While text is typed, no plain character quits or navigates: each one
/// arrives as itself.
pub proof fn lemma_text_input_passes_chars(c: char)
    ensures
        spec_map_key(KeyPress { key: Key::Char(c), ctrl: false }, true) == InputAction::Char(c),
{
}

/// One-line explanation of a backend.
pub fn backend_description(b: BackendName) -> (r: &'static str)
    ensures
        r@ == match b {
            BackendName::Cuda => "NVIDIA GPU acceleration via CUDA. Best for NVIDIA cards with compute capability >= 6.0"@,
            BackendName::Hip => "AMD GPU acceleration via ROCm/HIP. Requires ROCm driver stack"@,
            BackendName::Metal => "Apple Silicon GPU via Metal. Native on macOS with M-series chips"@,
            BackendName::Vulkan => "Cross-platform GPU via Vulkan. Works with Intel, AMD, and NVIDIA"@,
            BackendName::OpenBlas => "CPU with BLAS acceleration. Requires OpenBLAS library installed"@,
            BackendName::CpuOnly => "Pure CPU build with native instruction optimisation. No dependencies"@,
        },
{
    match b {
        BackendName::Cuda => "NVIDIA GPU acceleration via CUDA. Best for NVIDIA cards with compute capability >= 6.0",
        BackendName::Hip => "AMD GPU acceleration via ROCm/HIP. Requires ROCm driver stack",
        BackendName::Metal => "Apple Silicon GPU via Metal. Native on macOS with M-series chips",
        BackendName::Vulkan => "Cross-platform GPU via Vulkan. Works with Intel, AMD, and NVIDIA",
        BackendName::OpenBlas => "CPU with BLAS acceleration. Requires OpenBLAS library installed",
        BackendName::CpuOnly => "Pure CPU build with native instruction optimisation. No dependencies",
    }
}

} // verus!
