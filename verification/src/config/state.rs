//! The persisted wizard state (`state.toml`) and the user's expertise level.

use super::{data_dir_or_default, in_app_dir, platform_data_dir, state_path_for};
use vstd::prelude::*;

verus! {

#[derive(Debug, Clone, Copy, PartialEq, Eq, Structural)]
pub enum ExpertiseLevel {
    Beginner,
    Intermediate,
    Expert,
}

impl Default for ExpertiseLevel {
    fn default() -> (r: Self)
        ensures
            r == ExpertiseLevel::Intermediate,
    {
        ExpertiseLevel::Intermediate
    }
}

impl ExpertiseLevel {
    pub fn as_str(&self) -> (r: &'static str)
        ensures
            r@ == match *self {
                ExpertiseLevel::Beginner => "Beginner"@,
                ExpertiseLevel::Intermediate => "Intermediate"@,
                ExpertiseLevel::Expert => "Expert"@,
            },
    {
        match self {
            ExpertiseLevel::Beginner => "Beginner",
            ExpertiseLevel::Intermediate => "Intermediate",
            ExpertiseLevel::Expert => "Expert",
        }
    }

    pub fn description(&self) -> (r: &'static str)
        ensures
            r@ == match *self {
                ExpertiseLevel::Beginner => "Show more explanations, hide advanced options"@,
                ExpertiseLevel::Intermediate => "Show recommendations, allow overrides"@,
                ExpertiseLevel::Expert => "Show all flags and internals, minimal hand-holding"@,
            },
    {
        match self {
            ExpertiseLevel::Beginner => "Show more explanations, hide advanced options",
            ExpertiseLevel::Intermediate => "Show recommendations, allow overrides",
            ExpertiseLevel::Expert => "Show all flags and internals, minimal hand-holding",
        }
    }

    pub fn all() -> (r: &'static [ExpertiseLevel])
        ensures
            r@ == seq![
                ExpertiseLevel::Beginner,
                ExpertiseLevel::Intermediate,
                ExpertiseLevel::Expert,
            ],
    {
        &[ExpertiseLevel::Beginner, ExpertiseLevel::Intermediate, ExpertiseLevel::Expert]
    }
}

#[derive(Debug, Clone)]
pub struct AppState {
    pub expertise: ExpertiseLevel,
    pub setup_complete: bool,
    pub build_complete: bool,
    pub llama_swap_installed: bool,
    pub downloaded_models: Vec<String>,
    pub active_model: Option<String>,
    pub server_running: bool,
}

impl Default for AppState {
    fn default() -> (r: Self)
        ensures
            r.expertise == ExpertiseLevel::Intermediate,
            !r.setup_complete,
            !r.build_complete,
            !r.llama_swap_installed,
            r.downloaded_models@.len() == 0,
            r.active_model is None,
            !r.server_running,
    {
        AppState {
            expertise: ExpertiseLevel::Intermediate,
            setup_complete: false,
            build_complete: false,
            llama_swap_installed: false,
            downloaded_models: Vec::new(),
            active_model: None,
            server_running: false,
        }
    }
}

impl AppState {
    /// Where the wizard state is kept on this machine:
    /// `localforge/state.toml` under its data directory.
    pub fn default_path() -> (r: String)
        ensures
            exists|d: Seq<char>| in_app_dir(d, "state.toml"@, r@),
    {
        let data_dir = platform_data_dir();
        let r = state_path_for(data_dir);
        assert(in_app_dir(data_dir_or_default(data_dir), "state.toml"@, r@));
        r
    }
}

} // verus!
