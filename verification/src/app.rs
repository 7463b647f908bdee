//! The setup wizard and workspace navigation: which screen shows, what each
//! key does there, and which outside work (saving, detection, search, the
//! build) a key press asks for.

use crate::build::BuildPhase;
use crate::compute::kv_cache::KV_DTYPE;
use crate::compute::slot_advisor::{
    advisable, spec_recommend as spec_slot_recommend, SlotAdvisor, SlotAdvisorInput,
    SlotRecommendation,
};
use crate::config::backends::{
    auto_select, available_backends, lemma_auto_choice_available, make_backend,
    map_compute_capability, spec_auto_name, spec_available, spec_map_cc,
};
use crate::config::cmake::{spec_cmake_flags, spec_resolve_cuda_arch};
use crate::config::{backend_label, AppState, Backend, BackendName, ExpertiseLevel};
use crate::hardware::{spec_format_memory, HardwareInfo};
use crate::inference::session::{ChatMessage, ChatRole, ChatSession};
use crate::models::fit::{fits_of, score_fit, spec_fit_of, FitLevel};
use crate::models::registry::{entries_view, recommend, spec_recommend};
use crate::models::{ModelEntry, ModelSpec, SearchResult};
use crate::server::config::ServerConfig;
use crate::text::{
    decimal, opt_view, parse_u64, parse_unsigned, push_decimal, string_of, strings_view,
};
use crate::tui::InputAction;
use vstd::prelude::*;
use vstd::string::*;

verus! {

/// The screens the TUI can display.
#[derive(Debug, Clone, Copy, PartialEq, Eq, Structural)]
pub enum Screen {
    Welcome,
    Hardware,
    Backend,
    LlamaSwap,
    Models,
    Install,
    Summary,
    Chat,
    Settings,
    Logs,
}

/// Outside work a key press asks for.
#[derive(Debug)]
pub enum Effect {
    Nothing,
    /// Persist the wizard state, then detect the hardware and report back
    /// with `on_hardware_detected`.
    SaveStateAndDetectHardware,
    /// Search HuggingFace for this query and report back with
    /// `on_search_results`.
    Search(String),
    /// Build llama.cpp for `hw` with `selected_backend` (both present) and
    /// report back with `on_build_log`, `on_build_phase`, `on_build_done`.
    StartBuild,
}

/// The abstract form of an effect.
pub enum EffectView {
    Nothing,
    SaveStateAndDetectHardware,
    Search(Seq<char>),
    StartBuild,
}

pub open spec fn effect_view(e: Effect) -> EffectView {
    match e {
        Effect::Nothing => EffectView::Nothing,
        Effect::SaveStateAndDetectHardware => EffectView::SaveStateAndDetectHardware,
        Effect::Search(q) => EffectView::Search(q@),
        Effect::StartBuild => EffectView::StartBuild,
    }
}

/// The abstract content of a backend.
pub struct BackendView {
    pub name: BackendName,
    pub description: Seq<char>,
    pub cmake_flags: Seq<Seq<char>>,
    pub cuda_arch: Option<Seq<char>>,
}

pub open spec fn backend_view(b: Backend) -> BackendView {
    BackendView {
        name: b.name,
        description: b.description@,
        cmake_flags: strings_view(b.cmake_flags@),
        cuda_arch: opt_view(b.cuda_arch),
    }
}

/// Application state of the interface, apart from the build progress bar
/// and the channel from the build thread.
pub struct Wizard {
    pub screen: Screen,
    pub state: AppState,
    pub expertise_idx: usize,
    pub detected_platform: String,
    pub hw: Option<HardwareInfo>,
    /// Architectures the installed `nvcc` supports, highest last.
    pub nvcc_archs: Vec<String>,
    // VRAM override
    pub vram_override: Option<u64>,
    pub editing_vram: bool,
    pub vram_input: Vec<char>,
    // Backend selection
    pub backends: Vec<BackendName>,
    pub backend_idx: usize,
    pub selected_backend: Option<Backend>,
    pub recommended_backend: Option<BackendName>,
    // llama-swap
    pub llama_swap_idx: usize,
    pub llama_swap_installed: bool,
    // Models
    pub models: Vec<ModelEntry>,
    pub model_fits: Vec<FitLevel>,
    pub model_checked: Vec<bool>,
    pub model_idx: usize,
    pub selected_model: Option<ModelEntry>,
    pub search_query: Vec<char>,
    pub is_searching: bool,
    // Build
    pub build_log: Vec<String>,
    pub build_phase: BuildPhase,
    pub build_done: bool,
    pub build_ok: bool,
    // Chat state
    pub chat_session: ChatSession,
    pub chat_input: Vec<char>,
    pub chat_scroll: usize,
    pub is_generating: bool,
    // Settings state
    pub server_config: ServerConfig,
    pub settings_row: usize,
    pub slot_recommendation: Option<SlotRecommendation>,
    // Log viewer state
    pub log_lines: Vec<String>,
    pub log_scroll: usize,
    pub log_filter: Vec<char>,
    pub should_quit: bool,
}

/// The abstract content of the wizard.
pub struct WizardView {
    pub screen: Screen,
    pub state: AppState,
    pub expertise_idx: usize,
    pub detected_platform: Seq<char>,
    pub hw: Option<HardwareInfo>,
    pub nvcc_archs: Seq<Seq<char>>,
    pub vram_override: Option<u64>,
    pub editing_vram: bool,
    pub vram_input: Seq<char>,
    pub backends: Seq<BackendName>,
    pub backend_idx: usize,
    pub selected_backend: Option<BackendView>,
    pub recommended_backend: Option<BackendName>,
    pub llama_swap_idx: usize,
    pub llama_swap_installed: bool,
    pub models: Seq<ModelSpec>,
    pub model_fits: Seq<FitLevel>,
    pub model_checked: Seq<bool>,
    pub model_idx: usize,
    pub selected_model: Option<ModelSpec>,
    pub search_query: Seq<char>,
    pub is_searching: bool,
    pub build_log: Seq<Seq<char>>,
    pub build_phase: BuildPhase,
    pub build_done: bool,
    pub build_ok: bool,
    pub messages: Seq<(ChatRole, Seq<char>)>,
    pub system_prompt: Option<Seq<char>>,
    pub max_context: usize,
    pub chat_input: Seq<char>,
    pub chat_scroll: usize,
    pub is_generating: bool,
    pub server_config: ServerConfig,
    pub settings_row: usize,
    pub slot_recommendation: Option<SlotRecommendation>,
    pub log_lines: Seq<Seq<char>>,
    pub log_scroll: usize,
    pub log_filter: Seq<char>,
    pub should_quit: bool,
}

pub open spec fn messages_view(m: Seq<ChatMessage>) -> Seq<(ChatRole, Seq<char>)> {
    m.map_values(|x: ChatMessage| (x.role, x.content@))
}

impl View for Wizard {
    type V = WizardView;

    open spec fn view(&self) -> WizardView {
        WizardView {
            screen: self.screen,
            state: self.state,
            expertise_idx: self.expertise_idx,
            detected_platform: self.detected_platform@,
            hw: self.hw,
            nvcc_archs: strings_view(self.nvcc_archs@),
            vram_override: self.vram_override,
            editing_vram: self.editing_vram,
            vram_input: self.vram_input@,
            backends: self.backends@,
            backend_idx: self.backend_idx,
            selected_backend: match self.selected_backend {
                Some(b) => Some(backend_view(b)),
                None => None,
            },
            recommended_backend: self.recommended_backend,
            llama_swap_idx: self.llama_swap_idx,
            llama_swap_installed: self.llama_swap_installed,
            models: entries_view(self.models@),
            model_fits: self.model_fits@,
            model_checked: self.model_checked@,
            model_idx: self.model_idx,
            selected_model: match self.selected_model {
                Some(m) => Some(m@),
                None => None,
            },
            search_query: self.search_query@,
            is_searching: self.is_searching,
            build_log: strings_view(self.build_log@),
            build_phase: self.build_phase,
            build_done: self.build_done,
            build_ok: self.build_ok,
            messages: messages_view(self.chat_session.messages@),
            system_prompt: opt_view(self.chat_session.system_prompt),
            max_context: self.chat_session.max_context,
            chat_input: self.chat_input@,
            chat_scroll: self.chat_scroll,
            is_generating: self.is_generating,
            server_config: self.server_config,
            settings_row: self.settings_row,
            slot_recommendation: self.slot_recommendation,
            log_lines: strings_view(self.log_lines@),
            log_scroll: self.log_scroll,
            log_filter: self.log_filter@,
            should_quit: self.should_quit,
        }
    }
}

// ---------------------------------------------------------------------------
// The transition rules
// ---------------------------------------------------------------------------

/// The expertise level at a position of the selector.
pub open spec fn expertise_at(i: int) -> ExpertiseLevel {
    if i == 0 {
        ExpertiseLevel::Beginner
    } else if i == 1 {
        ExpertiseLevel::Intermediate
    } else {
        ExpertiseLevel::Expert
    }
}

/// The selector position of an expertise level.
pub open spec fn expertise_index(e: ExpertiseLevel) -> usize {
    match e {
        ExpertiseLevel::Beginner => 0,
        ExpertiseLevel::Intermediate => 1,
        ExpertiseLevel::Expert => 2,
    }
}

/// VRAM in MB the wizard works with: the user's override, else the detected
/// GPU's, else none.
pub open spec fn effective_vram(v: WizardView) -> u64 {
    match v.vram_override {
        Some(x) => x,
        None => match v.hw {
            Some(h) => h.gpu.vram_mb,
            None => 0,
        },
    }
}

/// RAM in MB the wizard works with: the detected total, else none.
pub open spec fn effective_ram(v: WizardView) -> u64 {
    match v.hw {
        Some(h) => h.memory.total_mb,
        None => 0,
    }
}

/// The fits of the listed models re-scored for the current memory.
pub open spec fn with_fits(v: WizardView) -> WizardView {
    WizardView { model_fits: fits_of(v.models, effective_vram(v), effective_ram(v)), ..v }
}

/// The recommended models, scored, none checked, the first selected.
pub open spec fn populated(v: WizardView) -> WizardView {
    let models = spec_recommend(effective_vram(v), effective_ram(v));
    WizardView {
        models,
        model_fits: fits_of(models, effective_vram(v), effective_ram(v)),
        model_checked: Seq::new(models.len(), |i: int| false),
        model_idx: 0,
        ..v
    }
}

/// Entering the install screen: a fresh build log, and the build started
/// when hardware and a backend are known.
pub open spec fn build_started(v: WizardView) -> (WizardView, EffectView) {
    let w = WizardView {
        screen: Screen::Install,
        build_log: seq![],
        build_phase: BuildPhase::Clone,
        build_done: false,
        build_ok: false,
        ..v
    };
    if v.hw is Some && v.selected_backend is Some {
        (w, EffectView::StartBuild)
    } else {
        (
            WizardView {
                build_log: seq!["Missing hardware or backend info."@],
                build_done: true,
                ..w
            },
            EffectView::Nothing,
        )
    }
}

pub open spec fn spec_welcome(v: WizardView, a: InputAction) -> (WizardView, EffectView) {
    match a {
        InputAction::Up => (
            if v.expertise_idx > 0 {
                WizardView { expertise_idx: (v.expertise_idx - 1) as usize, ..v }
            } else {
                v
            },
            EffectView::Nothing,
        ),
        InputAction::Down => (
            if v.expertise_idx + 1 < 3 {
                WizardView { expertise_idx: (v.expertise_idx + 1) as usize, ..v }
            } else {
                v
            },
            EffectView::Nothing,
        ),
        InputAction::Select => (
            if v.expertise_idx < 3 {
                WizardView {
                    state: AppState { expertise: expertise_at(v.expertise_idx as int), ..v.state },
                    ..v
                }
            } else {
                v
            },
            EffectView::SaveStateAndDetectHardware,
        ),
        _ => (v, EffectView::Nothing),
    }
}

pub open spec fn is_ascii_digit(c: char) -> bool {
    '0' <= c && c <= '9'
}

pub open spec fn spec_hardware(v: WizardView, a: InputAction) -> WizardView {
    if v.editing_vram {
        match a {
            InputAction::Char(c) => if is_ascii_digit(c) {
                WizardView { vram_input: v.vram_input.push(c), ..v }
            } else {
                v
            },
            InputAction::Back => if v.vram_input.len() == 0 {
                WizardView { editing_vram: false, ..v }
            } else {
                WizardView { vram_input: v.vram_input.drop_last(), ..v }
            },
            InputAction::Select => {
                let o = match parse_unsigned(v.vram_input, u64::MAX as nat) {
                    Some(val) => if val > 0 {
                        Some(val as u64)
                    } else {
                        v.vram_override
                    },
                    None => v.vram_override,
                };
                WizardView { vram_override: o, editing_vram: false, vram_input: seq![], ..v }
            },
            _ => v,
        }
    } else {
        match a {
            InputAction::Char(c) => if c == 'v' || c == 'V' {
                WizardView { editing_vram: true, vram_input: seq![], ..v }
            } else if c == 'r' || c == 'R' {
                WizardView { vram_override: None, ..v }
            } else {
                v
            },
            InputAction::Select => WizardView { screen: Screen::Backend, ..v },
            InputAction::Back => WizardView { screen: Screen::Welcome, ..v },
            _ => v,
        }
    }
}

/// The backend chosen from the list, with the GPU's compute capability as
/// its CUDA architecture.
pub open spec fn chosen_backend(v: WizardView, name: BackendName) -> BackendView {
    let arch = match v.hw {
        Some(h) => spec_map_cc(opt_view(h.gpu.compute_capability)),
        None => None,
    };
    BackendView {
        name,
        description: backend_label(name),
        cmake_flags: spec_cmake_flags(name, spec_resolve_cuda_arch(arch, v.nvcc_archs)),
        cuda_arch: arch,
    }
}

pub open spec fn spec_backend(v: WizardView, a: InputAction) -> WizardView {
    match a {
        InputAction::Up => if v.backend_idx > 0 {
            WizardView { backend_idx: (v.backend_idx - 1) as usize, ..v }
        } else {
            v
        },
        InputAction::Down => if v.backend_idx + 1 < v.backends.len() {
            WizardView { backend_idx: (v.backend_idx + 1) as usize, ..v }
        } else {
            v
        },
        InputAction::Select => if v.backend_idx < v.backends.len() {
            WizardView {
                selected_backend: Some(chosen_backend(v, v.backends[v.backend_idx as int])),
                llama_swap_idx: 0,
                screen: Screen::LlamaSwap,
                ..v
            }
        } else {
            v
        },
        InputAction::Back => WizardView { screen: Screen::Hardware, ..v },
        _ => v,
    }
}

pub open spec fn spec_llama_swap(v: WizardView, a: InputAction) -> WizardView {
    match a {
        InputAction::Up => if v.llama_swap_idx > 0 {
            WizardView { llama_swap_idx: (v.llama_swap_idx - 1) as usize, ..v }
        } else {
            v
        },
        InputAction::Down => if v.llama_swap_idx < 1 {
            WizardView { llama_swap_idx: (v.llama_swap_idx + 1) as usize, ..v }
        } else {
            v
        },
        InputAction::Select => if v.llama_swap_installed {
            WizardView { screen: Screen::Models, ..populated(v) }
        } else if v.llama_swap_idx == 0 {
            WizardView { llama_swap_installed: true, llama_swap_idx: 0, ..v }
        } else {
            WizardView { screen: Screen::Models, ..populated(v) }
        },
        InputAction::Back => WizardView { screen: Screen::Backend, ..v },
        _ => v,
    }
}

/// The first checked position that names a listed model, if any.
pub open spec fn first_checked(checked: Seq<bool>, n: int) -> Option<int>
    decreases checked.len(),
{
    if checked.len() == 0 {
        None
    } else {
        match first_checked(checked.drop_last(), n) {
            Some(i) => Some(i),
            None => if checked.last() && checked.len() - 1 < n {
                Some(checked.len() - 1)
            } else {
                None
            },
        }
    }
}

/// A key on the models screen while the search query is being typed.
pub open spec fn spec_models_searching(v: WizardView, a: InputAction) -> (WizardView, EffectView) {
    match a {
        InputAction::Char(c) => (WizardView { search_query: v.search_query.push(c), ..v }, EffectView::Nothing),
        InputAction::Back => (
            if v.search_query.len() == 0 {
                WizardView { is_searching: false, ..v }
            } else {
                WizardView { search_query: v.search_query.drop_last(), ..v }
            },
            EffectView::Nothing,
        ),
        InputAction::Select => (
            WizardView { is_searching: false, ..v },
            if v.search_query.len() > 0 {
                EffectView::Search(v.search_query)
            } else {
                EffectView::Nothing
            },
        ),
        _ => (v, EffectView::Nothing),
    }
}

/// The model chosen on Enter: the first checked one, else the one under the
/// cursor, else the previous choice.
pub open spec fn model_choice(v: WizardView) -> Option<ModelSpec> {
    match first_checked(v.model_checked, v.models.len() as int) {
        Some(i) => Some(v.models[i]),
        None => if v.model_idx < v.models.len() {
            Some(v.models[v.model_idx as int])
        } else {
            v.selected_model
        },
    }
}

/// A key on the models screen while browsing the list.
pub open spec fn spec_models_browsing(v: WizardView, a: InputAction) -> (WizardView, EffectView) {
    match a {
        InputAction::Up => (
            if v.model_idx > 0 {
                WizardView { model_idx: (v.model_idx - 1) as usize, ..v }
            } else {
                v
            },
            EffectView::Nothing,
        ),
        InputAction::Down => (
            if v.model_idx + 1 < v.models.len() {
                WizardView { model_idx: (v.model_idx + 1) as usize, ..v }
            } else {
                v
            },
            EffectView::Nothing,
        ),
        InputAction::Char(c) => if c == ' ' {
            (
                if v.model_idx < v.model_checked.len() {
                    WizardView {
                        model_checked: v.model_checked.update(
                            v.model_idx as int,
                            !v.model_checked[v.model_idx as int],
                        ),
                        ..v
                    }
                } else {
                    v
                },
                EffectView::Nothing,
            )
        } else if c == '/' {
            (WizardView { is_searching: true, search_query: seq![], ..v }, EffectView::Nothing)
        } else if c == 's' || c == 'S' {
            build_started(WizardView { selected_model: None, ..v })
        } else {
            (v, EffectView::Nothing)
        },
        InputAction::Select => build_started(WizardView { selected_model: model_choice(v), ..v }),
        InputAction::Back => (
            if v.search_query.len() > 0 {
                populated(WizardView { search_query: seq![], ..v })
            } else {
                WizardView { screen: Screen::LlamaSwap, ..v }
            },
            EffectView::Nothing,
        ),
        _ => (v, EffectView::Nothing),
    }
}

pub open spec fn spec_models(v: WizardView, a: InputAction) -> (WizardView, EffectView) {
    if v.is_searching {
        spec_models_searching(v, a)
    } else {
        spec_models_browsing(v, a)
    }
}

/// The slot advice for the selected model (2 GB when none) on the
/// effective VRAM, for one user with an F16 cache over the chat context.
pub open spec fn slot_input(v: WizardView) -> SlotAdvisorInput {
    SlotAdvisorInput {
        model_size_mb: match v.selected_model {
            Some(m) => m.min_vram_mb as usize,
            None => 2048,
        },
        total_vram_mb: effective_vram(v) as usize,
        context_length: v.max_context,
        kv_dtype: KV_DTYPE::F16,
        target_concurrent_users: 1,
    }
}

pub open spec fn spec_summary(v: WizardView, a: InputAction) -> WizardView {
    match a {
        InputAction::Select => WizardView {
            slot_recommendation: if advisable(slot_input(v)) {
                Some(spec_slot_recommend(slot_input(v)))
            } else {
                None
            },
            screen: Screen::Chat,
            ..v
        },
        InputAction::Back => WizardView { should_quit: true, ..v },
        _ => v,
    }
}

pub open spec fn placeholder_reply() -> Seq<char> {
    "(Inference engine not connected yet — this is a placeholder response.)"@
}

pub open spec fn spec_chat(v: WizardView, a: InputAction) -> WizardView {
    match a {
        InputAction::Char(c) => if !v.is_generating {
            WizardView { chat_input: v.chat_input.push(c), ..v }
        } else {
            v
        },
        InputAction::Back => if v.chat_input.len() > 0 {
            WizardView { chat_input: v.chat_input.drop_last(), ..v }
        } else {
            WizardView { screen: Screen::Summary, ..v }
        },
        InputAction::Select => if !v.is_generating && v.chat_input.len() > 0 {
            WizardView {
                messages: v.messages.push((ChatRole::User, v.chat_input)).push(
                    (ChatRole::Assistant, placeholder_reply()),
                ),
                chat_input: seq![],
                chat_scroll: 0,
                ..v
            }
        } else {
            v
        },
        InputAction::Up => WizardView {
            chat_scroll: if v.chat_scroll + 3 <= usize::MAX {
                (v.chat_scroll + 3) as usize
            } else {
                usize::MAX
            },
            ..v
        },
        InputAction::Down => WizardView {
            chat_scroll: if v.chat_scroll >= 3 {
                (v.chat_scroll - 3) as usize
            } else {
                0
            },
            ..v
        },
        InputAction::Tab => WizardView { screen: Screen::Settings, ..v },
        _ => v,
    }
}

pub open spec fn spec_settings(v: WizardView, a: InputAction) -> WizardView {
    match a {
        InputAction::Up => if v.settings_row > 0 {
            WizardView { settings_row: (v.settings_row - 1) as usize, ..v }
        } else {
            v
        },
        InputAction::Down => if v.settings_row < 4 {
            WizardView { settings_row: (v.settings_row + 1) as usize, ..v }
        } else {
            v
        },
        InputAction::Char(c) => if c == 'l' || c == 'L' {
            WizardView { log_scroll: 0, screen: Screen::Logs, ..v }
        } else {
            v
        },
        InputAction::Tab => WizardView { screen: Screen::Chat, ..v },
        InputAction::Back => WizardView { screen: Screen::Chat, ..v },
        _ => v,
    }
}

pub open spec fn spec_logs(v: WizardView, a: InputAction) -> WizardView {
    match a {
        InputAction::Up => WizardView {
            log_scroll: if v.log_scroll + 3 <= usize::MAX {
                (v.log_scroll + 3) as usize
            } else {
                usize::MAX
            },
            ..v
        },
        InputAction::Down => WizardView {
            log_scroll: if v.log_scroll >= 3 {
                (v.log_scroll - 3) as usize
            } else {
                0
            },
            ..v
        },
        InputAction::Char(c) => if c == 'e' || c == 'E' {
            WizardView { log_filter: "ERROR"@, log_scroll: 0, ..v }
        } else if c == 'w' || c == 'W' {
            WizardView { log_filter: "WARN"@, log_scroll: 0, ..v }
        } else if c == 'i' || c == 'I' {
            WizardView { log_filter: "INFO"@, log_scroll: 0, ..v }
        } else if c == 'd' || c == 'D' {
            WizardView { log_filter: "DEBUG"@, log_scroll: 0, ..v }
        } else if c == 'c' || c == 'C' {
            WizardView { log_filter: seq![], log_scroll: 0, ..v }
        } else {
            v
        },
        InputAction::Back => WizardView { screen: Screen::Settings, ..v },
        InputAction::Tab => WizardView { screen: Screen::Settings, ..v },
        _ => v,
    }
}

/// One key press: Quit ends the program from any screen; every other
/// action goes to the current screen.
pub open spec fn spec_handle_input(v: WizardView, a: InputAction) -> (WizardView, EffectView) {
    if a == InputAction::Quit {
        (WizardView { should_quit: true, ..v }, EffectView::Nothing)
    } else {
        match v.screen {
            Screen::Welcome => spec_welcome(v, a),
            Screen::Hardware => (spec_hardware(v, a), EffectView::Nothing),
            Screen::Backend => (spec_backend(v, a), EffectView::Nothing),
            Screen::LlamaSwap => (spec_llama_swap(v, a), EffectView::Nothing),
            Screen::Models => spec_models(v, a),
            Screen::Install => (
                if v.build_done && a == InputAction::Select {
                    WizardView { screen: Screen::Summary, ..v }
                } else {
                    v
                },
                EffectView::Nothing,
            ),
            Screen::Summary => (spec_summary(v, a), EffectView::Nothing),
            Screen::Chat => (spec_chat(v, a), EffectView::Nothing),
            Screen::Settings => (spec_settings(v, a), EffectView::Nothing),
            Screen::Logs => (spec_logs(v, a), EffectView::Nothing),
        }
    }
}

/// The first position of `x` in `s`.
pub open spec fn first_index(s: Seq<BackendName>, x: BackendName) -> Option<int>
    decreases s.len(),
{
    if s.len() == 0 {
        None
    } else {
        match first_index(s.drop_last(), x) {
            Some(i) => Some(i),
            None => if s.last() == x {
                Some(s.len() - 1)
            } else {
                None
            },
        }
    }
}

/// What detection reports: the hardware is recorded with the backends it
/// offers, the one recommended for it preselected, and the platform line
/// updated; a failure is added to the build log.
pub open spec fn spec_detected(
    v: WizardView,
    result: core::result::Result<HardwareInfo, Seq<char>>,
    nvcc_archs: Seq<Seq<char>>,
) -> WizardView {
    match result {
        Ok(hw) => {
            let rec = spec_auto_name(hw);
            let backends = spec_available(hw);
            WizardView {
                backends,
                recommended_backend: Some(rec),
                backend_idx: match first_index(backends, rec) {
                    Some(i) => i as usize,
                    None => v.backend_idx,
                },
                detected_platform: hw.os@ + " | "@ + hw.gpu.name@ + " | "@ + spec_format_memory(
                    hw.gpu.vram_mb,
                ) + " VRAM"@,
                hw: Some(hw),
                nvcc_archs,
                screen: Screen::Hardware,
                ..v
            }
        },
        Err(e) => WizardView {
            build_log: v.build_log.push("Hardware detection failed: "@ + e),
            ..v
        },
    }
}

/// A search hit listed as a model entry.
pub open spec fn search_entry(r: SearchResult) -> ModelSpec {
    ModelSpec {
        name: r.id@,
        repo: r.id@,
        params: "?"@,
        quantization: "Q4_K_M"@,
        size_label: decimal(r.downloads as nat) + " downloads"@,
        context_length: "?"@,
        min_vram_mb: 0,
        min_ram_mb: 0,
        description: "HuggingFace search result"@,
        estimated_toks: "—"@,
    }
}

/// What a search reports: hits replace the list, re-scored with the first
/// selected; no hits or a failure clear the query.
pub open spec fn spec_searched(v: WizardView, result: core::result::Result<Seq<SearchResult>, Seq<char>>) -> WizardView {
    match result {
        Ok(results) => if results.len() > 0 {
            with_fits(
                WizardView {
                    models: results.map_values(|r: SearchResult| search_entry(r)),
                    model_idx: 0,
                    ..v
                },
            )
        } else {
            WizardView { search_query: seq![], ..v }
        },
        Err(_) => WizardView { search_query: seq![], ..v },
    }
}

/// The wizard as it starts: on the welcome screen with the persisted state
/// and the expertise cursor on its level, nothing detected, chosen, typed or
/// logged yet, a 4096-token chat context, and the server settings at their
/// defaults (127.0.0.1:8080, no TLS, no keys).
pub open spec fn is_initial(v: WizardView, state: AppState, platform: Seq<char>) -> bool {
    &&& v.screen == Screen::Welcome
    &&& v.state == state
    &&& v.expertise_idx == expertise_index(state.expertise)
    &&& v.detected_platform == platform
    &&& v.hw is None
    &&& v.nvcc_archs.len() == 0
    &&& v.vram_override is None
    &&& !v.editing_vram
    &&& v.vram_input.len() == 0
    &&& v.backends.len() == 0
    &&& v.backend_idx == 0
    &&& v.selected_backend is None
    &&& v.recommended_backend is None
    &&& v.llama_swap_idx == 0
    &&& !v.llama_swap_installed
    &&& v.models.len() == 0
    &&& v.model_fits.len() == 0
    &&& v.model_checked.len() == 0
    &&& v.model_idx == 0
    &&& v.selected_model is None
    &&& v.search_query.len() == 0
    &&& !v.is_searching
    &&& v.build_log.len() == 0
    &&& v.build_phase == BuildPhase::Clone
    &&& !v.build_done
    &&& !v.build_ok
    &&& v.messages.len() == 0
    &&& v.system_prompt is None
    &&& v.max_context == 4096
    &&& v.chat_input.len() == 0
    &&& v.chat_scroll == 0
    &&& !v.is_generating
    &&& v.server_config.host@ == "127.0.0.1"@
    &&& v.server_config.port == 8080
    &&& v.server_config.tls is None
    &&& v.server_config.api_keys@.len() == 0
    &&& v.settings_row == 0
    &&& v.slot_recommendation is None
    &&& v.log_lines.len() == 0
    &&& v.log_scroll == 0
    &&& v.log_filter.len() == 0
    &&& !v.should_quit
}

// ---------------------------------------------------------------------------
// The executable wizard
// ---------------------------------------------------------------------------

fn copy_model(m: &Option<ModelEntry>) -> (r: Option<ModelEntry>)
    ensures
        match r {
            Some(x) => m matches Some(y) && x@ == y@,
            None => m is None,
        },
{
    match m {
        Some(x) => Some(x.duplicate()),
        None => None,
    }
}

/// The expertise level at a position of the selector.
fn expertise_level_at(i: usize) -> (r: ExpertiseLevel)
    requires
        i < 3,
    ensures
        r == expertise_at(i as int),
{
    let levels = ExpertiseLevel::all();
    levels[i]
}

impl Wizard {
    /// The wizard at its welcome screen, with the persisted state and a
    /// first platform line.
    pub fn new(state: AppState, detected_platform: String) -> (r: Self)
        ensures
            is_initial(r@, state, detected_platform@),
    {
        let expertise_idx = match state.expertise {
            ExpertiseLevel::Beginner => 0,
            ExpertiseLevel::Intermediate => 1,
            ExpertiseLevel::Expert => 2,
        };
        Wizard {
            screen: Screen::Welcome,
            state,
            expertise_idx,
            detected_platform,
            hw: None,
            nvcc_archs: Vec::new(),
            vram_override: None,
            editing_vram: false,
            vram_input: Vec::new(),
            backends: Vec::new(),
            backend_idx: 0,
            selected_backend: None,
            recommended_backend: None,
            llama_swap_idx: 0,
            llama_swap_installed: false,
            models: Vec::new(),
            model_fits: Vec::new(),
            model_checked: Vec::new(),
            model_idx: 0,
            selected_model: None,
            search_query: Vec::new(),
            is_searching: false,
            build_log: Vec::new(),
            build_phase: BuildPhase::Clone,
            build_done: false,
            build_ok: false,
            chat_session: ChatSession::new(4096),
            chat_input: Vec::new(),
            chat_scroll: 0,
            is_generating: false,
            server_config: ServerConfig::default(),
            settings_row: 0,
            slot_recommendation: None,
            log_lines: Vec::new(),
            log_scroll: 0,
            log_filter: Vec::new(),
            should_quit: false,
        }
    }

    /// Effective VRAM in MB (user override or detected).
    pub fn effective_vram(&self) -> (r: u64)
        ensures
            r == effective_vram(self@),
    {
        match self.vram_override {
            Some(x) => x,
            None => match &self.hw {
                Some(h) => h.gpu.vram_mb,
                None => 0,
            },
        }
    }

    /// Effective RAM in MB.
    pub fn effective_ram(&self) -> (r: u64)
        ensures
            r == effective_ram(self@),
    {
        match &self.hw {
            Some(h) => h.memory.total_mb,
            None => 0,
        }
    }

    /// Re-score model fits with current VRAM/RAM.
    fn refresh_model_fits(&mut self)
        ensures
            final(self)@ == with_fits(old(self)@),
    {
        let vram = self.effective_vram();
        let ram = self.effective_ram();
        let ghost mv = entries_view(self.models@);
        let mut fits: Vec<FitLevel> = Vec::new();
        let mut i: usize = 0;
        while i < self.models.len()
            invariant
                mv == entries_view(self.models@),
                i <= self.models@.len(),
                fits@ =~= fits_of(mv.take(i as int), vram, ram),
            decreases self.models.len() - i,
        {
            let f = score_fit(&self.models[i], vram, ram);
            fits.push(f);
            assert(fits_of(mv.take(i + 1), vram, ram) =~= fits_of(mv.take(i as int), vram, ram).push(
                spec_fit_of(self.models@[i as int]@, vram, ram),
            ));
            i = i + 1;
        }
        assert(mv.take(self.models.len() as int) =~= mv);
        self.model_fits = fits;
        assert(self@ =~= with_fits(old(self)@));
    }

    /// Populate recommended models and score their fits.
    fn populate_models(&mut self)
        ensures
            final(self)@ == populated(old(self)@),
    {
        let vram = self.effective_vram();
        let ram = self.effective_ram();
        self.models = recommend(vram, ram);
        self.refresh_model_fits();
        let mut checked: Vec<bool> = Vec::new();
        let mut i: usize = 0;
        while i < self.models.len()
            invariant
                i <= self.models@.len(),
                checked@ =~= Seq::new(i as nat, |j: int| false),
            decreases self.models.len() - i,
        {
            checked.push(false);
            i = i + 1;
        }
        self.model_checked = checked;
        self.model_idx = 0;
        assert(self@ =~= populated(old(self)@));
    }

    fn start_build(&mut self) -> (r: Effect)
        ensures
            (final(self)@, effect_view(r)) == build_started(old(self)@),
    {
        self.screen = Screen::Install;
        self.build_log.clear();
        self.build_phase = BuildPhase::Clone;
        self.build_done = false;
        self.build_ok = false;
        assert(strings_view(self.build_log@) =~= seq![]);
        if self.hw.is_some() && self.selected_backend.is_some() {
            Effect::StartBuild
        } else {
            let line = String::from_str("Missing hardware or backend info.");
            self.build_log.push(line);
            self.build_done = true;
            assert(strings_view(self.build_log@) =~= seq![line@]);
            Effect::Nothing
        }
    }

    fn handle_welcome(&mut self, action: InputAction) -> (r: Effect)
        ensures
            (final(self)@, effect_view(r)) == spec_welcome(old(self)@, action),
    {
        match action {
            InputAction::Up => {
                if self.expertise_idx > 0 {
                    self.expertise_idx = self.expertise_idx - 1;
                }
                Effect::Nothing
            },
            InputAction::Down => {
                if self.expertise_idx < 2 {
                    self.expertise_idx = self.expertise_idx + 1;
                }
                Effect::Nothing
            },
            InputAction::Select => {
                if self.expertise_idx < 3 {
                    self.state.expertise = expertise_level_at(self.expertise_idx);
                }
                Effect::SaveStateAndDetectHardware
            },
            _ => Effect::Nothing,
        }
    }

    fn handle_hardware(&mut self, action: InputAction)
        ensures
            final(self)@ == spec_hardware(old(self)@, action),
    {
        if self.editing_vram {
            match action {
                InputAction::Char(c) => {
                    if '0' <= c && c <= '9' {
                        self.vram_input.push(c);
                    }
                },
                InputAction::Back => {
                    if self.vram_input.len() == 0 {
                        self.editing_vram = false;
                    } else {
                        self.vram_input.pop();
                    }
                },
                InputAction::Select => {
                    match parse_u64(self.vram_input.as_slice()) {
                        Some(val) => {
                            if val > 0 {
                                self.vram_override = Some(val);
                            }
                        },
                        None => {},
                    }
                    self.editing_vram = false;
                    self.vram_input.clear();
                },
                _ => {},
            }
            return;
        }
        match action {
            InputAction::Char(c) => {
                if c == 'v' || c == 'V' {
                    self.editing_vram = true;
                    self.vram_input.clear();
                } else if c == 'r' || c == 'R' {
                    self.vram_override = None;
                }
            },
            InputAction::Select => {
                self.screen = Screen::Backend;
            },
            InputAction::Back => {
                self.screen = Screen::Welcome;
            },
            _ => {},
        }
    }

    fn handle_backend(&mut self, action: InputAction)
        ensures
            final(self)@ == spec_backend(old(self)@, action),
    {
        match action {
            InputAction::Up => {
                if self.backend_idx > 0 {
                    self.backend_idx = self.backend_idx - 1;
                }
            },
            InputAction::Down => {
                if self.backends.len() > 0 && self.backend_idx < self.backends.len() - 1 {
                    self.backend_idx = self.backend_idx + 1;
                }
            },
            InputAction::Select => {
                if self.backend_idx < self.backends.len() {
                    let name = self.backends[self.backend_idx];
                    let cuda_arch = match &self.hw {
                        Some(hw) => map_compute_capability(&hw.gpu.compute_capability),
                        None => None,
                    };
                    let backend = make_backend(name, cuda_arch, self.nvcc_archs.as_slice());
                    self.selected_backend = Some(backend);
                    // Move to llama-swap screen
                    self.llama_swap_idx = 0;
                    self.screen = Screen::LlamaSwap;
                    assert(self@ =~= spec_backend(old(self)@, action));
                }
            },
            InputAction::Back => {
                self.screen = Screen::Hardware;
            },
            _ => {},
        }
    }

    fn handle_llama_swap(&mut self, action: InputAction)
        ensures
            final(self)@ == spec_llama_swap(old(self)@, action),
    {
        match action {
            InputAction::Up => {
                if self.llama_swap_idx > 0 {
                    self.llama_swap_idx = self.llama_swap_idx - 1;
                }
            },
            InputAction::Down => {
                let max: usize = 1;
                if self.llama_swap_idx < max {
                    self.llama_swap_idx = self.llama_swap_idx + 1;
                }
            },
            InputAction::Select => {
                if self.llama_swap_installed {
                    // Already installed — continue to models
                    self.populate_models();
                    self.screen = Screen::Models;
                } else if self.llama_swap_idx == 0 {
                    // Install selected — marked as installed
                    self.llama_swap_installed = true;
                    self.llama_swap_idx = 0;
                } else {
                    // Skip — continue to models
                    self.populate_models();
                    self.screen = Screen::Models;
                }
            },
            InputAction::Back => {
                self.screen = Screen::Backend;
            },
            _ => {},
        }
    }

    fn handle_search_key(&mut self, action: InputAction) -> (r: Effect)
        ensures
            (final(self)@, effect_view(r)) == spec_models_searching(old(self)@, action),
    {
        match action {
            InputAction::Char(c) => {
                self.search_query.push(c);
                Effect::Nothing
            },
            InputAction::Back => {
                if self.search_query.len() == 0 {
                    self.is_searching = false;
                } else {
                    self.search_query.pop();
                }
                Effect::Nothing
            },
            InputAction::Select => {
                // Execute search
                self.is_searching = false;
                if self.search_query.len() > 0 {
                    Effect::Search(string_of(self.search_query.as_slice()))
                } else {
                    Effect::Nothing
                }
            },
            _ => Effect::Nothing,
        }
    }

    /// The model to download: the first checked one, else the one under
    /// the cursor, else the previous choice.
    fn choose_model(&self) -> (r: Option<ModelEntry>)
        ensures
            match r {
                Some(m) => model_choice(self@) == Some(m@),
                None => model_choice(self@) is None,
            },
    {
        let mut first: Option<usize> = None;
        let mut i: usize = 0;
        while i < self.model_checked.len()
            invariant
                i <= self.model_checked@.len(),
                first_checked(self.model_checked@.take(i as int), self.models@.len() as int)
                    == match first {
                    Some(k) => Some(k as int),
                    None => None::<int>,
                },
                first matches Some(k) ==> k < self.models@.len(),
            decreases self.model_checked.len() - i,
        {
            assert(self.model_checked@.take(i + 1).drop_last() =~= self.model_checked@.take(
                i as int,
            ));
            if first.is_none() && self.model_checked[i] && i < self.models.len() {
                first = Some(i);
            }
            i = i + 1;
        }
        assert(self.model_checked@.take(self.model_checked@.len() as int) =~= self.model_checked@);
        match first {
            Some(k) => {
                assert(entries_view(self.models@)[k as int] == self.models@[k as int]@);
                Some(self.models[k].duplicate())
            },
            None => {
                if self.model_idx < self.models.len() {
                    assert(entries_view(self.models@)[self.model_idx as int]
                        == self.models@[self.model_idx as int]@);
                    Some(self.models[self.model_idx].duplicate())
                } else {
                    copy_model(&self.selected_model)
                }
            },
        }
    }

    fn handle_model_char(&mut self, c: char) -> (r: Effect)
        ensures
            (final(self)@, effect_view(r)) == spec_models_browsing(old(self)@, InputAction::Char(c)),
    {
        if c == ' ' {
            // Toggle multi-select checkbox
            if self.model_idx < self.model_checked.len() {
                let flipped = !self.model_checked[self.model_idx];
                self.model_checked.set(self.model_idx, flipped);
            }
            Effect::Nothing
        } else if c == '/' {
            self.is_searching = true;
            self.search_query.clear();
            Effect::Nothing
        } else if c == 's' || c == 'S' {
            // Skip model selection
            self.selected_model = None;
            self.start_build()
        } else {
            Effect::Nothing
        }
    }

    fn handle_model_key(&mut self, action: InputAction) -> (r: Effect)
        ensures
            (final(self)@, effect_view(r)) == spec_models_browsing(old(self)@, action),
    {
        match action {
            InputAction::Up => {
                if self.model_idx > 0 {
                    self.model_idx = self.model_idx - 1;
                }
                Effect::Nothing
            },
            InputAction::Down => {
                if self.models.len() > 0 && self.model_idx < self.models.len() - 1 {
                    self.model_idx = self.model_idx + 1;
                }
                Effect::Nothing
            },
            InputAction::Char(c) => self.handle_model_char(c),
            InputAction::Select => {
                // Download all checked, or single selected
                self.selected_model = self.choose_model();
                self.start_build()
            },
            InputAction::Back => {
                if self.search_query.len() > 0 {
                    self.search_query.clear();
                    self.populate_models();
                } else {
                    self.screen = Screen::LlamaSwap;
                }
                Effect::Nothing
            },
            _ => Effect::Nothing,
        }
    }

    fn handle_models(&mut self, action: InputAction) -> (r: Effect)
        ensures
            (final(self)@, effect_view(r)) == spec_models(old(self)@, action),
    {
        if self.is_searching {
            self.handle_search_key(action)
        } else {
            self.handle_model_key(action)
        }
    }

    /// Compute the slot recommendation for current hardware + model.
    fn compute_slot_recommendation(&mut self)
        ensures
            final(self)@ == (WizardView {
                slot_recommendation: if advisable(slot_input(old(self)@)) {
                    Some(spec_slot_recommend(slot_input(old(self)@)))
                } else {
                    None
                },
                ..old(self)@
            }),
    {
        let vram = self.effective_vram() as usize;
        let model_size = match &self.selected_model {
            Some(m) => m.min_vram_mb as usize,
            None => 2048,
        };
        let input = SlotAdvisorInput {
            model_size_mb: model_size,
            total_vram_mb: vram,
            context_length: self.chat_session.max_context,
            kv_dtype: KV_DTYPE::F16,
            target_concurrent_users: 1,
        };
        assert(input == slot_input(self@));
        let advisor = SlotAdvisor::new();
        self.slot_recommendation = advisor.recommend_checked(&input);
    }

    fn handle_chat(&mut self, action: InputAction)
        ensures
            final(self)@ == spec_chat(old(self)@, action),
    {
        match action {
            InputAction::Char(c) => {
                if !self.is_generating {
                    self.chat_input.push(c);
                }
            },
            InputAction::Back => {
                if self.chat_input.len() > 0 {
                    self.chat_input.pop();
                } else {
                    // Esc with empty input goes to summary
                    self.screen = Screen::Summary;
                }
            },
            InputAction::Select => {
                if !self.is_generating && self.chat_input.len() > 0 {
                    // Send message
                    let ghost before = messages_view(self.chat_session.messages@);
                    let user_msg = ChatMessage::new(
                        ChatRole::User,
                        string_of(self.chat_input.as_slice()),
                    );
                    self.chat_session.add_message(user_msg);
                    self.chat_input.clear();
                    // Reset scroll to bottom
                    self.chat_scroll = 0;
                    let assistant_msg = ChatMessage::new(
                        ChatRole::Assistant,
                        String::from_str(
                            "(Inference engine not connected yet — this is a placeholder response.)",
                        ),
                    );
                    self.chat_session.add_message(assistant_msg);
                    assert(messages_view(self.chat_session.messages@) =~= before.push(
                        (ChatRole::User, old(self).chat_input@),
                    ).push((ChatRole::Assistant, placeholder_reply())));
                }
            },
            InputAction::Up => {
                self.chat_scroll = self.chat_scroll.saturating_add(3);
            },
            InputAction::Down => {
                self.chat_scroll = self.chat_scroll.saturating_sub(3);
            },
            InputAction::Tab => {
                self.screen = Screen::Settings;
            },
            _ => {},
        }
    }

    fn handle_settings(&mut self, action: InputAction)
        ensures
            final(self)@ == spec_settings(old(self)@, action),
    {
        match action {
            InputAction::Up => {
                if self.settings_row > 0 {
                    self.settings_row = self.settings_row - 1;
                }
            },
            InputAction::Down => {
                if self.settings_row < 4 {
                    self.settings_row = self.settings_row + 1;
                }
            },
            InputAction::Char(c) => {
                if c == 'l' || c == 'L' {
                    self.log_scroll = 0;
                    self.screen = Screen::Logs;
                }
            },
            InputAction::Tab => {
                self.screen = Screen::Chat;
            },
            InputAction::Back => {
                self.screen = Screen::Chat;
            },
            _ => {},
        }
    }

    fn set_filter(&mut self, f: &str)
        ensures
            final(self)@ == (WizardView { log_filter: f@, log_scroll: 0, ..old(self)@ }),
    {
        let cs = crate::text::chars_of(f);
        self.log_filter = cs;
        self.log_scroll = 0;
    }

    fn handle_logs(&mut self, action: InputAction)
        ensures
            final(self)@ == spec_logs(old(self)@, action),
    {
        match action {
            InputAction::Up => {
                self.log_scroll = self.log_scroll.saturating_add(3);
            },
            InputAction::Down => {
                self.log_scroll = self.log_scroll.saturating_sub(3);
            },
            InputAction::Char(c) => {
                if c == 'e' || c == 'E' {
                    self.set_filter("ERROR");
                } else if c == 'w' || c == 'W' {
                    self.set_filter("WARN");
                } else if c == 'i' || c == 'I' {
                    self.set_filter("INFO");
                } else if c == 'd' || c == 'D' {
                    self.set_filter("DEBUG");
                } else if c == 'c' || c == 'C' {
                    self.log_filter.clear();
                    self.log_scroll = 0;
                }
            },
            InputAction::Back => {
                self.screen = Screen::Settings;
            },
            InputAction::Tab => {
                self.screen = Screen::Settings;
            },
            _ => {},
        }
    }

    /// Apply one key press; the result names the outside work it asks for.
    pub fn handle_input(&mut self, action: InputAction) -> (r: Effect)
        ensures
            (final(self)@, effect_view(r)) == spec_handle_input(old(self)@, action),
    {
        if action == InputAction::Quit {
            self.should_quit = true;
            return Effect::Nothing;
        }
        match self.screen {
            Screen::Welcome => self.handle_welcome(action),
            Screen::Hardware => {
                self.handle_hardware(action);
                Effect::Nothing
            },
            Screen::Backend => {
                self.handle_backend(action);
                Effect::Nothing
            },
            Screen::LlamaSwap => {
                self.handle_llama_swap(action);
                Effect::Nothing
            },
            Screen::Models => self.handle_models(action),
            Screen::Install => {
                if self.build_done && action == InputAction::Select {
                    self.screen = Screen::Summary;
                }
                Effect::Nothing
            },
            Screen::Summary => {
                match action {
                    InputAction::Select => {
                        // Transition to workspace (Chat)
                        self.compute_slot_recommendation();
                        self.screen = Screen::Chat;
                    },
                    InputAction::Back => {
                        self.should_quit = true;
                    },
                    _ => {},
                }
                Effect::Nothing
            },
            Screen::Chat => {
                self.handle_chat(action);
                Effect::Nothing
            },
            Screen::Settings => {
                self.handle_settings(action);
                Effect::Nothing
            },
            Screen::Logs => {
                self.handle_logs(action);
                Effect::Nothing
            },
        }
    }

    /// Take in the result of hardware detection, with the architectures the
    /// installed `nvcc` supports.
    pub fn on_hardware_detected(
        &mut self,
        result: core::result::Result<HardwareInfo, String>,
        nvcc_archs: Vec<String>,
    )
        ensures
            final(self)@ == spec_detected(
                old(self)@,
                match result {
                    Ok(h) => Ok(h),
                    Err(e) => Err(e@),
                },
                strings_view(nvcc_archs@),
            ),
    {
        match result {
            Ok(hw) => {
                let rec = match auto_select(&hw, nvcc_archs.as_slice()) {
                    Ok(b) => b.name,
                    Err(_) => BackendName::CpuOnly,
                };
                let backends = available_backends(&hw);
                let ghost bv = backends@;
                let mut k: usize = 0;
                let mut found: Option<usize> = None;
                while k < backends.len()
                    invariant
                        bv == backends@,
                        k <= backends@.len(),
                        first_index(bv.take(k as int), rec) == match found {
                            Some(j) => Some(j as int),
                            None => None::<int>,
                        },
                    decreases backends.len() - k,
                {
                    assert(bv.take(k + 1).drop_last() =~= bv.take(k as int));
                    if found.is_none() && backends[k] == rec {
                        found = Some(k);
                    }
                    k = k + 1;
                }
                assert(bv.take(backends.len() as int) =~= bv);
                self.backends = backends;
                self.recommended_backend = Some(rec);
                if let Some(j) = found {
                    self.backend_idx = j;
                }
                let mut platform = hw.os.clone();
                platform.append(" | ");
                platform.append(hw.gpu.name.as_str());
                platform.append(" | ");
                let mem = HardwareInfo::format_memory(hw.gpu.vram_mb);
                platform.append(mem.as_str());
                platform.append(" VRAM");
                self.detected_platform = platform;
                self.hw = Some(hw);
                self.nvcc_archs = nvcc_archs;
                self.screen = Screen::Hardware;
                assert(self@ =~= spec_detected(
                    old(self)@,
                    Ok(self.hw->0),
                    strings_view(self.nvcc_archs@),
                ));
            },
            Err(e) => {
                let mut m = String::from_str("Hardware detection failed: ");
                m.append(e.as_str());
                let ghost before = strings_view(self.build_log@);
                self.build_log.push(m);
                assert(strings_view(self.build_log@) =~= before.push(
                    "Hardware detection failed: "@ + e@,
                ));
                assert(self@ =~= spec_detected(old(self)@, Err(e@), strings_view(nvcc_archs@)));
            },
        }
    }

    /// Take in the result of a HuggingFace search.
    pub fn on_search_results(&mut self, result: core::result::Result<Vec<SearchResult>, String>)
        ensures
            final(self)@ == spec_searched(
                old(self)@,
                match result {
                    Ok(v) => Ok(v@),
                    Err(e) => Err(e@),
                },
            ),
    {
        match result {
            Ok(results) => {
                let ghost rv = results@;
                let mut entries: Vec<ModelEntry> = Vec::new();
                let mut i: usize = 0;
                while i < results.len()
                    invariant
                        rv == results@,
                        i <= results@.len(),
                        entries_view(entries@) =~= rv.take(i as int).map_values(
                            |r: SearchResult| search_entry(r),
                        ),
                    decreases results.len() - i,
                {
                    let r = &results[i];
                    let mut size_label = String::new();
                    push_decimal(&mut size_label, r.downloads);
                    size_label.append(" downloads");
                    let e = ModelEntry {
                        name: r.id.clone(),
                        repo: r.id.clone(),
                        params: String::from_str("?"),
                        quantization: String::from_str("Q4_K_M"),
                        size_label,
                        context_length: String::from_str("?"),
                        min_vram_mb: 0,
                        min_ram_mb: 0,
                        description: String::from_str("HuggingFace search result"),
                        estimated_toks: String::from_str("—"),
                    };
                    let ghost before = entries_view(entries@);
                    entries.push(e);
                    assert(entries_view(entries@) =~= before.push(search_entry(rv[i as int])));
                    assert(rv.take(i + 1).map_values(|r: SearchResult| search_entry(r))
                        =~= rv.take(i as int).map_values(|r: SearchResult| search_entry(r)).push(
                        search_entry(rv[i as int]),
                    ));
                    i = i + 1;
                }
                assert(rv.take(results.len() as int) =~= rv);
                if entries.len() > 0 {
                    self.models = entries;
                    self.model_idx = 0;
                    self.refresh_model_fits();
                } else {
                    self.search_query.clear();
                }
            },
            Err(_) => {
                self.search_query.clear();
            },
        }
    }

    /// A line from the build.
    pub fn on_build_log(&mut self, line: String)
        ensures
            final(self)@ == (WizardView { build_log: old(self)@.build_log.push(line@), ..old(self)@ }),
    {
        let ghost before = strings_view(self.build_log@);
        self.build_log.push(line);
        assert(strings_view(self.build_log@) =~= before.push(line@));
    }

    /// The build entered a phase.
    pub fn on_build_phase(&mut self, phase: BuildPhase)
        ensures
            final(self)@ == (WizardView { build_phase: phase, ..old(self)@ }),
    {
        self.build_phase = phase;
    }

    /// The build ended.
    pub fn on_build_done(&mut self, success: bool)
        ensures
            final(self)@ == (WizardView { build_done: true, build_ok: success, ..old(self)@ }),
    {
        self.build_done = true;
        self.build_ok = success;
    }
}

// ---------------------------------------------------------------------------
// Laws
// ---------------------------------------------------------------------------

/// Navigation keeps the cursors in range: the expertise cursor below three,
/// the settings row at most four, the llama-swap cursor at most one, and
/// the backend and model cursors inside their non-empty lists.
pub open spec fn cursors_in_range(v: WizardView) -> bool {
    &&& v.expertise_idx < 3
    &&& v.settings_row <= 4
    &&& v.llama_swap_idx <= 1
    &&& (v.backends.len() > 0 ==> v.backend_idx < v.backends.len())
    &&& (v.models.len() > 0 ==> v.model_idx < v.models.len())
}

proof fn lemma_models_keep_cursors(v: WizardView, a: InputAction)
    requires
        cursors_in_range(v),
    ensures
        cursors_in_range(spec_models(v, a).0),
{
    if !v.is_searching {
        match a {
            InputAction::Select => {
                let w = WizardView { selected_model: model_choice(v), ..v };
                assert(cursors_in_range(w));
                assert(build_started(w).0.models == w.models);
            },
            InputAction::Char(c) => {
                let w = WizardView { selected_model: None, ..v };
                assert(cursors_in_range(w));
                assert(build_started(w).0.models == w.models);
            },
            InputAction::Back => {
                let w = WizardView { search_query: seq![], ..v };
                assert(populated(w).model_idx == 0);
            },
            _ => {},
        }
    }
}

proof fn lemma_setup_keeps_cursors(v: WizardView, a: InputAction)
    requires
        cursors_in_range(v),
        v.screen == Screen::Welcome || v.screen == Screen::Hardware || v.screen == Screen::Backend
            || v.screen == Screen::LlamaSwap,
    ensures
        cursors_in_range(spec_handle_input(v, a).0),
{
    if a != InputAction::Quit && v.screen == Screen::LlamaSwap && a == InputAction::Select {
        assert(populated(v).model_idx == 0);
    }
}

proof fn lemma_workspace_keeps_cursors(v: WizardView, a: InputAction)
    requires
        cursors_in_range(v),
        v.screen == Screen::Install || v.screen == Screen::Summary || v.screen == Screen::Chat
            || v.screen == Screen::Settings || v.screen == Screen::Logs,
    ensures
        cursors_in_range(spec_handle_input(v, a).0),
{
}

/// Every key press keeps the cursors in range.
pub proof fn lemma_cursors_stay_in_range(v: WizardView, a: InputAction)
    requires
        cursors_in_range(v),
    ensures
        cursors_in_range(spec_handle_input(v, a).0),
{
    if a != InputAction::Quit && v.screen == Screen::Models {
        lemma_models_keep_cursors(v, a);
    } else if v.screen == Screen::Welcome || v.screen == Screen::Hardware || v.screen
        == Screen::Backend || v.screen == Screen::LlamaSwap {
        lemma_setup_keeps_cursors(v, a);
    } else if v.screen != Screen::Models {
        lemma_workspace_keeps_cursors(v, a);
    }
}

/// The wizard starts with its cursors in range, so (with the law above)
/// they stay in range whatever keys are pressed.
pub proof fn lemma_initial_cursors_in_range(v: WizardView, state: AppState, platform: Seq<char>)
    requires
        is_initial(v, state, platform),
    ensures
        cursors_in_range(v),
{
}

/// Enter then Esc comes back: from the hardware screen (not editing the
/// VRAM figure), from the backend list (on an entry), and from the
/// llama-swap screen when Enter moves on to the models (no search under
/// way).
pub proof fn lemma_back_returns(v: WizardView)
    requires
        (v.screen == Screen::Hardware && !v.editing_vram) || (v.screen == Screen::Backend
            && v.backend_idx < v.backends.len()) || (v.screen == Screen::LlamaSwap && (
        v.llama_swap_installed || v.llama_swap_idx != 0) && !v.is_searching
            && v.search_query.len() == 0),
    ensures
        spec_handle_input(spec_handle_input(v, InputAction::Select).0, InputAction::Back).0.screen
            == v.screen,
{
    if v.screen == Screen::LlamaSwap {
        let w = spec_handle_input(v, InputAction::Select).0;
        assert(w.screen == Screen::Models);
        assert(!w.is_searching);
        assert(w.search_query.len() == 0);
    }
}

proof fn lemma_first_checked(checked: Seq<bool>, n: int)
    ensures
        match first_checked(checked, n) {
            Some(i) => {
                &&& 0 <= i < checked.len()
                &&& i < n
                &&& checked[i]
                &&& forall|j: int| 0 <= j < i ==> !(#[trigger] checked[j] && j < n)
            },
            None => forall|j: int| 0 <= j < checked.len() ==> !(#[trigger] checked[j] && j < n),
        },
    decreases checked.len(),
{
    if checked.len() > 0 {
        let d = checked.drop_last();
        lemma_first_checked(d, n);
        assert forall|j: int| 0 <= j < d.len() implies d[j] == checked[j] by {}
    }
}

/// On the model list, Space flips the tick of the model under the cursor
/// and changes nothing else.
pub proof fn lemma_models_toggle(v: WizardView)
    requires
        v.screen == Screen::Models,
        !v.is_searching,
        v.model_idx < v.model_checked.len(),
    ensures
        spec_handle_input(v, InputAction::Char(' ')).0 == (WizardView {
            model_checked: v.model_checked.update(v.model_idx as int, !v.model_checked[v.model_idx as int]),
            ..v
        }),
        spec_handle_input(v, InputAction::Char(' ')).1 == EffectView::Nothing,
{
}

/// On the model list, Up and Down move the cursor by at most one, keep it
/// on the list, and change nothing else.
pub proof fn lemma_models_move(v: WizardView, a: InputAction)
    requires
        v.screen == Screen::Models,
        !v.is_searching,
        a == InputAction::Up || a == InputAction::Down,
        v.model_idx < v.models.len(),
        v.models.len() <= usize::MAX,
    ensures
        ({
            let w = spec_handle_input(v, a).0;
            &&& w == (WizardView { model_idx: w.model_idx, ..v })
            &&& w.model_idx < v.models.len()
            &&& v.model_idx - 1 <= w.model_idx <= v.model_idx + 1
        }),
        spec_handle_input(v, a).1 == EffectView::Nothing,
{
    let w = spec_handle_input(v, a).0;
    assert(spec_handle_input(v, a) == spec_models_browsing(v, a));
    if a == InputAction::Up {
        if v.model_idx > 0 {
            assert(w == (WizardView { model_idx: (v.model_idx - 1) as usize, ..v }));
            assert(w.model_idx == v.model_idx - 1);
        } else {
            assert(w == v);
        }
    } else {
        if v.model_idx + 1 < v.models.len() {
            assert(w == (WizardView { model_idx: (v.model_idx + 1) as usize, ..v }));
            assert(w.model_idx == v.model_idx + 1);
        } else {
            assert(w == v);
        }
    }
    assert(w == (WizardView { model_idx: w.model_idx, ..v }));
    assert(w.model_idx < v.models.len());
}

/// On the model list, Enter chooses the first ticked model, or the one under
/// the cursor when none is ticked, and goes to the install screen; the
/// build starts when the hardware and a backend are known.
pub proof fn lemma_models_select(v: WizardView)
    requires
        v.screen == Screen::Models,
        !v.is_searching,
    ensures
        ({
            let (w, e) = spec_handle_input(v, InputAction::Select);
            &&& w.screen == Screen::Install
            &&& forall|i: int|
                0 <= i < v.models.len() && i < v.model_checked.len() && #[trigger] v.model_checked[i]
                    && (forall|j: int| 0 <= j < i ==> !v.model_checked[j]) ==> w.selected_model
                    == Some(v.models[i])
            &&& (forall|j: int|
                0 <= j < v.model_checked.len() && j < v.models.len() ==> !v.model_checked[j])
                ==> w.selected_model == if v.model_idx < v.models.len() {
                Some(v.models[v.model_idx as int])
            } else {
                v.selected_model
            }
            &&& (e == EffectView::StartBuild <==> (v.hw is Some && v.selected_backend is Some))
        }),
{
    lemma_first_checked(v.model_checked, v.models.len() as int);
    let w = spec_handle_input(v, InputAction::Select).0;
    assert(w.selected_model == model_choice(v));
    assert forall|i: int|
        0 <= i < v.models.len() && i < v.model_checked.len() && #[trigger] v.model_checked[i]
            && (forall|j: int| 0 <= j < i ==> !v.model_checked[j]) implies w.selected_model
        == Some(v.models[i]) by {
        match first_checked(v.model_checked, v.models.len() as int) {
            Some(k) => {
                if k < i {
                    assert(!v.model_checked[k]);
                } else if k > i {
                    assert(!(v.model_checked[i] && i < v.models.len()));
                }
            },
            None => {
                assert(!(v.model_checked[i] && i < v.models.len()));
            },
        }
    }
    if forall|j: int| 0 <= j < v.model_checked.len() && j < v.models.len() ==> !v.model_checked[j] {
        match first_checked(v.model_checked, v.models.len() as int) {
            Some(k) => {
                assert(!v.model_checked[k]);
            },
            None => {},
        }
    }
}

/// On the model list, `s` skips the choice: no model is selected and the
/// install screen comes next.
pub proof fn lemma_models_skip(v: WizardView, c: char)
    requires
        v.screen == Screen::Models,
        !v.is_searching,
        c == 's' || c == 'S',
    ensures
        spec_handle_input(v, InputAction::Char(c)).0.selected_model is None,
        spec_handle_input(v, InputAction::Char(c)).0.screen == Screen::Install,
{
}

/// The model list's keys together, on a list with one check box per model
/// and the cursor on it: space flips only the box under the cursor; Up and
/// Down move the cursor by at most one, keep it on the list and change
/// nothing else; Select goes to the install screen with the first checked
/// model, or the one under the cursor when none is checked; `s` and `S` go
/// to the install screen with no model.
pub proof fn lemma_models_keys(v: WizardView)
    requires
        v.screen == Screen::Models,
        !v.is_searching,
        v.model_checked.len() == v.models.len(),
        v.model_idx < v.models.len(),
        v.models.len() <= usize::MAX,
    ensures
        spec_handle_input(v, InputAction::Char(' ')).0 == (WizardView {
            model_checked: v.model_checked.update(v.model_idx as int, !v.model_checked[v.model_idx as int]),
            ..v
        }),
        ({
            let w = spec_handle_input(v, InputAction::Up).0;
            &&& w == (WizardView { model_idx: w.model_idx, ..v })
            &&& w.model_idx < v.models.len()
            &&& v.model_idx - 1 <= w.model_idx <= v.model_idx + 1
        }),
        ({
            let w = spec_handle_input(v, InputAction::Down).0;
            &&& w == (WizardView { model_idx: w.model_idx, ..v })
            &&& w.model_idx < v.models.len()
            &&& v.model_idx - 1 <= w.model_idx <= v.model_idx + 1
        }),
        ({
            let w = spec_handle_input(v, InputAction::Select).0;
            &&& w.screen == Screen::Install
            &&& forall|i: int|
                0 <= i < v.models.len() && #[trigger] v.model_checked[i] && (forall|j: int|
                    0 <= j < i ==> !v.model_checked[j]) ==> w.selected_model == Some(v.models[i])
            &&& (forall|j: int| 0 <= j < v.models.len() ==> !v.model_checked[j])
                ==> w.selected_model == Some(v.models[v.model_idx as int])
        }),
        spec_handle_input(v, InputAction::Char('s')).0.selected_model is None,
        spec_handle_input(v, InputAction::Char('s')).0.screen == Screen::Install,
        spec_handle_input(v, InputAction::Char('S')).0.selected_model is None,
        spec_handle_input(v, InputAction::Char('S')).0.screen == Screen::Install,
{
    lemma_models_toggle(v);
    lemma_models_move(v, InputAction::Up);
    lemma_models_move(v, InputAction::Down);
    lemma_models_select(v);
    lemma_models_skip(v, 's');
    lemma_models_skip(v, 'S');
}

/// Where `x` first occurs in `s`, when it occurs.
proof fn lemma_first_index_finds(s: Seq<BackendName>, x: BackendName)
    ensures
        s.contains(x) ==> (first_index(s, x) matches Some(i) && 0 <= i < s.len() && s[i] == x
            && forall|j: int| 0 <= j < i ==> s[j] != x),
        !s.contains(x) ==> first_index(s, x) is None,
    decreases s.len(),
{
    if s.len() > 0 {
        let t = s.drop_last();
        lemma_first_index_finds(t, x);
        if t.contains(x) {
            let k = choose|k: int| 0 <= k < t.len() && t[k] == x;
            assert(s[k] == x);
            let i = first_index(t, x)->0;
            assert(s[i] == t[i]);
            assert forall|j: int| 0 <= j < i implies s[j] != x by {
                assert(s[j] == t[j]);
            }
        }
        if s.contains(x) && !t.contains(x) {
            let k = choose|k: int| 0 <= k < s.len() && s[k] == x;
            if k < t.len() {
                assert(t[k] == x);
            }
            assert(s.last() == x);
            assert forall|j: int| 0 <= j < s.len() - 1 implies s[j] != x by {
                if s[j] == x {
                    assert(t[j] == x);
                }
            }
        }
        if !s.contains(x) {
            if t.contains(x) {
                let k = choose|k: int| 0 <= k < t.len() && t[k] == x;
                assert(s[k] == x);
            }
            assert(s[s.len() - 1] != x);
        }
    }
}

/// After a successful detection the wizard offers the hardware's backends
/// with the cursor on the recommended one, the backend `auto_select` picks
/// for that hardware (its first place in the list), so that confirming
/// takes the recommendation, whatever the cursor was before.
pub proof fn lemma_detection_preselects_recommended(
    v: WizardView,
    hw: HardwareInfo,
    nvcc_archs: Seq<Seq<char>>,
)
    ensures
        ({
            let w = spec_detected(v, Ok(hw), nvcc_archs);
            &&& w.backends == spec_available(hw)
            &&& w.recommended_backend == Some(spec_auto_name(hw))
            &&& w.backend_idx < w.backends.len()
            &&& w.backends[w.backend_idx as int] == spec_auto_name(hw)
            &&& forall|j: int| 0 <= j < w.backend_idx ==> w.backends[j] != spec_auto_name(hw)
            &&& w.screen == Screen::Hardware
            &&& w.hw == Some(hw)
        }),
{
    let a = spec_available(hw);
    let rec = spec_auto_name(hw);
    lemma_auto_choice_available(hw);
    lemma_first_index_finds(a, rec);
}

/// Quit ends the program from every screen and changes nothing else.
pub proof fn lemma_quit_everywhere(v: WizardView)
    ensures
        spec_handle_input(v, InputAction::Quit).0 == (WizardView { should_quit: true, ..v }),
        spec_handle_input(v, InputAction::Quit).1 == EffectView::Nothing,
{
}

/// Sending a chat message records the user's text and one reply, in that
/// order, and empties the input.
pub proof fn lemma_chat_send(v: WizardView)
    requires
        v.screen == Screen::Chat,
        !v.is_generating,
        v.chat_input.len() > 0,
    ensures
        spec_handle_input(v, InputAction::Select).0.messages == v.messages.push(
            (ChatRole::User, v.chat_input),
        ).push((ChatRole::Assistant, placeholder_reply())),
        spec_handle_input(v, InputAction::Select).0.chat_input.len() == 0,
{
}

} // verus!
