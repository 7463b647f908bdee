use localforge::app::{Effect, Screen, Wizard};
use localforge::build::BuildPhase;
use localforge::config::{AppState, BackendName, ExpertiseLevel};
use localforge::hardware::{CpuInfo, GpuInfo, GpuVendor, HardwareInfo, MemoryInfo};
use localforge::inference::session::ChatRole;
use localforge::models::fit::FitLevel;
use localforge::models::SearchResult;
use localforge::tui::{map_key, InputAction, Key, KeyPress};

fn nvidia_box() -> HardwareInfo {
    HardwareInfo {
        cpu: CpuInfo {
            name: "Ryzen".into(),
            cores_physical: 8,
            cores_logical: 16,
            vendor: "AMD".into(),
            architecture: "x86_64".into(),
        },
        gpu: GpuInfo {
            name: "RTX 3070".into(),
            vendor: GpuVendor::Nvidia,
            vram_mb: 8192,
            driver_version: Some("550".into()),
            cuda_support: true,
            compute_capability: Some("8.6".into()),
        },
        memory: MemoryInfo { total_mb: 32768, available_mb: 20000 },
        os: "Linux".into(),
        cuda_available: true,
        cuda_version: Some("12.4".into()),
        rocm_available: false,
    }
}

fn detected() -> Wizard {
    let mut w = Wizard::new(AppState::default(), "Linux".into());
    assert!(matches!(w.handle_input(InputAction::Select), Effect::SaveStateAndDetectHardware));
    w.on_hardware_detected(Ok(nvidia_box()), vec!["75".into(), "86".into()]);
    w
}

#[test]
fn welcome_selects_expertise() {
    let mut w = Wizard::new(AppState::default(), "Linux".into());
    assert_eq!(w.screen, Screen::Welcome);
    assert_eq!(w.expertise_idx, 1);
    w.handle_input(InputAction::Down);
    w.handle_input(InputAction::Down);
    assert_eq!(w.expertise_idx, 2);
    assert!(matches!(w.handle_input(InputAction::Select), Effect::SaveStateAndDetectHardware));
    assert_eq!(w.state.expertise, ExpertiseLevel::Expert);
    assert_eq!(w.screen, Screen::Welcome);
}

#[test]
fn detection_fills_backends() {
    let w = detected();
    assert_eq!(w.screen, Screen::Hardware);
    assert_eq!(w.detected_platform, "Linux | RTX 3070 | 8.0 GB VRAM");
    assert_eq!(
        w.backends,
        vec![BackendName::Cuda, BackendName::Vulkan, BackendName::OpenBlas, BackendName::CpuOnly]
    );
    assert_eq!(w.recommended_backend, Some(BackendName::Cuda));
    assert_eq!(w.backend_idx, 0);
}

#[test]
fn detection_failure_is_logged() {
    let mut w = Wizard::new(AppState::default(), "Linux".into());
    w.on_hardware_detected(Err("no sysinfo".into()), vec![]);
    assert_eq!(w.screen, Screen::Welcome);
    assert_eq!(w.build_log, vec!["Hardware detection failed: no sysinfo"]);
}

#[test]
fn vram_override_editing() {
    let mut w = detected();
    w.handle_input(InputAction::Char('v'));
    assert!(w.editing_vram);
    w.handle_input(InputAction::Char('4'));
    w.handle_input(InputAction::Char('x'));
    w.handle_input(InputAction::Char('0'));
    w.handle_input(InputAction::Char('9'));
    w.handle_input(InputAction::Char('6'));
    w.handle_input(InputAction::Select);
    assert!(!w.editing_vram);
    assert_eq!(w.vram_override, Some(4096));
    assert_eq!(w.effective_vram(), 4096);
    w.handle_input(InputAction::Char('r'));
    assert_eq!(w.effective_vram(), 8192);
    assert_eq!(w.effective_ram(), 32768);
}

#[test]
fn full_setup_flow() {
    let mut w = detected();
    w.handle_input(InputAction::Select);
    assert_eq!(w.screen, Screen::Backend);
    w.handle_input(InputAction::Select);
    assert_eq!(w.screen, Screen::LlamaSwap);
    let b = w.selected_backend.clone().unwrap();
    assert_eq!(b.name, BackendName::Cuda);
    assert_eq!(b.cuda_arch, Some("86".to_string()));
    assert_eq!(b.cmake_flags[3], "-DCMAKE_CUDA_ARCHITECTURES=86");
    // skip llama-swap
    w.handle_input(InputAction::Down);
    w.handle_input(InputAction::Select);
    assert_eq!(w.screen, Screen::Models);
    assert_eq!(w.models.len(), 6);
    assert_eq!(w.models[0].name, "Qwen2.5-7B-Instruct");
    assert_eq!(w.model_fits[0], FitLevel::Good);
    assert_eq!(w.model_checked, vec![false; 6]);
    // check the third, then confirm
    w.handle_input(InputAction::Down);
    w.handle_input(InputAction::Down);
    w.handle_input(InputAction::Char(' '));
    w.handle_input(InputAction::Up);
    assert!(matches!(w.handle_input(InputAction::Select), Effect::StartBuild));
    assert_eq!(w.selected_model.as_ref().unwrap().name, "Mistral-7B-Instruct-v0.3");
    assert_eq!(w.screen, Screen::Install);
    w.on_build_phase(BuildPhase::Compile);
    w.on_build_log("Compiling...".into());
    w.handle_input(InputAction::Select);
    assert_eq!(w.screen, Screen::Install);
    w.on_build_done(true);
    w.handle_input(InputAction::Select);
    assert_eq!(w.screen, Screen::Summary);
    w.handle_input(InputAction::Select);
    assert_eq!(w.screen, Screen::Chat);
    let rec = w.slot_recommendation.unwrap();
    assert_eq!(rec.parallel_slots, 1);
}

#[test]
fn build_needs_hardware_and_backend() {
    let mut w = Wizard::new(AppState::default(), "Linux".into());
    w.screen = Screen::Models;
    assert!(matches!(w.handle_input(InputAction::Char('s')), Effect::Nothing));
    assert_eq!(w.screen, Screen::Install);
    assert!(w.build_done);
    assert_eq!(w.build_log, vec!["Missing hardware or backend info."]);
}

#[test]
fn search_typing_and_results() {
    let mut w = detected();
    w.screen = Screen::Models;
    w.handle_input(InputAction::Char('/'));
    assert!(w.is_searching);
    w.handle_input(InputAction::Char('q'));
    w.handle_input(InputAction::Char('w'));
    match w.handle_input(InputAction::Select) {
        Effect::Search(q) => assert_eq!(q, "qw"),
        other => panic!("unexpected {:?}", other),
    }
    assert!(!w.is_searching);
    w.on_search_results(Ok(vec![SearchResult { id: "org/qwen-gguf".into(), downloads: 1234 }]));
    assert_eq!(w.models.len(), 1);
    assert_eq!(w.models[0].name, "org/qwen-gguf");
    assert_eq!(w.models[0].size_label, "1234 downloads");
    assert_eq!(w.model_fits, vec![FitLevel::Marginal]);
    w.on_search_results(Err("offline".into()));
    assert!(w.search_query.is_empty());
}

#[test]
fn chat_sends_user_text_and_reply() {
    let mut w = Wizard::new(AppState::default(), "Linux".into());
    w.screen = Screen::Chat;
    w.handle_input(InputAction::Char('h'));
    w.handle_input(InputAction::Char('i'));
    w.handle_input(InputAction::Select);
    let m = &w.chat_session.messages;
    assert_eq!(m.len(), 2);
    assert_eq!(m[0].role, ChatRole::User);
    assert_eq!(m[0].content, "hi");
    assert_eq!(m[1].role, ChatRole::Assistant);
    assert!(w.chat_input.is_empty());
    w.handle_input(InputAction::Tab);
    assert_eq!(w.screen, Screen::Settings);
    w.handle_input(InputAction::Char('l'));
    assert_eq!(w.screen, Screen::Logs);
    w.handle_input(InputAction::Char('e'));
    assert_eq!(w.log_filter, vec!['E', 'R', 'R', 'O', 'R']);
}

#[test]
fn quit_from_anywhere() {
    let mut w = detected();
    assert!(matches!(w.handle_input(InputAction::Quit), Effect::Nothing));
    assert!(w.should_quit);
    assert_eq!(w.screen, Screen::Hardware);
}

#[test]
fn key_mapping() {
    let k = |key| KeyPress { key, ctrl: false };
    assert_eq!(map_key(KeyPress { key: Key::Char('c'), ctrl: true }, false), InputAction::Quit);
    assert_eq!(map_key(KeyPress { key: Key::Char('x'), ctrl: true }, false), InputAction::NoAction);
    assert_eq!(map_key(k(Key::Char('q')), false), InputAction::Quit);
    assert_eq!(map_key(k(Key::Char('q')), true), InputAction::Char('q'));
    assert_eq!(map_key(k(Key::Char('j')), false), InputAction::Down);
    assert_eq!(map_key(k(Key::Backspace), false), InputAction::Back);
    assert_eq!(map_key(k(Key::Tab), true), InputAction::NoAction);
    assert_eq!(map_key(k(Key::Tab), false), InputAction::Tab);
}

#[test]
fn cursors_never_leave_their_lists() {
    let mut w = detected();
    w.handle_input(InputAction::Select);
    for _ in 0..10 {
        w.handle_input(InputAction::Down);
    }
    assert_eq!(w.backend_idx, w.backends.len() - 1);
    for _ in 0..10 {
        w.handle_input(InputAction::Up);
    }
    assert_eq!(w.backend_idx, 0);
    let mut s = Wizard::new(AppState::default(), "Linux".into());
    for _ in 0..5 {
        s.handle_input(InputAction::Down);
    }
    assert_eq!(s.expertise_idx, 2);
    s.screen = Screen::Settings;
    for _ in 0..9 {
        s.handle_input(InputAction::Down);
    }
    assert_eq!(s.settings_row, 4);
}

#[test]
fn enter_then_escape_comes_back() {
    let mut w = detected();
    w.handle_input(InputAction::Select);
    assert_eq!(w.screen, Screen::Backend);
    w.handle_input(InputAction::Back);
    assert_eq!(w.screen, Screen::Hardware);
    w.handle_input(InputAction::Select);
    w.handle_input(InputAction::Select);
    assert_eq!(w.screen, Screen::LlamaSwap);
    w.handle_input(InputAction::Back);
    assert_eq!(w.screen, Screen::Backend);
    w.handle_input(InputAction::Select);
    w.handle_input(InputAction::Down);
    w.handle_input(InputAction::Select);
    assert_eq!(w.screen, Screen::Models);
    w.handle_input(InputAction::Back);
    assert_eq!(w.screen, Screen::LlamaSwap);
}
