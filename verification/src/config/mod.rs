//! Backend types, the application config, persisted wizard state and the
//! CMake/backend selection rules.

pub mod backends;
pub mod cmake;
pub mod server;
pub mod state;

pub use state::{AppState, ExpertiseLevel};

use crate::text::{opt_view, starts_with};
use vstd::prelude::*;
use vstd::string::*;

verus! {

// ---------------------------------------------------------------------------
// Backend types
// ---------------------------------------------------------------------------

#[derive(Debug, Clone, Copy, PartialEq, Eq, Structural)]
pub enum BackendName {
    Cuda,
    Hip,
    Metal,
    Vulkan,
    OpenBlas,
    CpuOnly,
}

pub open spec fn backend_label(b: BackendName) -> Seq<char> {
    match b {
        BackendName::Cuda => "CUDA (NVIDIA)"@,
        BackendName::Hip => "HIP (AMD ROCm)"@,
        BackendName::Metal => "Metal (Apple Silicon)"@,
        BackendName::Vulkan => "Vulkan"@,
        BackendName::OpenBlas => "OpenBLAS (CPU optimized)"@,
        BackendName::CpuOnly => "CPU Only"@,
    }
}

impl BackendName {
    pub fn as_str(&self) -> (r: &'static str)
        ensures
            r@ == backend_label(*self),
    {
        match self {
            BackendName::Cuda => "CUDA (NVIDIA)",
            BackendName::Hip => "HIP (AMD ROCm)",
            BackendName::Metal => "Metal (Apple Silicon)",
            BackendName::Vulkan => "Vulkan",
            BackendName::OpenBlas => "OpenBLAS (CPU optimized)",
            BackendName::CpuOnly => "CPU Only",
        }
    }

    pub fn all() -> (r: &'static [BackendName])
        ensures
            r@ == seq![
                BackendName::Cuda,
                BackendName::Hip,
                BackendName::Metal,
                BackendName::Vulkan,
                BackendName::OpenBlas,
                BackendName::CpuOnly,
            ],
    {
        &[
            BackendName::Cuda,
            BackendName::Hip,
            BackendName::Metal,
            BackendName::Vulkan,
            BackendName::OpenBlas,
            BackendName::CpuOnly,
        ]
    }
}

#[derive(Debug, Clone)]
pub struct Backend {
    pub name: BackendName,
    pub description: String,
    pub cmake_flags: Vec<String>,
    pub cuda_arch: Option<String>,
}

// ---------------------------------------------------------------------------
// Application config (config.toml)
// ---------------------------------------------------------------------------

#[derive(Debug, Clone)]
pub struct AppConfig {
    pub install_prefix: String,
    pub models_dir: String,
    pub backend: Option<BackendName>,
    pub parallel_jobs: Option<usize>,
    pub headless: bool,
}

/// The platform's data directory (`dirs::data_dir`), as text. Nothing is
/// stated of it: it depends on the operating system and the environment.
#[verifier::external_body]
pub(crate) fn platform_data_dir() -> (r: Option<String>) {
    dirs::data_dir().map(|p| p.to_string_lossy().into_owned())
}

/// The user's home directory (`dirs::home_dir`), as text. Nothing is stated
/// of it: it depends on the operating system and the environment.
#[verifier::external_body]
fn home_dir_text() -> (r: Option<String>) {
    dirs::home_dir().map(|p| p.to_string_lossy().into_owned())
}

/// A path component that `Path::join` appends as it is: non-empty, made of
/// letters, digits, `-`, `_` and `.` only (so no separator, root or drive).
pub open spec fn plain_component(s: Seq<char>) -> bool {
    s.len() > 0 && forall|i: int|
        0 <= i < s.len() ==> {
            let c = #[trigger] s[i];
            ('a' <= c && c <= 'z') || ('A' <= c && c <= 'Z') || ('0' <= c && c <= '9') || c == '-'
                || c == '_' || c == '.'
        }
}

/// `r` is `base` joined with a plain component `part`: `part` alone after an
/// empty base; appended directly after a trailing `/`; otherwise appended
/// after one platform separator (`/`, or `\` on Windows), which a base
/// ending in `\` or `:` may already stand for.
pub open spec fn is_path_join(base: Seq<char>, part: Seq<char>, r: Seq<char>) -> bool {
    if base.len() == 0 {
        r == part
    } else if base.last() == '/' {
        r == base + part
    } else if base.last() == '\\' || base.last() == ':' {
        r == base + part || r == base.push('/') + part || r == base.push('\\') + part
    } else {
        r == base.push('/') + part || r == base.push('\\') + part
    }
}

/// What `Path::join` is stated to do: for a plain component and a base that
/// is not a Windows verbatim path (`\\?\...`, which `join` rebuilds), the
/// join described by `is_path_join`.
pub open spec fn path_join_ok(base: Seq<char>, part: Seq<char>, r: Seq<char>) -> bool {
    plain_component(part) && !starts_with(base, "\\\\?\\"@) ==> is_path_join(base, part, r)
}

/// `base` with `part` adjoined as a path component (`Path::join`), as text.
/// For a relative component `Path::join` keeps the base, adds the platform
/// separator unless the base is empty or already ends in one, then the
/// component; that is stated for plain components and bases other than
/// Windows verbatim paths. Which separator (`/` or `\`) is the platform's
/// and is left open.
#[verifier::external_body]
fn join_path(base: &str, part: &str) -> (r: String)
    ensures
        path_join_ok(base@, part@, r@),
{
    std::path::Path::new(base).join(part).to_string_lossy().into_owned()
}

/// The platform's configuration directory (`dirs::config_dir`), as text.
/// Nothing is stated of it: it depends on the operating system and the
/// environment.
#[verifier::external_body]
fn platform_config_dir() -> (r: Option<String>) {
    dirs::config_dir().map(|p| p.to_string_lossy().into_owned())
}

/// `r` is the entry `name` of the application's `localforge` directory
/// under `base`.
pub open spec fn in_app_dir(base: Seq<char>, name: Seq<char>, r: Seq<char>) -> bool {
    exists|mid: Seq<char>|
        #[trigger] path_join_ok(base, "localforge"@, mid) && path_join_ok(mid, name, r)
}

/// The entry `name` of the `localforge` directory under `base`.
fn app_dir_entry(base: &str, name: &str) -> (r: String)
    ensures
        in_app_dir(base@, name@, r@),
{
    let app_dir = join_path(base, "localforge");
    let r = join_path(app_dir.as_str(), name);
    assert(path_join_ok(base@, "localforge"@, app_dir@));
    r
}

/// The configuration directory, `~/.config` when it is unknown.
pub open spec fn config_dir_or_default(config_dir: Option<String>) -> Seq<char> {
    match config_dir {
        Some(x) => x@,
        None => "~/.config"@,
    }
}

/// The configuration file of a machine whose configuration directory is
/// `config_dir`: `localforge/config.toml` under it (`~/.config` when
/// unknown).
pub fn config_path_for(config_dir: Option<String>) -> (r: String)
    ensures
        in_app_dir(config_dir_or_default(config_dir), "config.toml"@, r@),
{
    let ghost given = config_dir;
    let base = match config_dir {
        Some(d) => d,
        None => String::from_str("~/.config"),
    };
    assert(base@ == config_dir_or_default(given));
    app_dir_entry(base.as_str(), "config.toml")
}

/// The wizard's state file on a machine whose data directory is
/// `data_dir`: `localforge/state.toml` under it (`~/.local/share` when
/// unknown).
pub fn state_path_for(data_dir: Option<String>) -> (r: String)
    ensures
        in_app_dir(data_dir_or_default(data_dir), "state.toml"@, r@),
{
    let ghost given = data_dir;
    let base = match data_dir {
        Some(d) => d,
        None => String::from_str("~/.local/share"),
    };
    assert(base@ == data_dir_or_default(given));
    app_dir_entry(base.as_str(), "state.toml")
}

/// The log directory on a machine whose data directory is `data_dir`:
/// `localforge/logs` under it (`~/.local/share` when unknown).
pub fn log_dir_for(data_dir: Option<String>) -> (r: String)
    ensures
        in_app_dir(data_dir_or_default(data_dir), "logs"@, r@),
{
    let ghost given = data_dir;
    let base = match data_dir {
        Some(d) => d,
        None => String::from_str("~/.local/share"),
    };
    assert(base@ == data_dir_or_default(given));
    app_dir_entry(base.as_str(), "logs")
}

/// The log directory of this machine: `localforge/logs` under its data
/// directory.
pub fn get_log_dir() -> (r: String)
    ensures
        exists|d: Seq<char>| in_app_dir(d, "logs"@, r@),
{
    let data_dir = platform_data_dir();
    let r = log_dir_for(data_dir);
    assert(in_app_dir(data_dir_or_default(data_dir), "logs"@, r@));
    r
}

/// The platform's local data directory (`dirs::data_local_dir`), as text.
/// Nothing is stated of it: it depends on the operating system and the
/// environment.
#[verifier::external_body]
fn platform_data_local_dir() -> (r: Option<String>) {
    dirs::data_local_dir().map(|p| p.to_string_lossy().into_owned())
}

/// The local data directory, empty when it is unknown.
pub open spec fn local_dir_or_empty(data_local_dir: Option<String>) -> Seq<char> {
    match data_local_dir {
        Some(x) => x@,
        None => Seq::empty(),
    }
}

/// The GGUF file an inference server loads for the model `model_name` on a
/// machine whose local data directory is `data_local_dir`:
/// `models/<name>.gguf` in the `localforge` directory under it (or in a
/// relative `localforge` directory when it is unknown).
pub fn model_file_path_for(data_local_dir: Option<String>, model_name: &str) -> (r: String)
    ensures
        exists|mid: Seq<char>|
            #[trigger] path_join_ok(local_dir_or_empty(data_local_dir), "localforge"@, mid) && r@
                == mid + "/models/"@ + model_name@ + ".gguf"@,
{
    let ghost given = data_local_dir;
    let base = match data_local_dir {
        Some(d) => d,
        None => String::new(),
    };
    assert(base@ == local_dir_or_empty(given));
    let mut r = join_path(base.as_str(), "localforge");
    let ghost mid = r@;
    r.append("/models/");
    r.append(model_name);
    r.append(".gguf");
    assert(path_join_ok(local_dir_or_empty(given), "localforge"@, mid));
    r
}

/// The GGUF file of the model `model_name` on this machine.
pub fn model_file_path(model_name: &str) -> (r: String)
    ensures
        exists|d: Option<String>, mid: Seq<char>|
            #[trigger] path_join_ok(local_dir_or_empty(d), "localforge"@, mid) && r@ == mid
                + "/models/"@ + model_name@ + ".gguf"@,
{
    let d = platform_data_local_dir();
    let r = model_file_path_for(d, model_name);
    r
}

/// The data directory, `~/.local/share` when it is unknown.
pub open spec fn data_dir_or_default(data_dir: Option<String>) -> Seq<char> {
    match data_dir {
        Some(x) => x@,
        None => "~/.local/share"@,
    }
}

/// The default configuration for a machine whose data directory is
/// `data_dir` (`~/.local/share` when unknown): install under `~/.local`,
/// models in the `localforge/models` directory under the data directory,
/// no backend or job count chosen, interactive.
pub fn default_for(data_dir: Option<String>) -> (r: AppConfig)
    ensures
        r.install_prefix@ == "~/.local"@,
        r.backend is None,
        r.parallel_jobs is None,
        !r.headless,
        exists|mid: Seq<char>|
            #[trigger] path_join_ok(data_dir_or_default(data_dir), "localforge"@, mid)
                && path_join_ok(mid, "models"@, r.models_dir@),
{
    let ghost old_data_dir = data_dir;
    let data_dir = match data_dir {
        Some(d) => d,
        None => String::from_str("~/.local/share"),
    };
    let app_dir = join_path(data_dir.as_str(), "localforge");
    let models_dir = join_path(app_dir.as_str(), "models");
    assert(path_join_ok(data_dir_or_default(old_data_dir), "localforge"@, app_dir@));
    AppConfig {
        install_prefix: String::from_str("~/.local"),
        models_dir,
        backend: None,
        parallel_jobs: None,
        headless: false,
    }
}

impl Default for AppConfig {
    fn default() -> (r: Self)
        ensures
            r.install_prefix@ == "~/.local"@,
            r.backend is None,
            r.parallel_jobs is None,
            !r.headless,
            exists|d: Seq<char>, mid: Seq<char>|
                #[trigger] path_join_ok(d, "localforge"@, mid) && path_join_ok(
                    mid,
                    "models"@,
                    r.models_dir@,
                ),
    {
        let data_dir = platform_data_dir();
        let r = default_for(data_dir);
        let ghost d = data_dir_or_default(data_dir);
        assert(exists|mid: Seq<char>|
            #[trigger] path_join_ok(d, "localforge"@, mid) && path_join_ok(mid, "models"@, r.models_dir@));
        r
    }
}

/// `s` begins with a tilde that shell expansion may replace by the home
/// directory: `~` alone or `~` followed by a path separator.
pub open spec fn tilde_expandable(s: Seq<char>) -> bool {
    s.len() > 0 && s[0] == '~' && (s.len() == 1 || s[1] == '/' || s[1] == '\\')
}

/// `s` with its leading tilde replaced by `home`, when it has one that can
/// be expanded and a home directory is known; otherwise `s`.
pub open spec fn with_home(s: Seq<char>, home: Option<Seq<char>>) -> Seq<char> {
    match home {
        Some(h) => if tilde_expandable(s) {
            h + s.drop_first()
        } else {
            s
        },
        None => s,
    }
}

/// `r` is what tilde expansion gives for `s` with home directory `home`:
/// `with_home`, except that `~\` is expanded on Windows only.
pub open spec fn expanded_with(s: Seq<char>, home: Option<Seq<char>>, r: Seq<char>) -> bool {
    if s.len() > 1 && s[1] == '\\' {
        r == with_home(s, home) || r == s
    } else {
        r == with_home(s, home)
    }
}

/// Tilde expansion with a given home directory
/// (`shellexpand::tilde_with_context`): `~` alone or followed by `/` (or
/// by `\` on Windows) becomes the home directory followed by the rest;
/// any other text, or any text when no home is given, comes back unchanged.
#[verifier::external_body]
fn expand_tilde_with(s: &str, home: Option<&str>) -> (r: String)
    ensures
        expanded_with(
            s@,
            match home {
                Some(h) => Some(h@),
                None => None,
            },
            r@,
        ),
{
    shellexpand::tilde_with_context(s, move || home).into_owned()
}

/// Expand a leading tilde of `s` with the home directory `home`, if known.
pub fn resolve_with_home(s: &str, home: Option<String>) -> (r: String)
    ensures
        expanded_with(s@, opt_view(home), r@),
{
    match &home {
        Some(h) => expand_tilde_with(s, Some(h.as_str())),
        None => expand_tilde_with(s, None),
    }
}

impl AppConfig {
    /// The standard configuration file of this machine:
    /// `localforge/config.toml` under its configuration directory.
    pub fn default_path() -> (r: String)
        ensures
            exists|d: Seq<char>| in_app_dir(d, "config.toml"@, r@),
    {
        let config_dir = platform_config_dir();
        let r = config_path_for(config_dir);
        assert(in_app_dir(config_dir_or_default(config_dir), "config.toml"@, r@));
        r
    }

    /// Resolve the install prefix (expand tilde with the user's home).
    pub fn resolved_prefix(&self) -> (r: String)
        ensures
            exists|home: Option<Seq<char>>| expanded_with(self.install_prefix@, home, r@),
    {
        let home = home_dir_text();
        let r = resolve_with_home(self.install_prefix.as_str(), home);
        assert(expanded_with(self.install_prefix@, opt_view(home), r@));
        r
    }

    /// Resolve the models directory (expand tilde with the user's home).
    pub fn resolved_models_dir(&self) -> (r: String)
        ensures
            exists|home: Option<Seq<char>>| expanded_with(self.models_dir@, home, r@),
    {
        let home = home_dir_text();
        let r = resolve_with_home(self.models_dir.as_str(), home);
        assert(expanded_with(self.models_dir@, opt_view(home), r@));
        r
    }
}

} // verus!
