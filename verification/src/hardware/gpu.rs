//! GPU detection: the order in which vendors are tried and the parsing of
//! what the probes (`nvidia-smi`, `lspci`, `sysctl`, sysfs) print.

use crate::hardware::{GpuInfo, GpuVendor};
use crate::text::{
    chars_of, contains_seq, lines_of, lines_seq, lowercase, opt_view, parse_u64, parse_unsigned, pieces_view,
    remove_all, remove_pattern, split_chars, split_seq, str_contains, string_of, to_lowercase,
    trim, trim_chars,
};
use vstd::prelude::*;
use vstd::string::*;

verus! {

/// The GPU reported when no probe found one.
pub fn no_gpu() -> (r: GpuInfo)
    ensures
        r.name@ == "No dedicated GPU detected"@,
        r.vendor == GpuVendor::Unknown,
        r.vram_mb == 0,
        r.driver_version is None,
        !r.cuda_support,
        r.compute_capability is None,
{
    GpuInfo {
        name: String::from_str("No dedicated GPU detected"),
        vendor: GpuVendor::Unknown,
        vram_mb: 0,
        driver_version: None,
        cuda_support: false,
        compute_capability: None,
    }
}

/// What the NVIDIA probes (NVML, else `nvidia-smi`) read of the first GPU.
#[derive(Debug, Clone)]
pub struct NvidiaReading {
    pub name: String,
    pub vram_mb: u64,
    pub driver_version: Option<String>,
    pub compute_capability: Option<String>,
}

/// `g` has exactly these fields.
pub open spec fn gpu_is(
    g: GpuInfo,
    name: Seq<char>,
    vendor: GpuVendor,
    vram_mb: u64,
    driver_version: Option<Seq<char>>,
    cuda_support: bool,
    compute_capability: Option<Seq<char>>,
) -> bool {
    &&& g.name@ == name
    &&& g.vendor == vendor
    &&& g.vram_mb == vram_mb
    &&& opt_view(g.driver_version) == driver_version
    &&& g.cuda_support == cuda_support
    &&& opt_view(g.compute_capability) == compute_capability
}

/// The detected GPU, from what the probes read: an NVIDIA GPU first (CUDA
/// support as `cuda_available` says), then an AMD GPU (its `lspci` name and
/// VRAM), then an Intel GPU (its `lspci` name; 2048 MB assumed), then Apple
/// silicon (the CPU brand and unified memory, read on macOS only) when the
/// brand names Apple; otherwise no GPU.
pub fn detect_gpu(
    cuda_available: bool,
    nvidia: Option<NvidiaReading>,
    amd: Option<(String, u64)>,
    intel: Option<String>,
    apple: Option<(String, u64)>,
) -> (r: GpuInfo)
    ensures
        nvidia matches Some(n) ==> gpu_is(
            r,
            n.name@,
            GpuVendor::Nvidia,
            n.vram_mb,
            opt_view(n.driver_version),
            cuda_available,
            opt_view(n.compute_capability),
        ),
        nvidia is None ==> (amd matches Some((name, vram)) ==> gpu_is(
            r,
            name@,
            GpuVendor::Amd,
            vram,
            None,
            false,
            None,
        )),
        nvidia is None && amd is None ==> (intel matches Some(name) ==> gpu_is(
            r,
            name@,
            GpuVendor::Intel,
            2048,
            None,
            false,
            None,
        )),
        nvidia is None && amd is None && intel is None ==> (apple matches Some((brand, memory))
            ==> (contains_seq(brand@, "Apple"@) ==> gpu_is(
            r,
            "Apple Silicon (Metal)"@,
            GpuVendor::Apple,
            memory,
            None,
            false,
            None,
        ))),
        nvidia is None && amd is None && intel is None && (apple is None || (apple matches Some(
            (brand, memory),
        ) && !contains_seq(brand@, "Apple"@))) ==> gpu_is(
            r,
            "No dedicated GPU detected"@,
            GpuVendor::Unknown,
            0,
            None,
            false,
            None,
        ),
        r.cuda_support ==> r.vendor == GpuVendor::Nvidia && cuda_available,
        r.vendor != GpuVendor::Nvidia ==> !r.cuda_support && r.compute_capability is None,
        r.vendor == GpuVendor::Intel ==> r.vram_mb == 2048,
{
    if let Some(n) = nvidia {
        return nvidia_gpu(n.name, n.vram_mb, n.driver_version, cuda_available, n.compute_capability);
    }
    if let Some((name, vram)) = amd {
        return amd_gpu(name, vram);
    }
    if let Some(name) = intel {
        return intel_gpu(name);
    }
    if let Some((brand, memory)) = apple {
        if let Some(g) = apple_gpu(brand.as_str(), memory) {
            return g;
        }
    }
    no_gpu()
}

/// Name and VRAM from `nvidia-smi --query-gpu=name,memory.total
/// --format=csv,noheader`: the first line split at commas, the name trimmed
/// and the memory trimmed, its ` MiB` and `MB` units removed, parsed as MB.
pub open spec fn spec_nvidia_smi(stdout: Seq<char>) -> Option<(Seq<char>, u64)> {
    let ls = lines_seq(stdout);
    if ls.len() == 0 {
        None
    } else {
        let parts = split_seq(ls[0], ',');
        if parts.len() < 2 {
            None
        } else {
            let vram_text = remove_all(remove_all(trim(parts[1]), " MiB"@), "MB"@);
            match parse_unsigned(vram_text, u64::MAX as nat) {
                Some(v) => Some((trim(parts[0]), v as u64)),
                None => None,
            }
        }
    }
}

pub fn parse_nvidia_smi(stdout: &str) -> (r: Option<(String, u64)>)
    ensures
        match r {
            Some((name, vram)) => spec_nvidia_smi(stdout@) == Some((name@, vram)),
            None => spec_nvidia_smi(stdout@) is None,
        },
{
    let cs = chars_of(stdout);
    let lines = lines_of(cs.as_slice());
    if lines.len() == 0 {
        return None;
    }
    let ghost l0 = pieces_view(lines@)[0];
    assert(lines@[0]@ == l0);
    let parts = split_chars(lines[0].as_slice(), ',');
    if parts.len() < 2 {
        return None;
    }
    assert(pieces_view(parts@)[0] == parts@[0]@);
    assert(pieces_view(parts@)[1] == parts@[1]@);
    let name = trim_chars(parts[0].as_slice());
    let t = trim_chars(parts[1].as_slice());
    let mib = chars_of(" MiB");
    let mb = chars_of("MB");
    proof {
        reveal_strlit(" MiB");
        reveal_strlit("MB");
    }
    let a = remove_pattern(t.as_slice(), mib.as_slice());
    let b = remove_pattern(a.as_slice(), mb.as_slice());
    match parse_u64(b.as_slice()) {
        Some(v) => Some((string_of(name.as_slice()), v)),
        None => None,
    }
}

/// Whether an `lspci` line, lower-cased, shows a GPU of the vendor: AMD
/// lines mention `amd` and `radeon` or `graphics`; Intel lines mention
/// `intel` and `graphics`, `uhd` or `iris`.
pub open spec fn lspci_matches(lower: Seq<char>, vendor: GpuVendor) -> bool {
    if vendor == GpuVendor::Amd {
        contains_seq(lower, "amd"@) && (contains_seq(lower, "radeon"@) || contains_seq(
            lower,
            "graphics"@,
        ))
    } else if vendor == GpuVendor::Intel {
        contains_seq(lower, "intel"@) && (contains_seq(lower, "graphics"@) || contains_seq(
            lower,
            "uhd"@,
        ) || contains_seq(lower, "iris"@))
    } else {
        false
    }
}

/// Whether a lower-cased `lspci` line shows a GPU of the vendor.
pub fn lspci_line_matches(lower: &str, vendor: GpuVendor) -> (r: bool)
    ensures
        r == lspci_matches(lower@, vendor),
{
    match vendor {
        GpuVendor::Amd => str_contains(lower, "amd") && (str_contains(lower, "radeon")
            || str_contains(lower, "graphics")),
        GpuVendor::Intel => str_contains(lower, "intel") && (str_contains(lower, "graphics")
            || str_contains(lower, "uhd") || str_contains(lower, "iris")),
        _ => false,
    }
}

/// The device name of an `lspci` line: its third colon-separated field,
/// trimmed, if it has one.
pub open spec fn lspci_name(line: Seq<char>) -> Option<Seq<char>> {
    let parts = split_seq(line, ':');
    if parts.len() >= 3 {
        Some(trim(parts[2]))
    } else {
        None
    }
}

/// The outcome of scanning `lines` for the first line of the vendor: `None`
/// when no line matches, otherwise the name found on that line (if any).
pub open spec fn lspci_scan(lines: Seq<Seq<char>>, vendor: GpuVendor) -> Option<Option<Seq<char>>>
    decreases lines.len(),
{
    if lines.len() == 0 {
        None
    } else if lspci_matches(lowercase(lines[0]), vendor) {
        Some(lspci_name(lines[0]))
    } else {
        lspci_scan(lines.drop_first(), vendor)
    }
}

/// The name of the vendor's GPU in `lspci` output: found on the first line
/// that shows one; nothing when no line does or that line has no name.
pub open spec fn spec_lspci_gpu_name(stdout: Seq<char>, vendor: GpuVendor) -> Option<Seq<char>> {
    match lspci_scan(lines_seq(stdout), vendor) {
        Some(n) => n,
        None => None,
    }
}

pub fn lspci_gpu_name(stdout: &str, vendor: GpuVendor) -> (r: Option<String>)
    ensures
        match r {
            Some(n) => spec_lspci_gpu_name(stdout@, vendor) == Some(n@),
            None => spec_lspci_gpu_name(stdout@, vendor) is None,
        },
{
    let cs = chars_of(stdout);
    let lines = lines_of(cs.as_slice());
    let ghost lv = pieces_view(lines@);
    let mut i: usize = 0;
    assert(lv.skip(0) =~= lv);
    while i < lines.len()
        invariant
            lv == pieces_view(lines@),
            lv == lines_seq(stdout@),
            i <= lines.len(),
            lspci_scan(lv, vendor) == lspci_scan(lv.skip(i as int), vendor),
        decreases lines.len() - i,
    {
        let ghost rest = lv.skip(i as int);
        assert(rest[0] == lines@[i as int]@);
        assert(rest.drop_first() =~= lv.skip(i + 1));
        let line = string_of(lines[i].as_slice());
        let lower = to_lowercase(line.as_str());
        if lspci_line_matches(lower.as_str(), vendor) {
            let parts = split_chars(lines[i].as_slice(), ':');
            if parts.len() >= 3 {
                assert(pieces_view(parts@)[2] == parts@[2]@);
                let name = trim_chars(parts[2].as_slice());
                return Some(string_of(name.as_slice()));
            } else {
                return None;
            }
        }
        i = i + 1;
    }
    assert(lv.skip(i as int) =~= Seq::<Seq<char>>::empty());
    None
}

/// VRAM assumed for an AMD GPU whose size could not be read.
pub fn amd_vram_fallback_mb() -> (r: u64)
    ensures
        r == 4096,
{
    4096
}

/// VRAM assumed for an Intel integrated GPU.
pub fn intel_vram_mb() -> (r: u64)
    ensures
        r == 2048,
{
    2048
}

/// Unified memory assumed on a Mac whose size could not be read.
pub fn apple_memory_fallback_mb() -> (r: u64)
    ensures
        r == 8192,
{
    8192
}

/// A byte count printed by the system (sysfs `mem_info_vram_total`,
/// `sysctl -n hw.memsize`), trimmed and parsed, in whole MB.
pub open spec fn spec_mb_from_bytes_text(text: Seq<char>) -> Option<u64> {
    match parse_unsigned(trim(text), u64::MAX as nat) {
        Some(b) => Some((b / 1048576) as u64),
        None => None,
    }
}

pub fn mb_from_bytes_text(text: &str) -> (r: Option<u64>)
    ensures
        r == spec_mb_from_bytes_text(text@),
{
    let cs = chars_of(text);
    let t = trim_chars(cs.as_slice());
    match parse_u64(t.as_slice()) {
        Some(b) => Some(b / 1048576),
        None => None,
    }
}

pub fn amd_gpu(name: String, vram_mb: u64) -> (r: GpuInfo)
    ensures
        r.name == name,
        r.vendor == GpuVendor::Amd,
        r.vram_mb == vram_mb,
        r.driver_version is None,
        !r.cuda_support,
        r.compute_capability is None,
{
    GpuInfo {
        name,
        vendor: GpuVendor::Amd,
        vram_mb,
        driver_version: None,
        cuda_support: false,
        compute_capability: None,
    }
}

pub fn intel_gpu(name: String) -> (r: GpuInfo)
    ensures
        r.name == name,
        r.vendor == GpuVendor::Intel,
        r.vram_mb == 2048,
        r.driver_version is None,
        !r.cuda_support,
        r.compute_capability is None,
{
    GpuInfo {
        name,
        vendor: GpuVendor::Intel,
        vram_mb: intel_vram_mb(),
        driver_version: None,
        cuda_support: false,
        compute_capability: None,
    }
}

/// The Apple GPU, when the CPU brand names Apple silicon.
pub fn apple_gpu(cpu_brand: &str, memory_mb: u64) -> (r: Option<GpuInfo>)
    ensures
        !contains_seq(cpu_brand@, "Apple"@) ==> r is None,
        contains_seq(cpu_brand@, "Apple"@) ==> (r matches Some(g) && g.name@
            == "Apple Silicon (Metal)"@ && g.vendor == GpuVendor::Apple && g.vram_mb == memory_mb
            && g.driver_version is None && !g.cuda_support && g.compute_capability is None),
{
    if str_contains(cpu_brand, "Apple") {
        Some(
            GpuInfo {
                name: String::from_str("Apple Silicon (Metal)"),
                vendor: GpuVendor::Apple,
                vram_mb: memory_mb,
                driver_version: None,
                cuda_support: false,
                compute_capability: None,
            },
        )
    } else {
        None
    }
}

pub fn nvidia_gpu(
    name: String,
    vram_mb: u64,
    driver_version: Option<String>,
    cuda_available: bool,
    compute_capability: Option<String>,
) -> (r: GpuInfo)
    ensures
        r.name == name,
        r.vendor == GpuVendor::Nvidia,
        r.vram_mb == vram_mb,
        r.driver_version == driver_version,
        r.cuda_support == cuda_available,
        r.compute_capability == compute_capability,
{
    GpuInfo {
        name,
        vendor: GpuVendor::Nvidia,
        vram_mb,
        driver_version,
        cuda_support: cuda_available,
        compute_capability,
    }
}

/// The compute capability printed by `nvidia-smi --query-gpu=compute_cap`:
/// the trimmed output, or nothing when that is empty.
pub fn compute_capability_from(stdout: &str) -> (r: Option<String>)
    ensures
        trim(stdout@).len() == 0 ==> r is None,
        trim(stdout@).len() > 0 ==> (r matches Some(c) && c@ == trim(stdout@)),
{
    let cs = chars_of(stdout);
    let t = trim_chars(cs.as_slice());
    if t.len() == 0 {
        None
    } else {
        Some(string_of(t.as_slice()))
    }
}

/// The trimmed output of a probe.
pub fn trimmed(stdout: &str) -> (r: String)
    ensures
        r@ == trim(stdout@),
{
    let cs = chars_of(stdout);
    let t = trim_chars(cs.as_slice());
    string_of(t.as_slice())
}

} // verus!
