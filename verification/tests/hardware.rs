use localforge::hardware::detect::{linux_flavour, parse_nvcc_version};
use localforge::hardware::gpu::{
    amd_gpu, apple_gpu, compute_capability_from, detect_gpu, intel_gpu, lspci_gpu_name,
    lspci_line_matches, mb_from_bytes_text, nvidia_gpu, no_gpu, parse_nvidia_smi, trimmed,
    NvidiaReading,
};
use localforge::hardware::{GpuVendor, HardwareInfo};

#[test]
fn nvidia_smi_first_line() {
    let out = "NVIDIA GeForce RTX 3080, 10240 MiB\nNVIDIA GeForce RTX 3090, 24576 MiB\n";
    assert_eq!(parse_nvidia_smi(out), Some(("NVIDIA GeForce RTX 3080".to_string(), 10240)));
    assert_eq!(parse_nvidia_smi("Tesla T4,15360MB"), Some(("Tesla T4".to_string(), 15360)));
    assert_eq!(parse_nvidia_smi("no comma here"), None);
    assert_eq!(parse_nvidia_smi("GPU, lots"), None);
    assert_eq!(parse_nvidia_smi(""), None);
}

#[test]
fn lspci_gpu_lines() {
    let out = "00:02.0 VGA compatible controller: Intel Corporation UHD Graphics 630\n\
               01:00.0 VGA compatible controller: Advanced Micro Devices, Inc. [AMD/ATI] Navi 21 [Radeon RX 6800]\n";
    assert_eq!(
        lspci_gpu_name(out, GpuVendor::Intel),
        Some("Intel Corporation UHD Graphics 630".to_string())
    );
    assert_eq!(
        lspci_gpu_name(out, GpuVendor::Amd),
        Some("Advanced Micro Devices, Inc. [AMD/ATI] Navi 21 [Radeon RX 6800]".to_string())
    );
    assert_eq!(lspci_gpu_name(out, GpuVendor::Nvidia), None);
    assert!(lspci_line_matches("amd radeon", GpuVendor::Amd));
    assert!(!lspci_line_matches("amd cpu", GpuVendor::Amd));
    assert!(lspci_line_matches("intel iris xe", GpuVendor::Intel));
}

#[test]
fn sysfs_bytes_to_mb() {
    assert_eq!(mb_from_bytes_text("17163091968\n"), Some(16368));
    assert_eq!(mb_from_bytes_text("1048575"), Some(0));
    assert_eq!(mb_from_bytes_text("abc"), None);
}

#[test]
fn gpu_priority() {
    let n = NvidiaReading {
        name: "RTX".into(),
        vram_mb: 8192,
        driver_version: Some("550".into()),
        compute_capability: Some("8.6".into()),
    };
    let a = ("RX".to_string(), 16384u64);
    let g = detect_gpu(true, Some(n.clone()), Some(a.clone()), None, None);
    assert_eq!(g.name, "RTX");
    assert_eq!(g.vendor, GpuVendor::Nvidia);
    assert!(g.cuda_support);
    assert_eq!(g.compute_capability.as_deref(), Some("8.6"));
    assert_eq!(g.driver_version.as_deref(), Some("550"));
    assert!(!detect_gpu(false, Some(n), None, None, None).cuda_support);
    let amd = detect_gpu(true, None, Some(a.clone()), Some("UHD".into()), None);
    assert_eq!(amd.name, "RX");
    assert_eq!(amd.vendor, GpuVendor::Amd);
    assert_eq!(amd.vram_mb, 16384);
    assert!(!amd.cuda_support);
    assert_eq!(amd.compute_capability, None);
    let intel = detect_gpu(true, None, None, Some("UHD".into()), None);
    assert_eq!(intel.vendor, GpuVendor::Intel);
    assert_eq!(intel.vram_mb, 2048);
    assert!(!intel.cuda_support);
    let mac = detect_gpu(false, None, None, None, Some(("Apple M2 Pro".into(), 32768)));
    assert_eq!(mac.name, "Apple Silicon (Metal)");
    assert_eq!(mac.vendor, GpuVendor::Apple);
    assert_eq!(mac.vram_mb, 32768);
    let none = detect_gpu(false, None, None, None, None);
    assert_eq!(none.name, "No dedicated GPU detected");
    assert_eq!(none.vendor, GpuVendor::Unknown);
    assert_eq!(none.vram_mb, 0);
    let intel_mac = detect_gpu(false, None, None, None, Some(("Intel(R) Core(TM) i7".into(), 16384)));
    assert_eq!(intel_mac.vendor, GpuVendor::Unknown);
    assert_eq!(no_gpu().vram_mb, 0);
    let i = intel_gpu("UHD".into());
    assert_eq!(i.vram_mb, 2048);
    let a2 = amd_gpu("RX".into(), 16384);
    assert_eq!(a2.vendor, GpuVendor::Amd);
    let n2 = nvidia_gpu("RTX".into(), 8192, None, true, None);
    assert!(n2.cuda_support);
}

#[test]
fn apple_silicon_only_for_apple_cpus() {
    let g = apple_gpu("Apple M2 Pro", 32768).unwrap();
    assert_eq!(g.name, "Apple Silicon (Metal)");
    assert_eq!(g.vram_mb, 32768);
    assert!(apple_gpu("Intel(R) Core(TM) i7", 16384).is_none());
}

#[test]
fn memory_formatting() {
    assert_eq!(HardwareInfo::format_memory(8192), "8.0 GB");
    assert_eq!(HardwareInfo::format_memory(10240), "10.0 GB");
    assert_eq!(HardwareInfo::format_memory(1536), "1.5 GB");
    assert_eq!(HardwareInfo::format_memory(512), "512 MB");
    assert_eq!(GpuVendor::Amd.as_str(), "AMD");
}

#[test]
fn os_and_cuda_toolkit() {
    assert_eq!(linux_flavour(Some("Linux version 5.15.0-microsoft-standard-WSL2")), "Linux (WSL)");
    assert_eq!(linux_flavour(Some("Linux version 6.1.0 (gcc)")), "Linux");
    assert_eq!(linux_flavour(None), "Linux");
    let nvcc = "nvcc: NVIDIA (R) Cuda compiler driver\nCuda compilation tools, release 12.4, V12.4.131\n";
    assert_eq!(parse_nvcc_version(nvcc), Some("12.4".to_string()));
    assert_eq!(parse_nvcc_version("nothing"), None);
}

#[test]
fn compute_capability_text() {
    assert_eq!(compute_capability_from(" 8.6\n"), Some("8.6".to_string()));
    assert_eq!(compute_capability_from("  \n"), None);
    assert_eq!(trimmed("  550.54 \n"), "550.54");
}
