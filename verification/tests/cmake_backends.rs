use localforge::config::backends::{
    auto_select, available_backends, make_backend, map_compute_capability, select_backend,
};
use localforge::config::cmake::{
    format_cmake_command, generate_cmake_flags, parse_nvcc_archs, resolve_cuda_arch,
};
use localforge::config::BackendName;
use localforge::hardware::{CpuInfo, GpuInfo, GpuVendor, HardwareInfo, MemoryInfo};

fn hw(vendor: GpuVendor, cuda: bool, rocm: bool, cc: Option<&str>) -> HardwareInfo {
    HardwareInfo {
        cpu: CpuInfo {
            name: "cpu".into(),
            cores_physical: 8,
            cores_logical: 16,
            vendor: "v".into(),
            architecture: "x86_64".into(),
        },
        gpu: GpuInfo {
            name: "gpu".into(),
            vendor,
            vram_mb: 8192,
            driver_version: None,
            cuda_support: cuda,
            compute_capability: cc.map(|s| s.to_string()),
        },
        memory: MemoryInfo { total_mb: 32768, available_mb: 16000 },
        os: "Linux".into(),
        cuda_available: cuda,
        cuda_version: None,
        rocm_available: rocm,
    }
}

fn strs(v: &[&str]) -> Vec<String> {
    v.iter().map(|s| s.to_string()).collect()
}

#[test]
fn nvcc_archs_sorted_and_deduplicated() {
    let out = "compute_90\ncompute_50\n  compute_86  \nsm_75\ncompute_86\ncompute_120\n";
    assert_eq!(parse_nvcc_archs(out), strs(&["50", "86", "90", "120"]));
    assert!(parse_nvcc_archs("").is_empty());
}

#[test]
fn cuda_arch_resolution() {
    let supported = strs(&["75", "86", "90"]);
    assert_eq!(resolve_cuda_arch(Some("8.6"), &supported), "86");
    assert_eq!(resolve_cuda_arch(Some("12.0"), &supported), "90");
    assert_eq!(resolve_cuda_arch(None, &supported), "native");
    assert_eq!(resolve_cuda_arch(Some("8.6"), &[]), "native");
}

#[test]
fn cmake_flags_per_backend() {
    let archs = strs(&["86"]);
    assert_eq!(
        generate_cmake_flags(BackendName::Cuda, Some("8.6"), &archs),
        strs(&[
            "-DCMAKE_BUILD_TYPE=Release",
            "-DGGML_CUDA=ON",
            "-DGGML_CUDA_F16=ON",
            "-DCMAKE_CUDA_ARCHITECTURES=86",
        ])
    );
    assert_eq!(
        generate_cmake_flags(BackendName::Metal, None, &[]),
        strs(&["-DCMAKE_BUILD_TYPE=Release", "-DGGML_METAL=ON", "-DGGML_METAL_EMBED_LIBRARY=ON"])
    );
    assert_eq!(
        generate_cmake_flags(BackendName::CpuOnly, None, &[]),
        strs(&["-DCMAKE_BUILD_TYPE=Release", "-DGGML_NATIVE=ON"])
    );
    assert_eq!(generate_cmake_flags(BackendName::Hip, None, &[]).len(), 4);
    assert_eq!(
        generate_cmake_flags(BackendName::OpenBlas, None, &[]),
        strs(&["-DCMAKE_BUILD_TYPE=Release", "-DGGML_BLAS=ON", "-DGGML_BLAS_VENDOR=OpenBLAS"])
    );
}

#[test]
fn cmake_command_text() {
    let flags = strs(&["-DA=1", "-DB=2"]);
    assert_eq!(
        format_cmake_command("src", "build", &flags),
        "cmake -S src -B build \\\n  -DA=1 \\\n  -DB=2"
    );
    assert_eq!(format_cmake_command("s", "b", &[]), "cmake -S s -B b \\\n");
}

#[test]
fn compute_capability_drops_dots() {
    assert_eq!(map_compute_capability(&Some("8.6".to_string())), Some("86".to_string()));
    assert_eq!(map_compute_capability(&None), None);
}

#[test]
fn auto_selection_by_vendor() {
    let archs = strs(&["86"]);
    let b = auto_select(&hw(GpuVendor::Nvidia, true, false, Some("8.6")), &archs).unwrap();
    assert_eq!(b.name, BackendName::Cuda);
    assert_eq!(b.cuda_arch, Some("86".to_string()));
    assert_eq!(b.description, "CUDA (NVIDIA)");
    assert_eq!(auto_select(&hw(GpuVendor::Nvidia, false, false, None), &[]).unwrap().name, BackendName::CpuOnly);
    assert_eq!(auto_select(&hw(GpuVendor::Amd, false, true, None), &[]).unwrap().name, BackendName::Hip);
    assert_eq!(auto_select(&hw(GpuVendor::Amd, false, false, None), &[]).unwrap().name, BackendName::Vulkan);
    assert_eq!(auto_select(&hw(GpuVendor::Apple, false, false, None), &[]).unwrap().name, BackendName::Metal);
    assert_eq!(auto_select(&hw(GpuVendor::Intel, false, false, None), &[]).unwrap().name, BackendName::Vulkan);
    assert_eq!(auto_select(&hw(GpuVendor::Unknown, false, false, None), &[]).unwrap().name, BackendName::CpuOnly);
}

#[test]
fn overrides_take_precedence() {
    let h = hw(GpuVendor::Nvidia, true, false, Some("8.9"));
    assert_eq!(select_backend(&h, true, true, true, true, &[]).unwrap().name, BackendName::CpuOnly);
    assert_eq!(select_backend(&h, false, true, true, false, &[]).unwrap().name, BackendName::Metal);
    let c = select_backend(&h, false, true, false, true, &[]).unwrap();
    assert_eq!(c.name, BackendName::Cuda);
    assert_eq!(c.cmake_flags[3], "-DCMAKE_CUDA_ARCHITECTURES=native");
    assert_eq!(select_backend(&h, false, false, false, true, &[]).unwrap().name, BackendName::Vulkan);
    assert_eq!(select_backend(&h, false, false, false, false, &[]).unwrap().name, BackendName::Cuda);
}

#[test]
fn offered_backends() {
    assert_eq!(
        available_backends(&hw(GpuVendor::Nvidia, true, false, None)),
        vec![BackendName::Cuda, BackendName::Vulkan, BackendName::OpenBlas, BackendName::CpuOnly]
    );
    assert_eq!(
        available_backends(&hw(GpuVendor::Unknown, false, false, None)),
        vec![BackendName::OpenBlas, BackendName::CpuOnly]
    );
    assert_eq!(
        available_backends(&hw(GpuVendor::Apple, false, false, None)),
        vec![BackendName::Metal, BackendName::Vulkan, BackendName::OpenBlas, BackendName::CpuOnly]
    );
}

#[test]
fn backend_from_name() {
    let b = make_backend(BackendName::Vulkan, None, &[]);
    assert_eq!(b.description, "Vulkan");
    assert_eq!(b.cmake_flags, strs(&["-DCMAKE_BUILD_TYPE=Release", "-DGGML_VULKAN=ON"]));
    assert_eq!(BackendName::all().len(), 6);
}

#[test]
fn automatic_choice_is_always_offered() {
    for h in [
        hw(GpuVendor::Nvidia, true, false, Some("8.6")),
        hw(GpuVendor::Nvidia, false, false, None),
        hw(GpuVendor::Amd, false, true, None),
        hw(GpuVendor::Amd, false, false, None),
        hw(GpuVendor::Intel, false, false, None),
        hw(GpuVendor::Apple, false, false, None),
        hw(GpuVendor::Unknown, false, false, None),
    ] {
        let chosen = auto_select(&h, &[]).unwrap().name;
        assert!(available_backends(&h).contains(&chosen));
    }
}
