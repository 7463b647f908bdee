//! Backend selection from detected hardware and user overrides.

use crate::config::cmake::{generate_cmake_flags, spec_cmake_flags, spec_resolve_cuda_arch};
use crate::config::{backend_label, Backend, BackendName};
use crate::error::LocalForgeError;
use crate::hardware::{GpuVendor, HardwareInfo};
use crate::text::{copy_opt, opt_view, remove_char, strings_view, without_char};
use vstd::prelude::*;
use vstd::string::*;

verus! {

/// The compute capability with its dots removed ("8.6" becomes "86").
pub open spec fn spec_map_cc(cc: Option<Seq<char>>) -> Option<Seq<char>> {
    match cc {
        Some(v) => Some(without_char(v, '.')),
        None => None,
    }
}

pub fn map_compute_capability(cc: &Option<String>) -> (r: Option<String>)
    ensures
        opt_view(r) == spec_map_cc(opt_view(*cc)),
{
    match cc {
        Some(v) => Some(remove_char(v.as_str(), '.')),
        None => None,
    }
}

/// `b` is the backend `name` with CUDA architecture `arch`, its flags
/// generated against the architectures `nvcc` supports.
pub open spec fn is_backend(
    b: Backend,
    name: BackendName,
    arch: Option<Seq<char>>,
    nvcc_archs: Seq<Seq<char>>,
) -> bool {
    &&& b.name == name
    &&& b.description@ == backend_label(name)
    &&& strings_view(b.cmake_flags@) == spec_cmake_flags(name, spec_resolve_cuda_arch(arch, nvcc_archs))
    &&& opt_view(b.cuda_arch) == arch
}

/// Build a `Backend` from a name.
pub fn make_backend(name: BackendName, cuda_arch: Option<String>, nvcc_archs: &[String]) -> (r:
    Backend)
    ensures
        is_backend(r, name, opt_view(cuda_arch), strings_view(nvcc_archs@)),
{
    let cmake_flags = match &cuda_arch {
        Some(a) => generate_cmake_flags(name, Some(a.as_str()), nvcc_archs),
        None => generate_cmake_flags(name, None, nvcc_archs),
    };
    Backend { name, description: String::from_str(name.as_str()), cmake_flags, cuda_arch }
}

/// The backend chosen from hardware alone: CUDA for an NVIDIA GPU with
/// CUDA, HIP for an AMD GPU with ROCm, Metal on Apple, Vulkan for other
/// Intel or AMD GPUs, otherwise CPU only.
pub open spec fn spec_auto_name(hw: HardwareInfo) -> BackendName {
    if hw.cuda_available && hw.gpu.vendor == GpuVendor::Nvidia {
        BackendName::Cuda
    } else if hw.rocm_available && hw.gpu.vendor == GpuVendor::Amd {
        BackendName::Hip
    } else if hw.gpu.vendor == GpuVendor::Apple {
        BackendName::Metal
    } else if hw.gpu.vendor == GpuVendor::Intel || hw.gpu.vendor == GpuVendor::Amd {
        BackendName::Vulkan
    } else {
        BackendName::CpuOnly
    }
}

/// The CUDA architecture that goes with a choice: the GPU's compute
/// capability for CUDA, none otherwise.
pub open spec fn arch_for(name: BackendName, hw: HardwareInfo) -> Option<Seq<char>> {
    if name == BackendName::Cuda {
        spec_map_cc(opt_view(hw.gpu.compute_capability))
    } else {
        None
    }
}

/// Auto-select backend from hardware info alone (no overrides).
pub fn auto_select(hw: &HardwareInfo, nvcc_archs: &[String]) -> (r: Result<Backend, LocalForgeError>)
    ensures
        r is Ok,
        r matches Ok(b) ==> is_backend(
            b,
            spec_auto_name(*hw),
            arch_for(spec_auto_name(*hw), *hw),
            strings_view(nvcc_archs@),
        ),
{
    if hw.cuda_available && hw.gpu.vendor == GpuVendor::Nvidia {
        let arch = map_compute_capability(&hw.gpu.compute_capability);
        return Ok(make_backend(BackendName::Cuda, arch, nvcc_archs));
    }
    if hw.rocm_available && hw.gpu.vendor == GpuVendor::Amd {
        return Ok(make_backend(BackendName::Hip, None, nvcc_archs));
    }
    if hw.gpu.vendor == GpuVendor::Apple {
        return Ok(make_backend(BackendName::Metal, None, nvcc_archs));
    }
    if hw.gpu.vendor == GpuVendor::Intel || hw.gpu.vendor == GpuVendor::Amd {
        return Ok(make_backend(BackendName::Vulkan, None, nvcc_archs));
    }
    Ok(make_backend(BackendName::CpuOnly, None, nvcc_archs))
}

/// The backend chosen with overrides: forced CPU wins, then Metal, then
/// CUDA, then Vulkan; without any override, the hardware decides.
pub open spec fn spec_selected_name(
    hw: HardwareInfo,
    force_cpu: bool,
    force_cuda: bool,
    force_metal: bool,
    force_vulkan: bool,
) -> BackendName {
    if force_cpu {
        BackendName::CpuOnly
    } else if force_metal {
        BackendName::Metal
    } else if force_cuda {
        BackendName::Cuda
    } else if force_vulkan {
        BackendName::Vulkan
    } else {
        spec_auto_name(hw)
    }
}

/// Auto-select the best backend based on detected hardware and optional overrides.
pub fn select_backend(
    hw: &HardwareInfo,
    force_cpu: bool,
    force_cuda: bool,
    force_metal: bool,
    force_vulkan: bool,
    nvcc_archs: &[String],
) -> (r: Result<Backend, LocalForgeError>)
    ensures
        r is Ok,
        r matches Ok(b) ==> {
            let name = spec_selected_name(*hw, force_cpu, force_cuda, force_metal, force_vulkan);
            is_backend(b, name, arch_for(name, *hw), strings_view(nvcc_archs@))
        },
{
    if force_cpu {
        return Ok(make_backend(BackendName::CpuOnly, None, nvcc_archs));
    }
    if force_metal {
        return Ok(make_backend(BackendName::Metal, None, nvcc_archs));
    }
    if force_cuda {
        let arch = map_compute_capability(&hw.gpu.compute_capability);
        return Ok(make_backend(BackendName::Cuda, arch, nvcc_archs));
    }
    if force_vulkan {
        return Ok(make_backend(BackendName::Vulkan, None, nvcc_archs));
    }
    auto_select(hw, nvcc_archs)
}

/// The backends offered for the hardware, best first; OpenBLAS and CPU only
/// are always offered.
pub open spec fn spec_available(hw: HardwareInfo) -> Seq<BackendName> {
    let s0: Seq<BackendName> = seq![];
    let s1 = if hw.cuda_available && hw.gpu.vendor == GpuVendor::Nvidia {
        s0.push(BackendName::Cuda)
    } else {
        s0
    };
    let s2 = if hw.rocm_available && hw.gpu.vendor == GpuVendor::Amd {
        s1.push(BackendName::Hip)
    } else {
        s1
    };
    let s3 = if hw.gpu.vendor == GpuVendor::Apple {
        s2.push(BackendName::Metal)
    } else {
        s2
    };
    let s4 = if hw.gpu.vendor != GpuVendor::Unknown {
        s3.push(BackendName::Vulkan)
    } else {
        s3
    };
    s4.push(BackendName::OpenBlas).push(BackendName::CpuOnly)
}

/// Return the list of backends available on this hardware.
pub fn available_backends(hw: &HardwareInfo) -> (r: Vec<BackendName>)
    ensures
        r@ == spec_available(*hw),
{
    let mut backends: Vec<BackendName> = Vec::new();
    if hw.cuda_available && hw.gpu.vendor == GpuVendor::Nvidia {
        backends.push(BackendName::Cuda);
    }
    if hw.rocm_available && hw.gpu.vendor == GpuVendor::Amd {
        backends.push(BackendName::Hip);
    }
    if hw.gpu.vendor == GpuVendor::Apple {
        backends.push(BackendName::Metal);
    }
    if hw.gpu.vendor != GpuVendor::Unknown {
        backends.push(BackendName::Vulkan);
    }
    backends.push(BackendName::OpenBlas);
    backends.push(BackendName::CpuOnly);
    assert(backends@ =~= spec_available(*hw));
    backends
}

/// The backend chosen from the hardware is always one the hardware offers.
pub proof fn lemma_auto_choice_available(hw: HardwareInfo)
    ensures
        spec_available(hw).contains(spec_auto_name(hw)),
{
    let a = spec_available(hw);
    let n = spec_auto_name(hw);
    let k = a.len() - 1;
    assert(a[k] == BackendName::CpuOnly);
    if n == BackendName::CpuOnly {
        assert(a[k] == n);
    } else if n == BackendName::Vulkan {
        assert(a[k - 2] == BackendName::Vulkan);
    } else if n == BackendName::Metal {
        assert(a[k - 3] == BackendName::Metal);
    } else if n == BackendName::Hip {
        assert(a[0] == BackendName::Hip);
    } else {
        assert(a[0] == BackendName::Cuda);
    }
}

/// Exactly the backends the hardware can build are offered: CUDA for an
/// NVIDIA GPU with CUDA installed, HIP for an AMD GPU with ROCm installed,
/// Metal on Apple, Vulkan for any detected GPU, and OpenBLAS and CPU only
/// always; each at most once, CPU only last.
pub proof fn lemma_offered_backends_buildable(hw: HardwareInfo)
    ensures
        spec_available(hw).contains(BackendName::Cuda) <==> (hw.cuda_available && hw.gpu.vendor
            == GpuVendor::Nvidia),
        spec_available(hw).contains(BackendName::Hip) <==> (hw.rocm_available && hw.gpu.vendor
            == GpuVendor::Amd),
        spec_available(hw).contains(BackendName::Metal) <==> hw.gpu.vendor == GpuVendor::Apple,
        spec_available(hw).contains(BackendName::Vulkan) <==> hw.gpu.vendor != GpuVendor::Unknown,
        spec_available(hw).contains(BackendName::OpenBlas),
        spec_available(hw).contains(BackendName::CpuOnly),
        spec_available(hw).last() == BackendName::CpuOnly,
        forall|i: int, j: int|
            0 <= i < j < spec_available(hw).len() ==> spec_available(hw)[i] != spec_available(
                hw,
            )[j],
{
    let a = spec_available(hw);
    let cuda = hw.cuda_available && hw.gpu.vendor == GpuVendor::Nvidia;
    let hip = hw.rocm_available && hw.gpu.vendor == GpuVendor::Amd;
    let metal = hw.gpu.vendor == GpuVendor::Apple;
    let vulkan = hw.gpu.vendor != GpuVendor::Unknown;
    let mut s: Seq<BackendName> = seq![];
    if cuda {
        s = s.push(BackendName::Cuda);
    }
    if hip {
        s = s.push(BackendName::Hip);
    }
    if metal {
        s = s.push(BackendName::Metal);
    }
    if vulkan {
        s = s.push(BackendName::Vulkan);
    }
    s = s.push(BackendName::OpenBlas).push(BackendName::CpuOnly);
    assert(a =~= s);
    assert(a.contains(BackendName::Cuda) ==> cuda);
    assert(a.contains(BackendName::Hip) ==> hip);
    assert(a.contains(BackendName::Metal) ==> metal);
    assert(a.contains(BackendName::Vulkan) ==> vulkan);
    assert(a[a.len() - 2] == BackendName::OpenBlas);
    assert(a[a.len() - 1] == BackendName::CpuOnly);
    if cuda {
        assert(a[0] == BackendName::Cuda);
    }
    if hip {
        assert(a[0] == BackendName::Hip);
    }
    if metal {
        assert(a[0] == BackendName::Metal);
    }
    if vulkan {
        assert(a[a.len() - 3] == BackendName::Vulkan);
    }
}

} // verus!
