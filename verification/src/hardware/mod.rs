//! Hardware description types and the detection logic that turns probe
//! output into them.

pub mod detect;
pub mod gpu;

use crate::text::{decimal, push_decimal};
use vstd::prelude::*;
use vstd::string::*;

verus! {

#[derive(Debug, Clone, Copy, PartialEq, Eq, Structural)]
pub enum GpuVendor {
    Nvidia,
    Amd,
    Intel,
    Apple,
    Unknown,
}

impl GpuVendor {
    pub fn as_str(&self) -> (r: &'static str)
        ensures
            r@ == match *self {
                GpuVendor::Nvidia => "NVIDIA"@,
                GpuVendor::Amd => "AMD"@,
                GpuVendor::Intel => "Intel"@,
                GpuVendor::Apple => "Apple"@,
                GpuVendor::Unknown => "Unknown"@,
            },
    {
        match self {
            GpuVendor::Nvidia => "NVIDIA",
            GpuVendor::Amd => "AMD",
            GpuVendor::Intel => "Intel",
            GpuVendor::Apple => "Apple",
            GpuVendor::Unknown => "Unknown",
        }
    }
}

#[derive(Debug, Clone)]
pub struct CpuInfo {
    pub name: String,
    pub cores_physical: usize,
    pub cores_logical: usize,
    pub vendor: String,
    pub architecture: String,
}

#[derive(Debug, Clone, Copy)]
pub struct MemoryInfo {
    pub total_mb: u64,
    pub available_mb: u64,
}

#[derive(Debug, Clone)]
pub struct GpuInfo {
    pub name: String,
    pub vendor: GpuVendor,
    pub vram_mb: u64,
    pub driver_version: Option<String>,
    pub cuda_support: bool,
    pub compute_capability: Option<String>,
}

#[derive(Debug, Clone)]
pub struct HardwareInfo {
    pub cpu: CpuInfo,
    pub gpu: GpuInfo,
    pub memory: MemoryInfo,
    pub os: String,
    pub cuda_available: bool,
    pub cuda_version: Option<String>,
    pub rocm_available: bool,
}

pub open spec fn spec_format_memory(mb: u64) -> Seq<char> {
    if mb >= 1024 {
        decimal((mb / 1024) as nat) + "."@ + decimal((((mb % 1024) * 10) / 1024) as nat) + " GB"@
    } else {
        decimal(mb as nat) + " MB"@
    }
}

impl HardwareInfo {
    /// VRAM of the detected GPU, in MB.
    pub fn total_vram_mb(&self) -> (r: u64)
        ensures
            r == self.gpu.vram_mb,
    {
        self.gpu.vram_mb
    }

    /// A memory size for display: whole MB below 1 GiB, otherwise GB with
    /// one decimal (rounded down).
    pub fn format_memory(mb: u64) -> (r: String)
        ensures
            r@ == spec_format_memory(mb),
    {
        let mut s = String::new();
        if mb >= 1024 {
            push_decimal(&mut s, mb / 1024);
            s.append(".");
            push_decimal(&mut s, ((mb % 1024) * 10) / 1024);
            s.append(" GB");
        } else {
            push_decimal(&mut s, mb);
            s.append(" MB");
        }
        s
    }

    /// Total system RAM, in MB.
    pub fn total_memory_mb(&self) -> (r: u64)
        ensures
            r == self.memory.total_mb,
    {
        self.memory.total_mb
    }
}

} // verus!
