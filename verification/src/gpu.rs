//! Working around graphics drivers.
use vstd::prelude::*;
use crate::text::{concat2, contains, str_contains};

verus! {

broadcast use vstd::string::group_string_axioms;

/// The kind of a graphics adapter, as the graphics library reports it.
#[derive(PartialEq, Eq, Structural, Clone, Copy, Debug)]
pub enum DeviceType {
    Other,
    IntegratedGpu,
    DiscreteGpu,
    VirtualGpu,
    Cpu,
}

/// A graphics adapter: its kind and its name.
#[derive(Clone, Debug, PartialEq, Eq)]
pub struct AdapterInfo {
    pub device_type: DeviceType,
    pub name: String,
}

/// Whether the adapter is an NVIDIA graphics processor.
pub open spec fn is_nvidia_gpu(a: AdapterInfo) -> bool {
    (a.device_type == DeviceType::DiscreteGpu || a.device_type == DeviceType::IntegratedGpu
        || a.device_type == DeviceType::VirtualGpu) && contains(a.name@, "NVIDIA"@)
}

/// Whether the DMA-BUF renderer of WebKitGTK is turned off on Linux: when
/// one of the adapters is an NVIDIA graphics processor.
pub fn disable_dma(adapters: &Vec<AdapterInfo>) -> (b: bool)
    ensures
        b == exists|i: int| 0 <= i < adapters@.len() && is_nvidia_gpu(#[trigger] adapters@[i]),
{
    let mut found = false;
    for i in 0..adapters.len()
        invariant
            found == exists|j: int| 0 <= j < i && is_nvidia_gpu(#[trigger] adapters@[j]),
    {
        let a = &adapters[i];
        let gpu = a.device_type == DeviceType::DiscreteGpu || a.device_type
            == DeviceType::IntegratedGpu || a.device_type == DeviceType::VirtualGpu;
        if gpu && str_contains(a.name.as_str(), "NVIDIA") {
            found = true;
        }
        assert(found == exists|j: int| 0 <= j < i + 1 && is_nvidia_gpu(#[trigger] adapters@[j]));
    }
    found
}

/// The WebView2 browser arguments with hardware acceleration turned off:
/// the existing arguments followed by " --disable-gpu".
pub fn disable_hardware_accel_windows(existing_args: &str) -> (r: String)
    ensures
        r@ == existing_args@ + " --disable-gpu"@,
{
    concat2(existing_args, " --disable-gpu")
}

/// The WebView2 browser arguments with those given on the command line
/// added: the existing ones, a space, and the new ones.
pub fn additional_args(browser_args: &str, new_args: &str) -> (r: String)
    ensures
        r@ == browser_args@ + " "@ + new_args@,
{
    let mut r = concat2(browser_args, " ");
    crate::text::append_str(&mut r, new_args);
    r
}

} // verus!
