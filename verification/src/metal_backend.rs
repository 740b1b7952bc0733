//! Metal backend for Apple GPUs. This library is built without the Metal
//! framework, so the backend reports itself unsupported; what the backend
//! computes around a kernel run (input layout, dispatch sizes, turning the
//! kernel's output buffer into results) is kept here as verified functions.

use vstd::prelude::*;
use vstd::std_specs::convert::FromSpecImpl;
use crate::types::{DeviceError, MiningResult, Work};
use crate::hashing::{found_result, hash_header_with_nonce, header_with_nonce, make_found_result, sha256d};

verus! {

/// Description of a Metal device.
#[derive(Debug, Clone)]
pub struct MetalDeviceInfo {
    pub device_id: u32,
    pub name: String,
    pub max_threads_per_threadgroup: u32,
    pub max_buffer_length: u64,
    pub supports_non_uniform_threadgroups: bool,
    pub recommended_max_working_set_size: u64,
}

impl MetalDeviceInfo {
    /// A copy with the same fields.
    pub fn duplicate(&self) -> (r: MetalDeviceInfo)
        ensures
            r == *self,
    {
        MetalDeviceInfo {
            device_id: self.device_id,
            name: self.name.clone(),
            max_threads_per_threadgroup: self.max_threads_per_threadgroup,
            max_buffer_length: self.max_buffer_length,
            supports_non_uniform_threadgroups: self.supports_non_uniform_threadgroups,
            recommended_max_working_set_size: self.recommended_max_working_set_size,
        }
    }
}

/// The message every Metal operation fails with in this build.
pub open spec fn metal_disabled_message() -> Seq<char> {
    "Metal 支持未启用"@
}

/// The error every Metal operation fails with in this build.
pub open spec fn is_metal_disabled(e: DeviceError) -> bool {
    e matches DeviceError::UnsupportedOperation(m) && m@ == metal_disabled_message()
}

fn metal_disabled() -> (e: DeviceError)
    ensures
        is_metal_disabled(e),
{
    DeviceError::UnsupportedOperation(String::from_str("Metal 支持未启用"))
}

/// Metal compute backend.
pub struct MetalBackend {
    device_info: MetalDeviceInfo,
    is_initialized: bool,
}

/// The device description used when no Metal device can be opened.
pub open spec fn mock_metal_device_info(info: MetalDeviceInfo) -> bool {
    &&& info.device_id == 0
    &&& info.name@ == "Mock Metal Device"@
    &&& info.max_threads_per_threadgroup == 1024
    &&& info.max_buffer_length == 1024 * 1024 * 1024
    &&& info.supports_non_uniform_threadgroups
    &&& info.recommended_max_working_set_size == 512 * 1024 * 1024
}

/// Indices `i` with `out[i] > 0`, in increasing order.
pub open spec fn hit_indices(out: Seq<u32>) -> Seq<int>
    decreases out.len(),
{
    if out.len() == 0 {
        Seq::empty()
    } else {
        let prev = hit_indices(out.drop_last());
        if out.last() > 0 {
            prev.push(out.len() - 1)
        } else {
            prev
        }
    }
}

impl MetalBackend {
    /// Opens the system's default Metal device. Without Metal support this
    /// always fails.
    pub fn new() -> (r: Result<MetalBackend, DeviceError>)
        ensures
            r matches Err(e) && is_metal_disabled(e),
    {
        Err(metal_disabled())
    }

    /// Compiles the mining shader. Without Metal support this always fails
    /// and leaves the backend unchanged.
    pub fn initialize(&mut self) -> (r: Result<(), DeviceError>)
        ensures
            r matches Err(e) && is_metal_disabled(e),
            final(self).spec_is_initialized() == old(self).spec_is_initialized(),
            final(self).spec_device_info() == old(self).spec_device_info(),
    {
        Err(metal_disabled())
    }

    /// Runs the mining shader over `nonce_count` nonces from `nonce_start`.
    /// Without Metal support this always fails.
    pub fn mine(&self, work: &Work, nonce_start: u32, nonce_count: u32) -> (r: Result<
        Vec<MiningResult>,
        DeviceError,
    >)
        ensures
            r matches Err(e) && is_metal_disabled(e),
    {
        Err(metal_disabled())
    }

    /// The hash reported for a solution: SHA256d of the header with the nonce
    /// patched in.
    pub fn calculate_hash(&self, work: &Work, nonce: u32) -> (r: Result<Vec<u8>, DeviceError>)
        requires
            work.header@.len() >= 80,
        ensures
            r matches Ok(h) && h@ == sha256d(header_with_nonce(work.header@, nonce)),
    {
        Ok(hash_header_with_nonce(&work.header, nonce))
    }

    /// Turns the kernel's output buffer into results: one result, in order,
    /// for each index `i` whose entry is non-zero, for the nonce
    /// `nonce_start + i`.
    pub fn process_results(&self, output: &[u32], work: &Work, nonce_start: u32) -> (r: Vec<
        MiningResult,
    >)
        requires
            work.header@.len() >= 80,
            nonce_start + output@.len() <= u32::MAX + 1,
        ensures
            r@.len() == hit_indices(output@).len(),
            forall|k: int|
                0 <= k < r@.len() ==> found_result(
                    #[trigger] r@[k]@,
                    work@,
                    (nonce_start + hit_indices(output@)[k]) as u32,
                    self.spec_device_info().device_id,
                ),
    {
        let mut results: Vec<MiningResult> = Vec::new();
        let mut i: usize = 0;
        while i < output.len()
            invariant
                i <= output@.len(),
                work.header@.len() >= 80,
                nonce_start + output@.len() <= u32::MAX + 1,
                results@.len() == hit_indices(output@.subrange(0, i as int)).len(),
                forall|k: int|
                    0 <= k < results@.len() ==> found_result(
                        #[trigger] results@[k]@,
                        work@,
                        (nonce_start + hit_indices(output@.subrange(0, i as int))[k]) as u32,
                        self.device_info.device_id,
                    ),
            decreases output@.len() - i,
        {
            let ghost prev = output@.subrange(0, i as int);
            let ghost next = output@.subrange(0, i + 1);
            assert(next.drop_last() =~= prev);
            if output[i] > 0 {
                let nonce = nonce_start + i as u32;
                results.push(make_found_result(work, nonce, self.device_info.device_id));
            }
            i = i + 1;
        }
        assert(output@.subrange(0, output@.len() as int) =~= output@);
        results
    }

    /// The device description.
    pub fn get_device_info(&self) -> (r: &MetalDeviceInfo)
        ensures
            *r == self.spec_device_info(),
    {
        &self.device_info
    }

    /// Whether the shader has been compiled.
    pub fn is_initialized(&self) -> (r: bool)
        ensures
            r == self.spec_is_initialized(),
    {
        self.is_initialized
    }

    /// The nonce batch size for one kernel run: 32 threadgroups' worth of
    /// threads, at most 65536.
    pub fn get_optimal_work_size(&self) -> (r: u32)
        requires
            self.spec_device_info().max_threads_per_threadgroup * 32 <= u32::MAX,
        ensures
            r == if self.spec_device_info().max_threads_per_threadgroup * 32 <= 65536 {
                self.spec_device_info().max_threads_per_threadgroup * 32
            } else {
                65536
            },
    {
        let base = self.device_info.max_threads_per_threadgroup;
        let size = base * 32;
        if size <= 65536 {
            size
        } else {
            65536
        }
    }

    pub closed spec fn spec_device_info(&self) -> MetalDeviceInfo {
        self.device_info
    }

    pub closed spec fn spec_is_initialized(&self) -> bool {
        self.is_initialized
    }
}

/// Threads per threadgroup and number of threadgroups for a dispatch over
/// `nonce_count` nonces: groups of `min(max_threads, nonce_count)` threads,
/// enough of them to cover every nonce.
pub fn threadgroup_layout(max_threads_per_threadgroup: u32, nonce_count: u32) -> (r: (u64, u64))
    requires
        max_threads_per_threadgroup > 0,
        nonce_count > 0,
    ensures
        r.0 == if max_threads_per_threadgroup <= nonce_count {
            max_threads_per_threadgroup
        } else {
            nonce_count
        },
        r.1 == (nonce_count + r.0 - 1) / (r.0 as int),
        r.0 * r.1 >= nonce_count,
        r.0 * (r.1 - 1) < nonce_count,
{
    let threads: u64 = if (max_threads_per_threadgroup as u64) <= (nonce_count as u64) {
        max_threads_per_threadgroup as u64
    } else {
        nonce_count as u64
    };
    let groups: u64 = (nonce_count as u64 + threads - 1) / threads;
    proof {
        let n = nonce_count as int;
        let t = threads as int;
        let g = groups as int;
        assert(g == (n + t - 1) / t);
        assert(t * g >= n && t * (g - 1) < n) by (nonlinear_arith)
            requires
                t > 0,
                n > 0,
                g == (n + t - 1) / t,
        {
            assert((n + t - 1) == t * ((n + t - 1) / t) + (n + t - 1) % t);
        }
    }
    (threads, groups)
}

impl Default for MetalBackend {
    /// A backend on the default device, or, when none can be opened, one
    /// describing a mock device that is not initialized.
    fn default() -> (r: MetalBackend)
        ensures
            mock_metal_device_info(r.spec_device_info()),
            !r.spec_is_initialized(),
    {
        MetalBackend {
            device_info: MetalDeviceInfo {
                device_id: 0,
                name: String::from_str("Mock Metal Device"),
                max_threads_per_threadgroup: 1024,
                max_buffer_length: 1024 * 1024 * 1024,
                supports_non_uniform_threadgroups: true,
                recommended_max_working_set_size: 512 * 1024 * 1024,
            },
            is_initialized: false,
        }
    }
}

/// Errors of the Metal backend.
#[derive(Debug, Clone)]
pub enum MetalError {
    DeviceInitialization(String),
    ShaderCompilation(String),
    ComputeExecution(String),
    Unsupported(String),
}

impl From<MetalError> for DeviceError {
    fn from(error: MetalError) -> (r: DeviceError) {
        match error {
            MetalError::DeviceInitialization(msg) => DeviceError::InitializationFailed(msg),
            MetalError::ShaderCompilation(msg) => DeviceError::HardwareError(msg),
            MetalError::ComputeExecution(msg) => DeviceError::HardwareError(msg),
            MetalError::Unsupported(msg) => DeviceError::UnsupportedOperation(msg),
        }
    }
}

impl FromSpecImpl<MetalError> for DeviceError {
    open spec fn obeys_from_spec() -> bool {
        true
    }

    open spec fn from_spec(error: MetalError) -> DeviceError {
        match error {
            MetalError::DeviceInitialization(msg) => DeviceError::InitializationFailed(msg),
            MetalError::ShaderCompilation(msg) => DeviceError::HardwareError(msg),
            MetalError::ComputeExecution(msg) => DeviceError::HardwareError(msg),
            MetalError::Unsupported(msg) => DeviceError::UnsupportedOperation(msg),
        }
    }
}

} // verus!
