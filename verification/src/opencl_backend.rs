//! OpenCL backend. Real OpenCL enumeration is not implemented, so the
//! backend presents a fixed set of simulated platforms and devices; mining on
//! a device reports a share for each nonce the (randomised) simulation found.

use vstd::prelude::*;
use crate::types::{CoreError, MiningResult, Work};
use crate::hashing::{found_result, make_found_result};
use crate::text::{decimal, with_decimal_suffix};

verus! {

/// An OpenCL platform.
#[derive(Debug, Clone)]
pub struct OpenCLPlatform {
    pub id: u32,
    pub name: String,
    pub vendor: String,
    pub version: String,
    pub device_count: u32,
}

/// An OpenCL device.
#[derive(Debug, Clone)]
pub struct OpenCLDevice {
    pub id: u32,
    pub name: String,
    pub device_type: String,
    pub compute_units: u32,
    pub max_work_group_size: usize,
    pub global_memory_size: u64,
    pub local_memory_size: u64,
    pub available: bool,
}

/// OpenCL backend.
pub struct OpenCLBackend {
    initialized: bool,
    platforms: Vec<OpenCLPlatform>,
    devices: Vec<OpenCLDevice>,
}

/// What a backend holds.
pub struct OpenCLBackendView {
    pub initialized: bool,
    pub platforms: Seq<OpenCLPlatform>,
    pub devices: Seq<OpenCLDevice>,
}

impl View for OpenCLBackend {
    type V = OpenCLBackendView;

    closed spec fn view(&self) -> OpenCLBackendView {
        OpenCLBackendView {
            initialized: self.initialized,
            platforms: self.platforms@,
            devices: self.devices@,
        }
    }
}

pub open spec fn platform_is(
    p: OpenCLPlatform,
    id: u32,
    name: Seq<char>,
    vendor: Seq<char>,
    version: Seq<char>,
    device_count: u32,
) -> bool {
    &&& p.id == id
    &&& p.name@ == name
    &&& p.vendor@ == vendor
    &&& p.version@ == version
    &&& p.device_count == device_count
}

/// The simulated platforms: NVIDIA CUDA and AMD APP, two devices each.
pub open spec fn is_mock_platforms(p: Seq<OpenCLPlatform>) -> bool {
    &&& p.len() == 2
    &&& platform_is(
        p[0],
        0,
        "NVIDIA CUDA"@,
        "NVIDIA Corporation"@,
        "OpenCL 3.0 CUDA 12.0"@,
        2,
    )
    &&& platform_is(
        p[1],
        1,
        "AMD Accelerated Parallel Processing"@,
        "Advanced Micro Devices, Inc."@,
        "OpenCL 2.1 AMD-APP"@,
        2,
    )
}

pub open spec fn device_is(
    d: OpenCLDevice,
    id: u32,
    name: Seq<char>,
    compute_units: u32,
    max_work_group_size: usize,
    global_memory_size: nat,
    local_memory_size: nat,
) -> bool {
    &&& d.id == id
    &&& d.name@ == name
    &&& d.device_type@ == "GPU"@
    &&& d.compute_units == compute_units
    &&& d.max_work_group_size == max_work_group_size
    &&& d.global_memory_size == global_memory_size
    &&& d.local_memory_size == local_memory_size
    &&& d.available
}

/// The simulated devices: two NVIDIA and two AMD GPUs, all available.
pub open spec fn is_mock_devices(d: Seq<OpenCLDevice>) -> bool {
    &&& d.len() == 4
    &&& device_is(d[0], 0, "NVIDIA GeForce RTX 4090"@, 128, 1024, 24 * 1024 * 1024 * 1024, 48 * 1024)
    &&& device_is(d[1], 1, "NVIDIA GeForce RTX 4080"@, 76, 1024, 16 * 1024 * 1024 * 1024, 48 * 1024)
    &&& device_is(d[2], 2, "AMD Radeon RX 7900 XTX"@, 96, 256, 24 * 1024 * 1024 * 1024, 64 * 1024)
    &&& device_is(d[3], 3, "AMD Radeon RX 7800 XT"@, 60, 256, 16 * 1024 * 1024 * 1024, 64 * 1024)
}

/// Index of the first device with identifier `id`, if any.
pub open spec fn first_device_index(d: Seq<OpenCLDevice>, id: u32) -> Option<int> {
    if exists|i: int| 0 <= i < d.len() && d[i].id == id {
        Some(choose|i: int| 0 <= i < d.len() && d[i].id == id && forall|j: int| 0 <= j < i ==> d[j].id != id)
    } else {
        None
    }
}

/// Some device is available.
pub open spec fn any_available(d: Seq<OpenCLDevice>) -> bool {
    exists|i: int| 0 <= i < d.len() && d[i].available
}

/// How many simulated mining trials a device with `compute_units` units gets:
/// one per 32 units, rounded up, at least 1 and at most 5.
pub open spec fn trial_count(compute_units: u32) -> int {
    let t = (compute_units + 31) / 32;
    if t < 1 { 1 } else if t > 5 { 5 } else { t }
}

/// `e` is a runtime error with message `msg`.
pub open spec fn is_runtime_error(e: CoreError, msg: Seq<char>) -> bool {
    e matches CoreError::Runtime(m) && m@ == msg
}

fn make_platform(id: u32, name: &str, vendor: &str, version: &str, device_count: u32) -> (p:
    OpenCLPlatform)
    ensures
        platform_is(p, id, name@, vendor@, version@, device_count),
{
    OpenCLPlatform {
        id,
        name: String::from_str(name),
        vendor: String::from_str(vendor),
        version: String::from_str(version),
        device_count,
    }
}

fn make_device(
    id: u32,
    name: &str,
    compute_units: u32,
    max_work_group_size: usize,
    global_memory_size: u64,
    local_memory_size: u64,
) -> (d: OpenCLDevice)
    ensures
        device_is(d, id, name@, compute_units, max_work_group_size, global_memory_size as nat, local_memory_size as nat),
{
    OpenCLDevice {
        id,
        name: String::from_str(name),
        device_type: String::from_str("GPU"),
        compute_units,
        max_work_group_size,
        global_memory_size,
        local_memory_size,
        available: true,
    }
}

/// Number of simulated mining trials for a device (see [`trial_count`]);
/// the same as `ceil(compute_units / 32.0)` clamped to 1..=5, since dividing
/// a `u32` by 32 is exact in `f64`.
pub fn simulation_trials(compute_units: u32) -> (r: usize)
    ensures
        r == trial_count(compute_units),
        1 <= r <= 5,
{
    let t: u64 = (compute_units as u64 + 31) / 32;
    if t < 1 {
        1
    } else if t > 5 {
        5
    } else {
        t as usize
    }
}

impl OpenCLBackend {
    /// A backend that is not initialized and holds nothing.
    pub fn new() -> (r: OpenCLBackend)
        ensures
            !r@.initialized,
            r@.platforms == Seq::<OpenCLPlatform>::empty(),
            r@.devices == Seq::<OpenCLDevice>::empty(),
    {
        OpenCLBackend { initialized: false, platforms: Vec::new(), devices: Vec::new() }
    }

    /// Scans platforms and devices. Real OpenCL scanning is not available, so
    /// the simulated ones are used. Calling it again does nothing.
    pub fn initialize(&mut self) -> (r: Result<(), CoreError>)
        ensures
            r is Ok,
            final(self)@.initialized,
            old(self)@.initialized ==> final(self)@ == old(self)@,
            !old(self)@.initialized ==> is_mock_platforms(final(self)@.platforms) && is_mock_devices(
                final(self)@.devices,
            ),
    {
        if self.initialized {
            return Ok(());
        }
        self.scan_platforms();
        self.scan_devices();
        self.initialized = true;
        Ok(())
    }

    fn scan_platforms(&mut self)
        ensures
            is_mock_platforms(final(self).platforms@),
            final(self).devices@ == old(self).devices@,
            final(self).initialized == old(self).initialized,
    {
        self.platforms.clear();
        self.create_mock_platforms();
    }

    fn scan_devices(&mut self)
        ensures
            is_mock_devices(final(self).devices@),
            final(self).platforms@ == old(self).platforms@,
            final(self).initialized == old(self).initialized,
    {
        self.devices.clear();
        self.create_mock_devices();
    }

    /// Replaces the platforms by the simulated ones.
    pub fn create_mock_platforms(&mut self)
        ensures
            is_mock_platforms(final(self)@.platforms),
            final(self)@.devices == old(self)@.devices,
            final(self)@.initialized == old(self)@.initialized,
    {
        let mut platforms: Vec<OpenCLPlatform> = Vec::new();
        platforms.push(
            make_platform(0, "NVIDIA CUDA", "NVIDIA Corporation", "OpenCL 3.0 CUDA 12.0", 2),
        );
        platforms.push(
            make_platform(
                1,
                "AMD Accelerated Parallel Processing",
                "Advanced Micro Devices, Inc.",
                "OpenCL 2.1 AMD-APP",
                2,
            ),
        );
        self.platforms = platforms;
    }

    /// Replaces the devices by the simulated ones.
    pub fn create_mock_devices(&mut self)
        ensures
            is_mock_devices(final(self)@.devices),
            final(self)@.platforms == old(self)@.platforms,
            final(self)@.initialized == old(self)@.initialized,
    {
        let mut devices: Vec<OpenCLDevice> = Vec::new();
        devices.push(
            make_device(0, "NVIDIA GeForce RTX 4090", 128, 1024, 24 * 1024 * 1024 * 1024, 48 * 1024),
        );
        devices.push(
            make_device(1, "NVIDIA GeForce RTX 4080", 76, 1024, 16 * 1024 * 1024 * 1024, 48 * 1024),
        );
        devices.push(
            make_device(2, "AMD Radeon RX 7900 XTX", 96, 256, 24 * 1024 * 1024 * 1024, 64 * 1024),
        );
        devices.push(
            make_device(3, "AMD Radeon RX 7800 XT", 60, 256, 16 * 1024 * 1024 * 1024, 64 * 1024),
        );
        self.devices = devices;
    }

    /// Whether the backend has been initialized.
    pub fn is_initialized(&self) -> (r: bool)
        ensures
            r == self@.initialized,
    {
        self.initialized
    }

    /// The platforms.
    pub fn get_platforms(&self) -> (r: &Vec<OpenCLPlatform>)
        ensures
            r@ == self@.platforms,
    {
        &self.platforms
    }

    /// The devices.
    pub fn get_devices(&self) -> (r: &Vec<OpenCLDevice>)
        ensures
            r@ == self@.devices,
    {
        &self.devices
    }

    /// The first device with identifier `device_id`, if any.
    pub fn get_device(&self, device_id: u32) -> (r: Option<&OpenCLDevice>)
        ensures
            first_device_index(self@.devices, device_id) is None ==> r is None,
            first_device_index(self@.devices, device_id) matches Some(i) ==> r == Some(
                &self@.devices[i],
            ),
            r matches Some(d) ==> d.id == device_id,
    {
        let mut i: usize = 0;
        while i < self.devices.len()
            invariant
                i <= self.devices@.len(),
                forall|j: int| 0 <= j < i ==> self.devices@[j].id != device_id,
            decreases self.devices@.len() - i,
        {
            if self.devices[i].id == device_id {
                let ghost d = self.devices@;
                proof {
                    let k = choose|k: int|
                        0 <= k < d.len() && d[k].id == device_id && forall|j: int|
                            0 <= j < k ==> d[j].id != device_id;
                    if k < i {
                    } else if k > i {
                        assert(d[i as int].id == device_id);
                    }
                    assert(k == i);
                }
                return Some(&self.devices[i]);
            }
            i = i + 1;
        }
        None
    }

    /// Mines on device `device_id`. The device must exist (else a runtime
    /// error "设备 {id} 不存在") and be available (else "设备 {id} 不可用").
    /// `found_nonces` are the nonces the simulation found for this call, one
    /// per successful trial, so at most one per trial (see
    /// [`simulation_trials`]); the result holds one share for each, in order,
    /// hashed from the work's header.
    pub fn compute_mining(
        &self,
        device_id: u32,
        work: &Work,
        nonce_start: u32,
        nonce_count: u32,
        found_nonces: &Vec<u32>,
    ) -> (r: Result<Vec<MiningResult>, CoreError>)
        requires
            found_nonces@.len() > 0 ==> work.header@.len() >= 80,
            first_device_index(self@.devices, device_id) matches Some(i) ==> found_nonces@.len()
                <= trial_count(self@.devices[i].compute_units),
        ensures
            first_device_index(self@.devices, device_id) is None ==> (r matches Err(e)
                && is_runtime_error(e, "设备 "@ + decimal(device_id as nat) + " 不存在"@)),
            first_device_index(self@.devices, device_id) matches Some(i) && !self@.devices[i].available
                ==> (r matches Err(e) && is_runtime_error(
                e,
                "设备 "@ + decimal(device_id as nat) + " 不可用"@,
            )),
            first_device_index(self@.devices, device_id) matches Some(i) ==> (self@.devices[i].available
                ==> (r matches Ok(v) && v@.len() == found_nonces@.len() && v@.len() <= trial_count(
                self@.devices[i].compute_units,
            ) && forall|k: int|
                0 <= k < v@.len() ==> found_result(
                    #[trigger] v@[k]@,
                    work@,
                    found_nonces@[k],
                    device_id,
                ))),
    {
        let device = match self.get_device(device_id) {
            Some(d) => d,
            None => {
                let msg = with_decimal_suffix("设备 ", device_id).concat(" 不存在");
                return Err(CoreError::Runtime(msg));
            },
        };
        if !device.available {
            let msg = with_decimal_suffix("设备 ", device_id).concat(" 不可用");
            return Err(CoreError::Runtime(msg));
        }
        Ok(self.simulated_results(device, work, found_nonces))
    }

    /// One share per found nonce, in order, reported by `device`.
    pub fn simulated_results(&self, device: &OpenCLDevice, work: &Work, found_nonces: &Vec<u32>) -> (r:
        Vec<MiningResult>)
        requires
            found_nonces@.len() > 0 ==> work.header@.len() >= 80,
            found_nonces@.len() <= trial_count(device.compute_units),
        ensures
            r@.len() == found_nonces@.len(),
            r@.len() <= trial_count(device.compute_units),
            forall|k: int|
                0 <= k < r@.len() ==> found_result(
                    #[trigger] r@[k]@,
                    work@,
                    found_nonces@[k],
                    device.id,
                ),
    {
        let mut results: Vec<MiningResult> = Vec::new();
        let mut i: usize = 0;
        while i < found_nonces.len()
            invariant
                i <= found_nonces@.len(),
                found_nonces@.len() > 0 ==> work.header@.len() >= 80,
                results@.len() == i,
                forall|k: int|
                    0 <= k < i ==> found_result(
                        #[trigger] results@[k]@,
                        work@,
                        found_nonces@[k],
                        device.id,
                    ),
            decreases found_nonces@.len() - i,
        {
            results.push(make_found_result(work, found_nonces[i], device.id));
            i = i + 1;
        }
        results
    }

    /// Healthy when initialized with at least one available device.
    pub fn is_healthy(&self) -> (r: bool)
        ensures
            r == (self@.initialized && any_available(self@.devices)),
    {
        if !self.initialized {
            return false;
        }
        let mut i: usize = 0;
        while i < self.devices.len()
            invariant
                i <= self.devices@.len(),
                self.initialized,
                forall|j: int| 0 <= j < i ==> !self.devices@[j].available,
            decreases self.devices@.len() - i,
        {
            if self.devices[i].available {
                assert(self@.devices[i as int].available);
                assert(any_available(self@.devices));
                return true;
            }
            i = i + 1;
        }
        false
    }

    /// Releases platforms and devices. Shutting down a backend that is not
    /// initialized does nothing. Always succeeds.
    pub fn shutdown(&mut self) -> (r: Result<(), CoreError>)
        ensures
            r is Ok,
            !final(self)@.initialized,
            !old(self)@.initialized ==> final(self)@ == old(self)@,
            old(self)@.initialized ==> final(self)@.platforms == Seq::<OpenCLPlatform>::empty()
                && final(self)@.devices == Seq::<OpenCLDevice>::empty(),
    {
        if !self.initialized {
            return Ok(());
        }
        self.platforms.clear();
        self.devices.clear();
        self.initialized = false;
        Ok(())
    }
}

impl Default for OpenCLBackend {
    fn default() -> (r: OpenCLBackend)
        ensures
            !r@.initialized,
            r@.platforms == Seq::<OpenCLPlatform>::empty(),
            r@.devices == Seq::<OpenCLDevice>::empty(),
    {
        OpenCLBackend::new()
    }
}

/// Law: after initialization the backend is healthy (all simulated devices
/// are available), and every simulated device can be found by its id.
pub proof fn lemma_initialized_mock_backend(d: Seq<OpenCLDevice>, id: u32)
    requires
        is_mock_devices(d),
        id < 4,
    ensures
        any_available(d),
        first_device_index(d, id) == Some(id as int),
{
    assert(d[0].available);
    assert(d[id as int].id == id);
    let k = choose|k: int| 0 <= k < d.len() && d[k].id == id && forall|j: int| 0 <= j < k ==> d[j].id != id;
    assert(k == id);
}

/// Law: a mock device table holds no device with an id of 4 or more.
pub proof fn lemma_mock_device_absent(d: Seq<OpenCLDevice>, id: u32)
    requires
        is_mock_devices(d),
        id >= 4,
    ensures
        first_device_index(d, id) is None,
{
}

} // verus!
