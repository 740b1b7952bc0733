//! Inventory of the GPUs used by a mining core. Real GPU enumeration is not
//! available, so the manager presents four simulated GPUs whose readings
//! are refreshed at random.

use vstd::prelude::*;
use crate::types::{CoreError, system_now};

verus! {

/// Calls `fastrand::u32(..bound)`: a uniformly random number below `bound`.
/// The range is empty, and the call panics, when `bound` is 0.
#[verifier::external_body]
fn random_below(bound: u32) -> (r: u32)
    requires
        bound > 0,
    ensures
        r < bound,
{
    fastrand::u32(..bound)
}

/// One GPU. Temperature and power are fixed-point numbers in hundredths of
/// a degree Celsius and of a watt.
#[derive(Debug, Clone)]
pub struct GpuInfo {
    pub id: u32,
    pub name: String,
    pub gpu_type: String,
    /// Video memory in MB.
    pub memory_size: u64,
    /// Core clock in MHz.
    pub core_clock: u32,
    /// Memory clock in MHz.
    pub memory_clock: u32,
    /// Temperature in hundredths of a degree Celsius.
    pub temperature: u32,
    /// Power draw in hundredths of a watt.
    pub power_usage: u32,
    /// Fan speed in percent.
    pub fan_speed: u32,
    pub available: bool,
}

/// `g` is the GPU description built by [`GpuInfo::new`] for these values.
pub open spec fn fresh_gpu(g: GpuInfo, id: u32, name: Seq<char>, gpu_type: Seq<char>) -> bool {
    &&& g.id == id
    &&& g.name@ == name
    &&& g.gpu_type@ == gpu_type
    &&& g.memory_size == 8192
    &&& g.core_clock == 1500
    &&& g.memory_clock == 6000
    &&& g.temperature == 6500
    &&& g.power_usage == 20000
    &&& g.fan_speed == 50
    &&& g.available
}

/// A GPU is usable below 90 °C and 300 W.
pub open spec fn readings_acceptable(temperature: u32, power_usage: u32) -> bool {
    temperature < 9000 && power_usage < 30000
}

/// The fan speed chosen for a temperature: 70 % plus `fan_offset` above
/// 75 °C, else 30 % plus `fan_offset`.
pub open spec fn fan_speed_for(temperature: u32, fan_offset: u32) -> int {
    if temperature > 7500 { 70 + fan_offset } else { 30 + fan_offset }
}

/// `after` is `before` with fresh simulated readings: a temperature in
/// 60..85 °C, a power draw in 150..250 W, a fan speed of 70..100 % above
/// 75 °C and 30..70 % otherwise, and available; the rest is unchanged.
pub open spec fn status_refreshed(before: GpuInfo, after: GpuInfo) -> bool {
    &&& 6000 <= after.temperature < 8500
    &&& 15000 <= after.power_usage < 25000
    &&& after.temperature > 7500 ==> 70 <= after.fan_speed < 100
    &&& after.temperature <= 7500 ==> 30 <= after.fan_speed < 70
    &&& after.available
    &&& after == (GpuInfo {
        temperature: after.temperature,
        power_usage: after.power_usage,
        fan_speed: after.fan_speed,
        available: after.available,
        ..before
    })
}

impl GpuInfo {
    /// A GPU with default readings: 8 GB, 1500/6000 MHz, 65 °C, 200 W, fan
    /// at 50 %, available.
    pub fn new(id: u32, name: String, gpu_type: String) -> (r: GpuInfo)
        ensures
            fresh_gpu(r, id, name@, gpu_type@),
            r.name == name,
            r.gpu_type == gpu_type,
    {
        GpuInfo {
            id,
            name,
            gpu_type,
            memory_size: 8192,
            core_clock: 1500,
            memory_clock: 6000,
            temperature: 6500,
            power_usage: 20000,
            fan_speed: 50,
            available: true,
        }
    }

    /// A copy with the same fields.
    pub fn duplicate(&self) -> (r: GpuInfo)
        ensures
            r == *self,
    {
        GpuInfo {
            id: self.id,
            name: self.name.clone(),
            gpu_type: self.gpu_type.clone(),
            memory_size: self.memory_size,
            core_clock: self.core_clock,
            memory_clock: self.memory_clock,
            temperature: self.temperature,
            power_usage: self.power_usage,
            fan_speed: self.fan_speed,
            available: self.available,
        }
    }

    /// Records new readings: the fan speed follows the temperature
    /// (see [`fan_speed_for`]) and the GPU is available exactly when the
    /// readings are acceptable.
    pub fn apply_readings(&mut self, temperature: u32, power_usage: u32, fan_offset: u32)
        requires
            fan_offset < 40,
        ensures
            final(self).temperature == temperature,
            final(self).power_usage == power_usage,
            final(self).fan_speed == fan_speed_for(temperature, fan_offset),
            final(self).available == readings_acceptable(temperature, power_usage),
            final(self).id == old(self).id,
            final(self).name == old(self).name,
            final(self).gpu_type == old(self).gpu_type,
            final(self).memory_size == old(self).memory_size,
            final(self).core_clock == old(self).core_clock,
            final(self).memory_clock == old(self).memory_clock,
    {
        self.temperature = temperature;
        self.power_usage = power_usage;
        self.fan_speed = if temperature > 7500 { 70 + fan_offset } else { 30 + fan_offset };
        self.available = temperature < 9000 && power_usage < 30000;
    }

    /// Simulates fresh readings: a temperature in 60..85 °C, a power draw in
    /// 150..250 W, and a fan speed of 70..100 % above 75 °C, else 30..70 %.
    /// Such readings are always acceptable, so the GPU becomes available.
    pub fn update_status(&mut self)
        ensures
            status_refreshed(*old(self), *final(self)),
    {
        let temperature = 6000 + random_below(2500);
        let power_usage = 15000 + random_below(10000);
        let fan_offset = if temperature > 7500 {
            random_below(30)
        } else {
            random_below(40)
        };
        self.apply_readings(temperature, power_usage, fan_offset);
    }
}

/// The four simulated GPUs: two NVIDIA, two AMD, with default readings.
pub open spec fn is_mock_gpus(s: Seq<GpuInfo>) -> bool {
    &&& s.len() == 4
    &&& fresh_gpu(s[0], 0, "NVIDIA GeForce RTX 4090"@, "NVIDIA"@)
    &&& fresh_gpu(s[1], 1, "NVIDIA GeForce RTX 4080"@, "NVIDIA"@)
    &&& fresh_gpu(s[2], 2, "AMD Radeon RX 7900 XTX"@, "AMD"@)
    &&& fresh_gpu(s[3], 3, "AMD Radeon RX 7800 XT"@, "AMD"@)
}

/// Number of available GPUs.
pub open spec fn count_available(s: Seq<GpuInfo>) -> nat
    decreases s.len(),
{
    if s.len() == 0 {
        0
    } else {
        count_available(s.drop_last()) + if s.last().available { 1nat } else { 0nat }
    }
}

/// Index of the first GPU with identifier `id`, if any.
pub open spec fn first_gpu_index(s: Seq<GpuInfo>, id: u32) -> Option<int> {
    if exists|i: int| 0 <= i < s.len() && s[i].id == id {
        Some(choose|i: int| 0 <= i < s.len() && s[i].id == id && forall|j: int| 0 <= j < i ==> s[j].id != id)
    } else {
        None
    }
}

/// Manager of the GPUs of a core.
pub struct GpuManager {
    gpus: Vec<GpuInfo>,
    initialized: bool,
    last_update: std::time::SystemTime,
}

/// What a manager holds.
pub struct GpuManagerView {
    pub gpus: Seq<GpuInfo>,
    pub initialized: bool,
}

impl View for GpuManager {
    type V = GpuManagerView;

    closed spec fn view(&self) -> GpuManagerView {
        GpuManagerView { gpus: self.gpus@, initialized: self.initialized }
    }
}

/// Healthy: initialized, with at least one available GPU.
pub open spec fn manager_healthy(m: GpuManagerView) -> bool {
    m.initialized && m.gpus.len() > 0 && count_available(m.gpus) > 0
}

fn mock_gpus() -> (r: Vec<GpuInfo>)
    ensures
        is_mock_gpus(r@),
{
    let mut gpus: Vec<GpuInfo> = Vec::new();
    gpus.push(GpuInfo::new(0, String::from_str("NVIDIA GeForce RTX 4090"), String::from_str("NVIDIA")));
    gpus.push(GpuInfo::new(1, String::from_str("NVIDIA GeForce RTX 4080"), String::from_str("NVIDIA")));
    gpus.push(GpuInfo::new(2, String::from_str("AMD Radeon RX 7900 XTX"), String::from_str("AMD")));
    gpus.push(GpuInfo::new(3, String::from_str("AMD Radeon RX 7800 XT"), String::from_str("AMD")));
    gpus
}

proof fn lemma_count_available_bounded(s: Seq<GpuInfo>)
    ensures
        count_available(s) <= s.len(),
        count_available(s) > 0 <==> exists|i: int| 0 <= i < s.len() && s[i].available,
    decreases s.len(),
{
    if s.len() > 0 {
        lemma_count_available_bounded(s.drop_last());
        if exists|i: int| 0 <= i < s.drop_last().len() && s.drop_last()[i].available {
            let i = choose|i: int| 0 <= i < s.drop_last().len() && s.drop_last()[i].available;
            assert(s[i].available);
        }
        if exists|i: int| 0 <= i < s.len() && s[i].available {
            let i = choose|i: int| 0 <= i < s.len() && s[i].available;
            if i < s.len() - 1 {
                assert(s.drop_last()[i].available);
            }
        }
    }
}

impl GpuManager {
    /// An empty, uninitialized manager. Always succeeds.
    pub fn new() -> (r: Result<GpuManager, CoreError>)
        ensures
            r matches Ok(m) && m@.gpus == Seq::<GpuInfo>::empty() && !m@.initialized,
    {
        Ok(GpuManager { gpus: Vec::new(), initialized: false, last_update: system_now() })
    }

    /// Scans the GPUs. Real enumeration finds none, so the four simulated
    /// GPUs are used. Initializing again does nothing. Always succeeds.
    pub fn initialize(&mut self) -> (r: Result<(), CoreError>)
        ensures
            r is Ok,
            final(self)@.initialized,
            old(self)@.initialized ==> final(self)@ == old(self)@,
            !old(self)@.initialized ==> is_mock_gpus(final(self)@.gpus),
    {
        if self.initialized {
            return Ok(());
        }
        self.gpus = mock_gpus();
        self.last_update = system_now();
        self.initialized = true;
        Ok(())
    }

    /// Copies of all GPU descriptions. Always succeeds.
    pub fn scan_gpus(&self) -> (r: Result<Vec<GpuInfo>, CoreError>)
        ensures
            r matches Ok(v) && v@ == self@.gpus,
    {
        let mut out: Vec<GpuInfo> = Vec::new();
        let mut i: usize = 0;
        while i < self.gpus.len()
            invariant
                i <= self.gpus@.len(),
                out@ == self.gpus@.subrange(0, i as int),
            decreases self.gpus@.len() - i,
        {
            out.push(self.gpus[i].duplicate());
            i = i + 1;
            assert(out@ =~= self.gpus@.subrange(0, i as int));
        }
        assert(self.gpus@.subrange(0, self.gpus@.len() as int) =~= self.gpus@);
        Ok(out)
    }

    /// A copy of the first GPU with identifier `gpu_id`, if any. Always
    /// succeeds.
    pub fn get_gpu_info(&self, gpu_id: u32) -> (r: Result<Option<GpuInfo>, CoreError>)
        ensures
            first_gpu_index(self@.gpus, gpu_id) is None ==> r == Ok::<Option<GpuInfo>, CoreError>(
                None,
            ),
            first_gpu_index(self@.gpus, gpu_id) matches Some(i) ==> r == Ok::<
                Option<GpuInfo>,
                CoreError,
            >(Some(self@.gpus[i])),
    {
        let mut i: usize = 0;
        while i < self.gpus.len()
            invariant
                i <= self.gpus@.len(),
                forall|j: int| 0 <= j < i ==> self.gpus@[j].id != gpu_id,
            decreases self.gpus@.len() - i,
        {
            if self.gpus[i].id == gpu_id {
                let ghost s = self.gpus@;
                proof {
                    let k = choose|k: int|
                        0 <= k < s.len() && s[k].id == gpu_id && forall|j: int| 0 <= j < k ==> s[j].id != gpu_id;
                    if k > i {
                        assert(s[i as int].id == gpu_id);
                    }
                    assert(k == i);
                }
                return Ok(Some(self.gpus[i].duplicate()));
            }
            i = i + 1;
        }
        Ok(None)
    }

    /// Refreshes the readings of every GPU (see [`GpuInfo::update_status`]).
    /// Always succeeds; afterwards every GPU is available.
    pub fn update_gpu_status(&mut self) -> (r: Result<(), CoreError>)
        ensures
            r is Ok,
            final(self)@.initialized == old(self)@.initialized,
            final(self)@.gpus.len() == old(self)@.gpus.len(),
            forall|k: int|
                0 <= k < final(self)@.gpus.len() ==> status_refreshed(
                    old(self)@.gpus[k],
                    #[trigger] final(self)@.gpus[k],
                ),
    {
        let mut gpus = Vec::new();
        std::mem::swap(&mut gpus, &mut self.gpus);
        let ghost before = gpus@;
        let mut i: usize = 0;
        while i < gpus.len()
            invariant
                i <= gpus@.len(),
                gpus@.len() == before.len(),
                forall|k: int| 0 <= k < i ==> status_refreshed(before[k], #[trigger] gpus@[k]),
                forall|k: int| i <= k < gpus@.len() ==> #[trigger] gpus@[k] == before[k],
            decreases gpus@.len() - i,
        {
            let mut g = gpus[i].duplicate();
            g.update_status();
            gpus.set(i, g);
            i = i + 1;
        }
        self.gpus = gpus;
        self.last_update = system_now();
        Ok(())
    }

    /// Healthy when initialized with at least one GPU, one of them available.
    pub fn is_healthy(&self) -> (r: bool)
        ensures
            r == manager_healthy(self@),
    {
        if !self.initialized {
            return false;
        }
        if self.gpus.len() == 0 {
            return false;
        }
        let n = self.available_count();
        n > 0
    }

    fn available_count(&self) -> (r: usize)
        ensures
            r == count_available(self.gpus@),
    {
        let mut count: usize = 0;
        let mut i: usize = 0;
        while i < self.gpus.len()
            invariant
                i <= self.gpus@.len(),
                count == count_available(self.gpus@.subrange(0, i as int)),
                count <= i,
            decreases self.gpus@.len() - i,
        {
            assert(self.gpus@.subrange(0, i + 1).drop_last() =~= self.gpus@.subrange(0, i as int));
            if self.gpus[i].available {
                count = count + 1;
            }
            i = i + 1;
        }
        assert(self.gpus@.subrange(0, self.gpus@.len() as int) =~= self.gpus@);
        count
    }

    /// Releases the GPUs. Shutting down a manager that is not initialized
    /// does nothing. Always succeeds.
    pub fn shutdown(&mut self) -> (r: Result<(), CoreError>)
        ensures
            r is Ok,
            !final(self)@.initialized,
            !old(self)@.initialized ==> final(self)@ == old(self)@,
            old(self)@.initialized ==> final(self)@.gpus == Seq::<GpuInfo>::empty(),
    {
        if !self.initialized {
            return Ok(());
        }
        self.gpus.clear();
        self.initialized = false;
        Ok(())
    }

    /// Number of GPUs. Always succeeds.
    pub fn gpu_count(&self) -> (r: Result<usize, CoreError>)
        ensures
            r matches Ok(n) && n == self@.gpus.len(),
    {
        Ok(self.gpus.len())
    }

    /// Number of available GPUs. Always succeeds.
    pub fn available_gpu_count(&self) -> (r: Result<usize, CoreError>)
        ensures
            r matches Ok(n) && n == count_available(self@.gpus),
    {
        Ok(self.available_count())
    }
}

impl Default for GpuManager {
    fn default() -> (r: GpuManager)
        ensures
            r@.gpus == Seq::<GpuInfo>::empty(),
            !r@.initialized,
    {
        GpuManager { gpus: Vec::new(), initialized: false, last_update: system_now() }
    }
}

/// Law: no more GPUs are available than there are GPUs, and some GPU is
/// available exactly when the available count is positive.
pub proof fn lemma_available_at_most_total(m: GpuManagerView)
    ensures
        count_available(m.gpus) <= m.gpus.len(),
        count_available(m.gpus) > 0 <==> exists|i: int| 0 <= i < m.gpus.len() && m.gpus[i].available,
{
    lemma_count_available_bounded(m.gpus);
}

/// Law: a manager holding the simulated GPUs after initialization is
/// healthy, with all four of them available.
pub proof fn lemma_initialized_manager_healthy(m: GpuManagerView)
    requires
        m.initialized,
        is_mock_gpus(m.gpus),
    ensures
        manager_healthy(m),
        count_available(m.gpus) == 4,
{
    let s = m.gpus;
    let s1 = s.drop_last().drop_last().drop_last();
    assert(s1.drop_last() =~= Seq::<GpuInfo>::empty());
    assert(count_available(s1.drop_last()) == 0);
    assert(s1.last() == s[0]);
    assert(s.drop_last().drop_last().last() == s[1]);
    assert(s.drop_last().last() == s[2]);
    assert(count_available(s.drop_last().drop_last().drop_last()) == 1);
    assert(count_available(s.drop_last().drop_last()) == 2);
    assert(count_available(s.drop_last()) == 3);
}

/// Law: a manager that has been shut down is not healthy.
pub proof fn lemma_shut_down_manager_unhealthy(m: GpuManagerView)
    requires
        !m.initialized,
    ensures
        !manager_healthy(m),
{
}

/// Law: refreshing the readings of the GPUs of an initialized manager that
/// has GPUs leaves it healthy, since simulated readings are always
/// acceptable.
pub proof fn lemma_refreshed_manager_healthy(before: GpuManagerView, after: GpuManagerView)
    requires
        after.initialized,
        after.gpus.len() == before.gpus.len(),
        after.gpus.len() > 0,
        forall|k: int| 0 <= k < after.gpus.len() ==> status_refreshed(before.gpus[k], #[trigger] after.gpus[k]),
    ensures
        manager_healthy(after),
{
    lemma_count_available_bounded(after.gpus);
    assert(status_refreshed(before.gpus[0], after.gpus[0]));
}

} // verus!
