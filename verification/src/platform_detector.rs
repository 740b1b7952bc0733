//! Detection of the GPU platforms present on this machine and choice of the
//! preferred one. Preference order: Mac Metal, NVIDIA CUDA, AMD OpenCL,
//! Intel OpenCL, generic OpenCL.

use vstd::prelude::*;
use crate::types::{DeviceError, DeviceInfo};
use crate::text::{decimal, with_decimal_suffix};
use crate::metal_backend::MetalBackend;

verus! {

/// A GPU platform.
#[derive(Debug, Clone, Copy, PartialEq, Eq, Structural)]
pub enum GpuPlatform {
    /// Mac Metal (Apple Silicon)
    MacMetal,
    /// NVIDIA CUDA
    NvidiaCuda,
    /// AMD OpenCL
    AmdOpenCl,
    /// Intel OpenCL
    IntelOpenCl,
    /// Any other OpenCL implementation
    GenericOpenCl,
    /// Unknown platform
    Unknown,
}

/// The display name of a platform.
pub open spec fn platform_name(p: GpuPlatform) -> Seq<char> {
    match p {
        GpuPlatform::MacMetal => "Mac Metal"@,
        GpuPlatform::NvidiaCuda => "NVIDIA CUDA"@,
        GpuPlatform::AmdOpenCl => "AMD OpenCL"@,
        GpuPlatform::IntelOpenCl => "Intel OpenCL"@,
        GpuPlatform::GenericOpenCl => "Generic OpenCL"@,
        GpuPlatform::Unknown => "Unknown"@,
    }
}

/// The priority of a platform; a smaller number is preferred.
pub open spec fn platform_priority(p: GpuPlatform) -> u32 {
    match p {
        GpuPlatform::MacMetal => 1,
        GpuPlatform::NvidiaCuda => 2,
        GpuPlatform::AmdOpenCl => 3,
        GpuPlatform::IntelOpenCl => 4,
        GpuPlatform::GenericOpenCl => 5,
        GpuPlatform::Unknown => 999,
    }
}

/// The slot of a platform in per-platform tables.
pub open spec fn platform_slot(p: GpuPlatform) -> int {
    match p {
        GpuPlatform::MacMetal => 0,
        GpuPlatform::NvidiaCuda => 1,
        GpuPlatform::AmdOpenCl => 2,
        GpuPlatform::IntelOpenCl => 3,
        GpuPlatform::GenericOpenCl => 4,
        GpuPlatform::Unknown => 5,
    }
}

/// The platforms probed by detection, in probing order.
pub open spec fn candidate_platforms() -> Seq<GpuPlatform> {
    seq![
        GpuPlatform::MacMetal,
        GpuPlatform::NvidiaCuda,
        GpuPlatform::AmdOpenCl,
        GpuPlatform::IntelOpenCl,
        GpuPlatform::GenericOpenCl,
    ]
}

/// The elements of `c` whose flag in `a` is set, in order.
pub open spec fn select_available(c: Seq<GpuPlatform>, a: Seq<bool>) -> Seq<GpuPlatform>
    decreases c.len(),
{
    if c.len() == 0 || a.len() == 0 {
        Seq::empty()
    } else {
        let prev = select_available(c.drop_last(), a.drop_last());
        if a.last() {
            prev.push(c.last())
        } else {
            prev
        }
    }
}

/// The description recorded for a detected platform.
pub open spec fn platform_details_text(p: GpuPlatform) -> Seq<char> {
    match p {
        GpuPlatform::MacMetal => "Mac Metal GPU"@,
        GpuPlatform::NvidiaCuda => "NVIDIA CUDA GPU (预留)"@,
        GpuPlatform::AmdOpenCl => "AMD OpenCL GPU (预留)"@,
        GpuPlatform::IntelOpenCl => "Intel OpenCL GPU (预留)"@,
        GpuPlatform::GenericOpenCl => "Generic OpenCL GPU (预留)"@,
        GpuPlatform::Unknown => "Unknown GPU"@,
    }
}

/// The device name given to device `id` of a platform.
pub open spec fn platform_device_name(p: GpuPlatform, id: u32) -> Seq<char> {
    match p {
        GpuPlatform::MacMetal => "Mac Metal GPU"@,
        GpuPlatform::NvidiaCuda => "NVIDIA CUDA GPU "@ + decimal(id as nat),
        GpuPlatform::AmdOpenCl => "AMD OpenCL GPU "@ + decimal(id as nat),
        GpuPlatform::IntelOpenCl => "Intel OpenCL GPU "@ + decimal(id as nat),
        GpuPlatform::GenericOpenCl => "Generic OpenCL GPU "@ + decimal(id as nat),
        GpuPlatform::Unknown => "Unknown GPU "@ + decimal(id as nat),
    }
}

/// The device type tag of a platform.
pub open spec fn platform_device_type(p: GpuPlatform) -> Seq<char> {
    match p {
        GpuPlatform::MacMetal => "mac-metal"@,
        GpuPlatform::NvidiaCuda => "nvidia-cuda"@,
        GpuPlatform::AmdOpenCl => "amd-opencl"@,
        GpuPlatform::IntelOpenCl => "intel-opencl"@,
        GpuPlatform::GenericOpenCl => "generic-opencl"@,
        GpuPlatform::Unknown => "unknown"@,
    }
}

/// Strictly increasing in priority.
pub open spec fn sorted_by_priority(s: Seq<GpuPlatform>) -> bool {
    forall|i: int, j: int|
        0 <= i < j < s.len() ==> platform_priority(#[trigger] s[i]) < platform_priority(
            #[trigger] s[j],
        )
}

impl GpuPlatform {
    /// The display name.
    pub fn name(&self) -> (s: &'static str)
        ensures
            s@ == platform_name(*self),
    {
        match self {
            GpuPlatform::MacMetal => "Mac Metal",
            GpuPlatform::NvidiaCuda => "NVIDIA CUDA",
            GpuPlatform::AmdOpenCl => "AMD OpenCL",
            GpuPlatform::IntelOpenCl => "Intel OpenCL",
            GpuPlatform::GenericOpenCl => "Generic OpenCL",
            GpuPlatform::Unknown => "Unknown",
        }
    }

    /// The priority; a smaller number is preferred.
    pub fn priority(&self) -> (r: u32)
        ensures
            r == platform_priority(*self),
    {
        match self {
            GpuPlatform::MacMetal => 1,
            GpuPlatform::NvidiaCuda => 2,
            GpuPlatform::AmdOpenCl => 3,
            GpuPlatform::IntelOpenCl => 4,
            GpuPlatform::GenericOpenCl => 5,
            GpuPlatform::Unknown => 999,
        }
    }

    /// Whether the platform can be used on this machine. Metal is available
    /// when a Metal backend can be opened, which this build cannot do; the
    /// probes for CUDA and OpenCL are not implemented and report the platform
    /// unavailable; `Unknown` is never available.
    pub fn is_available(&self) -> (r: bool)
        ensures
            !r,
    {
        match self {
            GpuPlatform::MacMetal => MetalBackend::new().is_ok(),
            GpuPlatform::NvidiaCuda => false,
            GpuPlatform::AmdOpenCl => false,
            GpuPlatform::IntelOpenCl => false,
            GpuPlatform::GenericOpenCl => false,
            GpuPlatform::Unknown => false,
        }
    }

    fn slot(&self) -> (r: usize)
        ensures
            r == platform_slot(*self),
    {
        match self {
            GpuPlatform::MacMetal => 0,
            GpuPlatform::NvidiaCuda => 1,
            GpuPlatform::AmdOpenCl => 2,
            GpuPlatform::IntelOpenCl => 3,
            GpuPlatform::GenericOpenCl => 4,
            GpuPlatform::Unknown => 5,
        }
    }
}

fn candidate(i: usize) -> (p: GpuPlatform)
    requires
        i < 5,
    ensures
        p == candidate_platforms()[i as int],
{
    if i == 0 {
        GpuPlatform::MacMetal
    } else if i == 1 {
        GpuPlatform::NvidiaCuda
    } else if i == 2 {
        GpuPlatform::AmdOpenCl
    } else if i == 3 {
        GpuPlatform::IntelOpenCl
    } else {
        GpuPlatform::GenericOpenCl
    }
}

/// The recorded description of a platform.
pub fn platform_details(p: GpuPlatform) -> (s: String)
    ensures
        s@ == platform_details_text(p),
{
    match p {
        GpuPlatform::MacMetal => String::from_str("Mac Metal GPU"),
        GpuPlatform::NvidiaCuda => String::from_str("NVIDIA CUDA GPU (预留)"),
        GpuPlatform::AmdOpenCl => String::from_str("AMD OpenCL GPU (预留)"),
        GpuPlatform::IntelOpenCl => String::from_str("Intel OpenCL GPU (预留)"),
        GpuPlatform::GenericOpenCl => String::from_str("Generic OpenCL GPU (预留)"),
        GpuPlatform::Unknown => String::from_str("Unknown GPU"),
    }
}

fn empty_info_table() -> (t: Vec<Option<String>>)
    ensures
        t@.len() == 6,
        forall|k: int| 0 <= k < 6 ==> t@[k] is None,
{
    let mut info: Vec<Option<String>> = Vec::new();
    let mut i: usize = 0;
    while i < 6
        invariant
            i <= 6,
            info@.len() == i,
            forall|k: int| 0 <= k < i ==> info@[k] is None,
        decreases 6 - i,
    {
        info.push(None);
        i = i + 1;
    }
    info
}

spec fn slot_describes(info: Seq<Option<String>>, p: GpuPlatform) -> bool {
    info[platform_slot(p)] is Some && info[platform_slot(p)]->Some_0@ == platform_details_text(p)
}

/// Detector of the GPU platforms present on the machine.
pub struct PlatformDetector {
    detected_platforms: Vec<GpuPlatform>,
    /// One entry per platform slot (see [`platform_slot`]).
    platform_info: Vec<Option<String>>,
}

/// What a detector holds: the detected platforms in preference order and
/// the recorded description of each platform that has one.
pub struct PlatformDetectorView {
    pub detected: Seq<GpuPlatform>,
    pub details: Map<GpuPlatform, Seq<char>>,
}

pub open spec fn info_map(info: Seq<Option<String>>) -> Map<GpuPlatform, Seq<char>> {
    Map::new(
        |p: GpuPlatform| info[platform_slot(p)] is Some,
        |p: GpuPlatform| info[platform_slot(p)]->Some_0@,
    )
}

impl View for PlatformDetector {
    type V = PlatformDetectorView;

    closed spec fn view(&self) -> PlatformDetectorView {
        PlatformDetectorView {
            detected: self.detected_platforms@,
            details: info_map(self.platform_info@),
        }
    }
}

impl PlatformDetector {
    #[verifier::type_invariant]
    closed spec fn inv(self) -> bool {
        &&& self.platform_info@.len() == 6
        &&& sorted_by_priority(self.detected_platforms@)
        &&& !self.detected_platforms@.contains(GpuPlatform::Unknown)
    }

    /// An empty detector.
    pub fn new() -> (r: PlatformDetector)
        ensures
            r@.detected == Seq::<GpuPlatform>::empty(),
            r@.details == Map::<GpuPlatform, Seq<char>>::empty(),
    {
        let info = empty_info_table();
        let r = PlatformDetector { detected_platforms: Vec::new(), platform_info: info };
        assert(r@.details =~= Map::<GpuPlatform, Seq<char>>::empty());
        r
    }

    /// Records the outcome of probing the candidate platforms:
    /// `available[i]` says whether the `i`-th candidate can be used. The
    /// available ones become the detected platforms, in preference order,
    /// and each gets its description recorded; descriptions recorded earlier
    /// for other platforms stay.
    pub fn record_detection(&mut self, available: &Vec<bool>) -> (r: Vec<GpuPlatform>)
        requires
            available@.len() == 5,
        ensures
            r@ == select_available(candidate_platforms(), available@),
            sorted_by_priority(r@),
            !r@.contains(GpuPlatform::Unknown),
            final(self)@.detected == r@,
            forall|p: GpuPlatform|
                #![trigger final(self)@.details.dom().contains(p)]
                r@.contains(p) ==> final(self)@.details.dom().contains(p)
                    && final(self)@.details[p] == platform_details_text(p),
            forall|p: GpuPlatform|
                #![trigger final(self)@.details.dom().contains(p)]
                !r@.contains(p) ==> (final(self)@.details.dom().contains(p)
                    == old(self)@.details.dom().contains(p)) && (old(self)@.details.dom().contains(p)
                    ==> final(self)@.details[p] == old(self)@.details[p]),
    {
        proof { use_type_invariant(&*self); }
        let mut found: Vec<GpuPlatform> = Vec::new();
        let mut info = empty_info_table();
        std::mem::swap(&mut info, &mut self.platform_info);
        let ghost old_info = info@;
        let mut i: usize = 0;
        while i < 5
            invariant
                i <= 5,
                available@.len() == 5,
                info@.len() == 6,
                old_info.len() == 6,
                found@ == select_available(
                    candidate_platforms().subrange(0, i as int),
                    available@.subrange(0, i as int),
                ),
                sorted_by_priority(found@),
                forall|k: int| 0 <= k < found@.len() ==> platform_priority(#[trigger] found@[k]) <= i,
                forall|k: int| 0 <= k < found@.len() ==> platform_slot(#[trigger] found@[k]) < i,
                forall|s: int|
                    0 <= s < 6 ==> (#[trigger] info@[s] == old_info[s] || (exists|k: int|
                        0 <= k < found@.len() && platform_slot(found@[k]) == s)),
                forall|k: int| 0 <= k < found@.len() ==> slot_describes(info@, #[trigger] found@[k]),
                forall|s: int|
                    0 <= s < 6 && info@[s] != old_info[s] ==> exists|k: int|
                        0 <= k < found@.len() && platform_slot(#[trigger] found@[k]) == s,
            decreases 5 - i,
        {
            let ghost prev_found = found@;
            let ghost prev_info = info@;
            let c = candidate(i);
            assert(candidate_platforms().subrange(0, i + 1).drop_last() =~= candidate_platforms().subrange(0, i as int));
            assert(available@.subrange(0, i + 1).drop_last() =~= available@.subrange(0, i as int));
            if available[i] {
                found.push(c);
                let slot = c.slot();
                info.set(slot, Some(platform_details(c)));
                assert forall|s: int| 0 <= s < 6 implies (#[trigger] info@[s] == old_info[s] || (exists|k: int|
                        0 <= k < found@.len() && platform_slot(found@[k]) == s)) by {
                    if s == slot as int {
                        assert(platform_slot(found@[found@.len() - 1]) == s);
                    } else if prev_info[s] != old_info[s] {
                        let k = choose|k: int| 0 <= k < prev_found.len() && platform_slot(prev_found[k]) == s;
                        assert(found@[k] == prev_found[k]);
                    }
                }
                assert forall|s: int| 0 <= s < 6 && info@[s] != old_info[s] implies exists|k: int|
                        0 <= k < found@.len() && platform_slot(#[trigger] found@[k]) == s by {
                    if s == slot as int {
                        assert(platform_slot(found@[found@.len() - 1]) == s);
                    } else {
                        let k = choose|k: int| 0 <= k < prev_found.len() && platform_slot(#[trigger] prev_found[k]) == s;
                        assert(found@[k] == prev_found[k]);
                    }
                }
                assert forall|k: int| 0 <= k < found@.len() implies slot_describes(info@, #[trigger] found@[k]) by {
                    if k < prev_found.len() {
                        assert(found@[k] == prev_found[k]);
                        assert(platform_slot(prev_found[k]) < i);
                    }
                }
            }
            i = i + 1;
        }
        assert(candidate_platforms().subrange(0, 5) =~= candidate_platforms());
        assert(available@.subrange(0, 5) =~= available@);
        assert(!found@.contains(GpuPlatform::Unknown)) by {
            if found@.contains(GpuPlatform::Unknown) {
                let k = choose|k: int| 0 <= k < found@.len() && found@[k] == GpuPlatform::Unknown;
                assert(platform_slot(found@[k]) < 5);
            }
        }
        self.platform_info = info;
        self.detected_platforms = found.clone();
        proof {
            let fin = info_map(info@);
            let old_map = info_map(old_info);
            assert forall|p: GpuPlatform| #![trigger fin.dom().contains(p)]
                found@.contains(p) implies fin.dom().contains(p) && fin[p] == platform_details_text(p) by {
                let k = choose|k: int| 0 <= k < found@.len() && found@[k] == p;
                assert(slot_describes(info@, found@[k]));
            }
            assert forall|p: GpuPlatform| #![trigger fin.dom().contains(p)]
                !found@.contains(p) implies (fin.dom().contains(p) == old_map.dom().contains(p))
                    && (old_map.dom().contains(p) ==> fin[p] == old_map[p]) by {
                let s = platform_slot(p);
                if info@[s] != old_info[s] {
                    let k = choose|k: int| 0 <= k < found@.len() && platform_slot(#[trigger] found@[k]) == s;
                    assert(found@[k] == p);
                    assert(found@.contains(p));
                }
            }
        }
        found
    }

    /// Probes every candidate platform and records the outcome (see
    /// [`PlatformDetector::record_detection`]). Always succeeds.
    pub fn detect_platforms(&mut self) -> (r: Result<Vec<GpuPlatform>, DeviceError>)
        ensures
            r matches Ok(v) && v@ == final(self)@.detected && sorted_by_priority(v@),
            final(self)@.detected == Seq::<GpuPlatform>::empty(),
            final(self)@.details == old(self)@.details,
    {
        let mut availability: Vec<bool> = Vec::new();
        let mut i: usize = 0;
        while i < 5
            invariant
                i <= 5,
                availability@.len() == i,
                forall|k: int| 0 <= k < i ==> !availability@[k],
            decreases 5 - i,
        {
            let c = candidate(i);
            availability.push(c.is_available());
            i = i + 1;
        }
        let ghost a = availability@;
        proof {
            lemma_select_none(candidate_platforms(), a);
        }
        let found = self.record_detection(&availability);
        proof {
            assert(self@.details =~= old(self)@.details);
        }
        Ok(found)
    }

    /// The preferred detected platform: the first one, which has the smallest
    /// priority of all detected platforms.
    pub fn get_best_platform(&self) -> (r: Option<&GpuPlatform>)
        ensures
            self@.detected.len() == 0 ==> r is None,
            self@.detected.len() > 0 ==> r == Some(&self@.detected[0]),
            r matches Some(b) ==> forall|k: int|
                0 <= k < self@.detected.len() ==> platform_priority(*b) <= platform_priority(
                    #[trigger] self@.detected[k],
                ),
            r matches Some(b) ==> *b != GpuPlatform::Unknown,
    {
        proof { use_type_invariant(self); }
        if self.detected_platforms.len() == 0 {
            None
        } else {
            Some(&self.detected_platforms[0])
        }
    }

    /// The detected platforms, in preference order.
    pub fn get_detected_platforms(&self) -> (r: &[GpuPlatform])
        ensures
            r@ == self@.detected,
            sorted_by_priority(r@),
            !r@.contains(GpuPlatform::Unknown),
    {
        proof { use_type_invariant(self); }
        self.detected_platforms.as_slice()
    }

    /// The recorded description of a platform, if any.
    pub fn get_platform_details(&self, platform: &GpuPlatform) -> (r: Option<&String>)
        ensures
            self@.details.dom().contains(*platform) <==> r is Some,
            r matches Some(s) ==> s@ == self@.details[*platform],
    {
        proof { use_type_invariant(self); }
        let slot = platform.slot();
        match &self.platform_info[slot] {
            Some(s) => Some(s),
            None => None,
        }
    }

    /// Whether a platform was detected.
    pub fn is_platform_available(&self, platform: &GpuPlatform) -> (r: bool)
        ensures
            r == self@.detected.contains(*platform),
            *platform == GpuPlatform::Unknown ==> !r,
    {
        proof { use_type_invariant(self); }
        let mut i: usize = 0;
        while i < self.detected_platforms.len()
            invariant
                i <= self.detected_platforms@.len(),
                forall|k: int| 0 <= k < i ==> self.detected_platforms@[k] != *platform,
                !self.detected_platforms@.contains(GpuPlatform::Unknown),
            decreases self.detected_platforms@.len() - i,
        {
            if self.detected_platforms[i] == *platform {
                assert(self.detected_platforms@.contains(self.detected_platforms@[i as int]));
                return true;
            }
            i = i + 1;
        }
        false
    }

    /// The description of device `device_id` on a platform. Always succeeds.
    pub fn create_device_info_for_platform(&self, platform: &GpuPlatform, device_id: u32) -> (r:
        Result<DeviceInfo, DeviceError>)
        ensures
            r matches Ok(d) && d.id == device_id && d.name@ == platform_device_name(
                *platform,
                device_id,
            ) && d.device_type@ == platform_device_type(*platform) && d.chain_id == 0,
    {
        let name = match platform {
            GpuPlatform::MacMetal => String::from_str("Mac Metal GPU"),
            GpuPlatform::NvidiaCuda => with_decimal_suffix("NVIDIA CUDA GPU ", device_id),
            GpuPlatform::AmdOpenCl => with_decimal_suffix("AMD OpenCL GPU ", device_id),
            GpuPlatform::IntelOpenCl => with_decimal_suffix("Intel OpenCL GPU ", device_id),
            GpuPlatform::GenericOpenCl => with_decimal_suffix("Generic OpenCL GPU ", device_id),
            GpuPlatform::Unknown => with_decimal_suffix("Unknown GPU ", device_id),
        };
        let device_type = match platform {
            GpuPlatform::MacMetal => String::from_str("mac-metal"),
            GpuPlatform::NvidiaCuda => String::from_str("nvidia-cuda"),
            GpuPlatform::AmdOpenCl => String::from_str("amd-opencl"),
            GpuPlatform::IntelOpenCl => String::from_str("intel-opencl"),
            GpuPlatform::GenericOpenCl => String::from_str("generic-opencl"),
            GpuPlatform::Unknown => String::from_str("unknown"),
        };
        Ok(DeviceInfo::new(device_id, name, device_type, 0))
    }

    /// The number of devices to use on a platform: one, none for `Unknown`.
    pub fn get_recommended_device_count(&self, platform: &GpuPlatform) -> (r: u32)
        ensures
            r == if *platform == GpuPlatform::Unknown { 0u32 } else { 1u32 },
    {
        match platform {
            GpuPlatform::MacMetal => 1,
            GpuPlatform::NvidiaCuda => 1,
            GpuPlatform::AmdOpenCl => 1,
            GpuPlatform::IntelOpenCl => 1,
            GpuPlatform::GenericOpenCl => 1,
            GpuPlatform::Unknown => 0,
        }
    }
}

impl Default for PlatformDetector {
    fn default() -> (r: PlatformDetector)
        ensures
            r@.detected == Seq::<GpuPlatform>::empty(),
            r@.details == Map::<GpuPlatform, Seq<char>>::empty(),
    {
        PlatformDetector::new()
    }
}

proof fn lemma_select_none(c: Seq<GpuPlatform>, a: Seq<bool>)
    requires
        forall|k: int| 0 <= k < a.len() ==> !a[k],
    ensures
        select_available(c, a) == Seq::<GpuPlatform>::empty(),
    decreases c.len(),
{
    if c.len() > 0 && a.len() > 0 {
        lemma_select_none(c.drop_last(), a.drop_last());
    }
}

/// Law: distinct platforms have distinct priorities, so the preference order
/// is total.
pub proof fn lemma_priority_injective(a: GpuPlatform, b: GpuPlatform)
    ensures
        platform_priority(a) == platform_priority(b) ==> a == b,
{
}

/// Law: the platforms detection can report are exactly the available
/// candidates; the result is in strictly increasing priority, so its first
/// element is the most preferred available platform.
pub proof fn lemma_selection_sorted(a: Seq<bool>)
    requires
        a.len() == 5,
    ensures
        sorted_by_priority(select_available(candidate_platforms(), a)),
        forall|p: GpuPlatform|
            select_available(candidate_platforms(), a).contains(p) <==> exists|i: int|
                0 <= i < 5 && a[i] && #[trigger] candidate_platforms()[i] == p,
{
    lemma_select_prefix(a, 5);
    assert(candidate_platforms().subrange(0, 5) =~= candidate_platforms());
    assert(a.subrange(0, 5) =~= a);
}

proof fn lemma_select_prefix(a: Seq<bool>, n: int)
    requires
        a.len() == 5,
        0 <= n <= 5,
    ensures
        sorted_by_priority(
            select_available(candidate_platforms().subrange(0, n), a.subrange(0, n)),
        ),
        forall|p: GpuPlatform|
            select_available(candidate_platforms().subrange(0, n), a.subrange(0, n)).contains(p)
                <==> exists|i: int| 0 <= i < n && a[i] && #[trigger] candidate_platforms()[i] == p,
        forall|k: int|
            0 <= k < select_available(candidate_platforms().subrange(0, n), a.subrange(0, n)).len()
                ==> platform_priority(
                #[trigger] select_available(candidate_platforms().subrange(0, n), a.subrange(0, n))[k],
            ) <= n,
    decreases n,
{
    let s = select_available(candidate_platforms().subrange(0, n), a.subrange(0, n));
    if n > 0 {
        lemma_select_prefix(a, n - 1);
        assert(candidate_platforms().subrange(0, n).drop_last() =~= candidate_platforms().subrange(0, n - 1));
        assert(a.subrange(0, n).drop_last() =~= a.subrange(0, n - 1));
        let prev = select_available(candidate_platforms().subrange(0, n - 1), a.subrange(0, n - 1));
        assert forall|p: GpuPlatform| s.contains(p) <==> exists|i: int|
            0 <= i < n && a[i] && #[trigger] candidate_platforms()[i] == p by {
            if s.contains(p) {
                let k = choose|k: int| 0 <= k < s.len() && s[k] == p;
                if k < prev.len() {
                    assert(prev[k] == p);
                    assert(prev.contains(p));
                } else {
                    assert(candidate_platforms()[n - 1] == p);
                }
            }
            if exists|i: int| 0 <= i < n && a[i] && #[trigger] candidate_platforms()[i] == p {
                let i = choose|i: int| 0 <= i < n && a[i] && #[trigger] candidate_platforms()[i] == p;
                if i < n - 1 {
                    assert(prev.contains(p));
                    let k = choose|k: int| 0 <= k < prev.len() && prev[k] == p;
                    assert(s[k] == p);
                } else {
                    assert(s[s.len() - 1] == p);
                }
            }
        }
    } else {
        assert forall|p: GpuPlatform| s.contains(p) <==> exists|i: int|
            0 <= i < n && a[i] && #[trigger] candidate_platforms()[i] == p by {}
    }
}

/// Law: detection never reports the `Unknown` platform, whatever the
/// outcome of the probes.
pub proof fn lemma_selection_excludes_unknown(a: Seq<bool>)
    requires
        a.len() == 5,
    ensures
        !select_available(candidate_platforms(), a).contains(GpuPlatform::Unknown),
{
    lemma_selection_sorted(a);
    if select_available(candidate_platforms(), a).contains(GpuPlatform::Unknown) {
        let i = choose|i: int| 0 <= i < 5 && a[i] && #[trigger] candidate_platforms()[i] == GpuPlatform::Unknown;
        assert(candidate_platforms()[i] != GpuPlatform::Unknown);
    }
}

} // verus!
