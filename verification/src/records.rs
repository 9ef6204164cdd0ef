//! Fixed-layout record models for the native detection library.
//!
//! The native library communicates through two binary records: a raw
//! scratch buffer of CPUID leaf registers, and an identification record
//! of decoded fields. Both must be handed to the native calls fully
//! zeroed; the constructors here establish that, with proof.

use vstd::prelude::*;

verus! {

/// Capacity of the vendor-name byte buffer.
pub const VENDOR_STR_MAX: usize = 16;

/// Capacity of the brand-string byte buffer.
pub const BRAND_STR_MAX: usize = 64;

/// Capacity of the codename byte buffer.
pub const CODENAME_STR_MAX: usize = 64;

/// Capacity of the per-feature flag array: one byte slot per feature.
pub const CPU_FLAGS_MAX: usize = 128;

/// Capacity of the detection-hint flag array.
pub const CPU_HINTS_MAX: usize = 16;

/// Capacity of the secure-enclave feature-flag array.
pub const SGX_FLAGS_MAX: usize = 14;

/// Number of basic CPUID leaves captured in the raw buffer.
pub const MAX_CPUID_LEVEL: usize = 32;

/// Number of extended CPUID leaves captured in the raw buffer.
pub const MAX_EXT_CPUID_LEVEL: usize = 32;

/// Number of deterministic-cache sub-leaves captured in the raw buffer.
pub const MAX_INTELFN4_LEVEL: usize = 8;

/// Number of topology sub-leaves captured in the raw buffer.
pub const MAX_INTELFN11_LEVEL: usize = 4;

/// Number of enclave-enumeration sub-leaves captured in the raw buffer.
pub const MAX_INTELFN12H_LEVEL: usize = 4;

/// Number of processor-trace sub-leaves captured in the raw buffer.
pub const MAX_INTELFN14H_LEVEL: usize = 4;

/// The four 32-bit registers one CPUID query fills.
pub struct CpuidLeaf {
    pub eax: u32,
    pub ebx: u32,
    pub ecx: u32,
    pub edx: u32,
}

impl CpuidLeaf {
    /// All four registers are zero.
    pub open spec fn is_zero(self) -> bool {
        self.eax == 0 && self.ebx == 0 && self.ecx == 0 && self.edx == 0
    }
}

/// Every leaf in the sequence has all four registers zero.
pub open spec fn leaves_all_zero(s: Seq<CpuidLeaf>) -> bool {
    forall|i: int| 0 <= i < s.len() ==> (#[trigger] s[i]).is_zero()
}

/// Every byte in the sequence is zero.
pub open spec fn bytes_all_zero(s: Seq<u8>) -> bool {
    forall|i: int| 0 <= i < s.len() ==> s[i] == 0
}

/// A vector of `n` zeroed CPUID leaves.
fn zeroed_leaves(n: usize) -> (r: Vec<CpuidLeaf>)
    ensures
        r@.len() == n,
        leaves_all_zero(r@),
{
    let mut r: Vec<CpuidLeaf> = Vec::new();
    let mut i: usize = 0;
    while i < n
        invariant
            i <= n,
            r@.len() == i,
            leaves_all_zero(r@),
        decreases n - i,
    {
        r.push(CpuidLeaf { eax: 0, ebx: 0, ecx: 0, edx: 0 });
        i = i + 1;
    }
    r
}

/// A vector of `n` zero bytes.
fn zeroed_bytes(n: usize) -> (r: Vec<u8>)
    ensures
        r@.len() == n,
        bytes_all_zero(r@),
{
    let mut r: Vec<u8> = Vec::new();
    let mut i: usize = 0;
    while i < n
        invariant
            i <= n,
            r@.len() == i,
            bytes_all_zero(r@),
        decreases n - i,
    {
        r.push(0u8);
        i = i + 1;
    }
    r
}

/// The raw scratch record the native library fills from direct CPUID
/// queries: one fixed-length run of leaves per leaf family.
pub struct RawBuffer {
    pub basic_cpuid: Vec<CpuidLeaf>,
    pub ext_cpuid: Vec<CpuidLeaf>,
    pub intel_fn4: Vec<CpuidLeaf>,
    pub intel_fn11: Vec<CpuidLeaf>,
    pub intel_fn12h: Vec<CpuidLeaf>,
    pub intel_fn14h: Vec<CpuidLeaf>,
}

impl RawBuffer {
    /// Each leaf family has exactly its fixed capacity.
    pub open spec fn wf(&self) -> bool {
        &&& self.basic_cpuid@.len() == MAX_CPUID_LEVEL
        &&& self.ext_cpuid@.len() == MAX_EXT_CPUID_LEVEL
        &&& self.intel_fn4@.len() == MAX_INTELFN4_LEVEL
        &&& self.intel_fn11@.len() == MAX_INTELFN11_LEVEL
        &&& self.intel_fn12h@.len() == MAX_INTELFN12H_LEVEL
        &&& self.intel_fn14h@.len() == MAX_INTELFN14H_LEVEL
    }

    /// Every register of every leaf is zero.
    pub open spec fn is_zeroed(&self) -> bool {
        &&& leaves_all_zero(self.basic_cpuid@)
        &&& leaves_all_zero(self.ext_cpuid@)
        &&& leaves_all_zero(self.intel_fn4@)
        &&& leaves_all_zero(self.intel_fn11@)
        &&& leaves_all_zero(self.intel_fn12h@)
        &&& leaves_all_zero(self.intel_fn14h@)
    }

    /// A pristine buffer: full capacity, every byte zero, as the native
    /// acquisition call expects its input.
    pub fn new() -> (r: RawBuffer)
        ensures
            r.wf(),
            r.is_zeroed(),
    {
        RawBuffer {
            basic_cpuid: zeroed_leaves(MAX_CPUID_LEVEL),
            ext_cpuid: zeroed_leaves(MAX_EXT_CPUID_LEVEL),
            intel_fn4: zeroed_leaves(MAX_INTELFN4_LEVEL),
            intel_fn11: zeroed_leaves(MAX_INTELFN11_LEVEL),
            intel_fn12h: zeroed_leaves(MAX_INTELFN12H_LEVEL),
            intel_fn14h: zeroed_leaves(MAX_INTELFN14H_LEVEL),
        }
    }
}

/// The secure-enclave capability sub-record embedded in the
/// identification record.
pub struct SgxRecord {
    pub present: u32,
    pub max_enclave_32bit: u8,
    pub max_enclave_64bit: u8,
    pub flags: Vec<u8>,
    pub num_epc_sections: i32,
    pub misc_select: u32,
    pub secs_attributes: u64,
    pub secs_xfrm: u64,
}

impl SgxRecord {
    /// The enclave flag array has exactly its fixed capacity.
    pub open spec fn wf(&self) -> bool {
        self.flags@.len() == SGX_FLAGS_MAX
    }

    /// Every field, and every flag slot, is zero.
    pub open spec fn is_zeroed(&self) -> bool {
        &&& self.present == 0
        &&& self.max_enclave_32bit == 0
        &&& self.max_enclave_64bit == 0
        &&& bytes_all_zero(self.flags@)
        &&& self.num_epc_sections == 0
        &&& self.misc_select == 0
        &&& self.secs_attributes == 0
        &&& self.secs_xfrm == 0
    }

    /// A pristine sub-record with every byte zero.
    pub fn new() -> (r: SgxRecord)
        ensures
            r.wf(),
            r.is_zeroed(),
    {
        SgxRecord {
            present: 0,
            max_enclave_32bit: 0,
            max_enclave_64bit: 0,
            flags: zeroed_bytes(SGX_FLAGS_MAX),
            num_epc_sections: 0,
            misc_select: 0,
            secs_attributes: 0,
            secs_xfrm: 0,
        }
    }
}

/// The identification record the native library derives from a raw
/// buffer: fixed-capacity text buffers, counts, cache descriptions with
/// `-1` standing for "undetermined", the per-feature flag array, and the
/// secure-enclave sub-record.
pub struct IdRecord {
    pub vendor_str: Vec<u8>,
    pub brand_str: Vec<u8>,
    pub vendor: i32,
    pub flags: Vec<u8>,
    pub family: i32,
    pub model: i32,
    pub stepping: i32,
    pub ext_family: i32,
    pub ext_model: i32,
    pub num_cores: i32,
    pub num_logical_cpus: i32,
    pub total_logical_cpus: i32,
    pub l1_data_cache: i32,
    pub l1_instruction_cache: i32,
    pub l2_cache: i32,
    pub l3_cache: i32,
    pub l4_cache: i32,
    pub l1_assoc: i32,
    pub l2_assoc: i32,
    pub l3_assoc: i32,
    pub l4_assoc: i32,
    pub l1_cacheline: i32,
    pub l2_cacheline: i32,
    pub l3_cacheline: i32,
    pub l4_cacheline: i32,
    pub cpu_codename: Vec<u8>,
    pub sse_size: i32,
    pub detection_hints: Vec<u8>,
    pub sgx: SgxRecord,
}

impl IdRecord {
    /// Each fixed-capacity buffer has exactly its capacity.
    pub open spec fn wf(&self) -> bool {
        &&& self.vendor_str@.len() == VENDOR_STR_MAX
        &&& self.brand_str@.len() == BRAND_STR_MAX
        &&& self.flags@.len() == CPU_FLAGS_MAX
        &&& self.cpu_codename@.len() == CODENAME_STR_MAX
        &&& self.detection_hints@.len() == CPU_HINTS_MAX
        &&& self.sgx.wf()
    }

    /// Every field, and every byte of every buffer, is zero.
    pub open spec fn is_zeroed(&self) -> bool {
        &&& bytes_all_zero(self.vendor_str@)
        &&& bytes_all_zero(self.brand_str@)
        &&& self.vendor == 0
        &&& bytes_all_zero(self.flags@)
        &&& self.family == 0
        &&& self.model == 0
        &&& self.stepping == 0
        &&& self.ext_family == 0
        &&& self.ext_model == 0
        &&& self.num_cores == 0
        &&& self.num_logical_cpus == 0
        &&& self.total_logical_cpus == 0
        &&& self.l1_data_cache == 0
        &&& self.l1_instruction_cache == 0
        &&& self.l2_cache == 0
        &&& self.l3_cache == 0
        &&& self.l4_cache == 0
        &&& self.l1_assoc == 0
        &&& self.l2_assoc == 0
        &&& self.l3_assoc == 0
        &&& self.l4_assoc == 0
        &&& self.l1_cacheline == 0
        &&& self.l2_cacheline == 0
        &&& self.l3_cacheline == 0
        &&& self.l4_cacheline == 0
        &&& bytes_all_zero(self.cpu_codename@)
        &&& self.sse_size == 0
        &&& bytes_all_zero(self.detection_hints@)
        &&& self.sgx.is_zeroed()
    }

    /// A pristine record with every byte zero, as the native
    /// identification call expects its output slot.
    pub fn new() -> (r: IdRecord)
        ensures
            r.wf(),
            r.is_zeroed(),
    {
        IdRecord {
            vendor_str: zeroed_bytes(VENDOR_STR_MAX),
            brand_str: zeroed_bytes(BRAND_STR_MAX),
            vendor: 0,
            flags: zeroed_bytes(CPU_FLAGS_MAX),
            family: 0,
            model: 0,
            stepping: 0,
            ext_family: 0,
            ext_model: 0,
            num_cores: 0,
            num_logical_cpus: 0,
            total_logical_cpus: 0,
            l1_data_cache: 0,
            l1_instruction_cache: 0,
            l2_cache: 0,
            l3_cache: 0,
            l4_cache: 0,
            l1_assoc: 0,
            l2_assoc: 0,
            l3_assoc: 0,
            l4_assoc: 0,
            l1_cacheline: 0,
            l2_cacheline: 0,
            l3_cacheline: 0,
            l4_cacheline: 0,
            cpu_codename: zeroed_bytes(CODENAME_STR_MAX),
            sse_size: 0,
            detection_hints: zeroed_bytes(CPU_HINTS_MAX),
            sgx: SgxRecord::new(),
        }
    }
}

} // verus!
