//! The owned, safe result of a successful identification, and the
//! conversion that builds it from a populated identification record.

use vstd::prelude::*;
use vstd::utf8::decode_utf8;
use vstd::utf8::valid_utf8;

use crate::features::CpuFeature;
use crate::features::spec_feature_ordinal;
use crate::records::CPU_FLAGS_MAX;
use crate::records::IdRecord;
use crate::text::field_text;
use crate::text::text_from_bytes;

verus! {

/// Why a populated identification record could not be converted: the
/// named text field did not decode as UTF-8 after truncation.
#[derive(Clone, Copy, Debug, PartialEq, Eq, Structural)]
pub enum ConvertError {
    InvalidVendor,
    InvalidBrand,
    InvalidCodename,
}

/// Maps a native sentinel field to an optional value: `-1` means the
/// value could not be determined, anything else (zero included) is the
/// value itself.
pub open spec fn spec_optional_from_sentinel(raw: i32) -> Option<i32> {
    if raw == -1 {
        None
    } else {
        Some(raw)
    }
}

/// Maps a native sentinel field to an optional value: `-1` becomes
/// `None`, any other value (zero included) becomes `Some` of it.
pub fn optional_from_sentinel(raw: i32) -> (r: Option<i32>)
    ensures
        r == spec_optional_from_sentinel(raw),
{
    if raw != -1 {
        Some(raw)
    } else {
        None
    }
}

/// A byte-for-byte copy of the vector.
fn copy_bytes(bytes: &Vec<u8>) -> (r: Vec<u8>)
    ensures
        r@ == bytes@,
{
    let mut out: Vec<u8> = Vec::new();
    let mut i: usize = 0;
    while i < bytes.len()
        invariant
            i <= bytes@.len(),
            out@ == bytes@.take(i as int),
        decreases bytes@.len() - i,
    {
        out.push(bytes[i]);
        assert(out@ =~= bytes@.take(i + 1));
        i = i + 1;
    }
    assert(out@ =~= bytes@);
    out
}

/// The retained copy of the identification record's flag array, opaque
/// to callers and queried through `CpuInfo::has_feature`.
pub struct FeatureFlags {
    slots: Vec<u8>,
}

impl View for FeatureFlags {
    type V = Seq<u8>;

    closed spec fn view(&self) -> Seq<u8> {
        self.slots@
    }
}

impl FeatureFlags {
    /// The flag array has exactly its fixed capacity.
    pub open spec fn wf(&self) -> bool {
        self@.len() == CPU_FLAGS_MAX
    }

    /// A verbatim copy of a record's flag array.
    fn from_bytes(bytes: &Vec<u8>) -> (r: FeatureFlags)
        ensures
            r@ == bytes@,
    {
        FeatureFlags { slots: copy_bytes(bytes) }
    }

    /// The byte held in the given flag slot.
    fn get(&self, i: usize) -> (b: u8)
        requires
            i < self@.len(),
        ensures
            b == self@[i as int],
    {
        self.slots[i]
    }
}

/// Information about the processor, owned and independent of the native
/// records it was derived from; built only by a successful conversion
/// and immutable afterwards.
pub struct CpuInfo {
    /// CPU vendor string, for example *GenuineIntel*.
    pub vendor: String,
    /// Brand string, for example *Intel(R) Core(TM) i5-2410M CPU @ 2.30GHz*.
    pub brand: String,
    /// Brief CPU codename, such as *Sandy Bridge (Core i5)*.
    pub codename: String,
    /// Number of physical cores of the current CPU.
    pub num_cores: i32,
    /// Number of logical processors (may include HyperThreading or such).
    pub num_logical_cpus: i32,
    /// Total number of logical processors.
    pub total_logical_cpus: i32,
    /// L1 data cache size in kB. `Some(0)` if the CPU lacks cache, `None` if it couldn't be determined.
    pub l1_data_cache: Option<i32>,
    /// L1 instruction cache size in kB. `Some(0)` if the CPU lacks cache, `None` if it couldn't be determined.
    pub l1_instruction_cache: Option<i32>,
    /// L2 cache size in kB. `Some(0)` if the CPU lacks L2 cache, `None` if it couldn't be determined.
    pub l2_cache: Option<i32>,
    /// L3 cache size in kB. `Some(0)` if the CPU lacks L3 cache, `None` if it couldn't be determined.
    pub l3_cache: Option<i32>,
    /// The retained flag array, addressed by `CpuFeature` ordinals.
    pub flags: FeatureFlags,
}

impl CpuInfo {
    /// The retained flag array has exactly its fixed capacity.
    pub open spec fn wf(&self) -> bool {
        self.flags.wf()
    }

    /// The flag slot a feature addresses holds the "present" value 1.
    pub open spec fn spec_has_feature(&self, feature: CpuFeature) -> bool {
        self.flags@[spec_feature_ordinal(feature)] == 1
    }

    /// Checks if the current CPU supports the given feature: whether the
    /// flag slot at the feature's ordinal holds the "present" value 1.
    ///
    /// See `CpuFeature` for the list of available feature identifiers.
    pub fn has_feature(&self, feature: CpuFeature) -> (r: bool)
        requires
            self.wf(),
        ensures
            r == self.spec_has_feature(feature),
    {
        self.flags.get(feature.ordinal()) == 1u8
    }

    /// Converts a populated identification record into owned safe
    /// values: decodes the three text fields by scanning each up to its
    /// capacity and stopping at the first zero byte, maps each cache
    /// sentinel to an optional size, and copies the counts and the flag
    /// array verbatim. Fails exactly when a text field does not decode,
    /// naming the first such field.
    pub fn from_record(rec: &IdRecord) -> (r: Result<CpuInfo, ConvertError>)
        requires
            rec.wf(),
        ensures
            r is Ok <==> {
                &&& valid_utf8(field_text(rec.vendor_str@))
                &&& valid_utf8(field_text(rec.brand_str@))
                &&& valid_utf8(field_text(rec.cpu_codename@))
            },
            r matches Ok(info) ==> {
                &&& info.wf()
                &&& info.vendor@ == decode_utf8(field_text(rec.vendor_str@))
                &&& info.brand@ == decode_utf8(field_text(rec.brand_str@))
                &&& info.codename@ == decode_utf8(field_text(rec.cpu_codename@))
                &&& info.num_cores == rec.num_cores
                &&& info.num_logical_cpus == rec.num_logical_cpus
                &&& info.total_logical_cpus == rec.total_logical_cpus
                &&& info.l1_data_cache == spec_optional_from_sentinel(rec.l1_data_cache)
                &&& info.l1_instruction_cache == spec_optional_from_sentinel(
                    rec.l1_instruction_cache,
                )
                &&& info.l2_cache == spec_optional_from_sentinel(rec.l2_cache)
                &&& info.l3_cache == spec_optional_from_sentinel(rec.l3_cache)
                &&& info.flags@ == rec.flags@
            },
            r == Err::<CpuInfo, ConvertError>(ConvertError::InvalidVendor) <==> !valid_utf8(
                field_text(rec.vendor_str@),
            ),
            r == Err::<CpuInfo, ConvertError>(ConvertError::InvalidBrand) <==> {
                &&& valid_utf8(field_text(rec.vendor_str@))
                &&& !valid_utf8(field_text(rec.brand_str@))
            },
            r == Err::<CpuInfo, ConvertError>(ConvertError::InvalidCodename) <==> {
                &&& valid_utf8(field_text(rec.vendor_str@))
                &&& valid_utf8(field_text(rec.brand_str@))
                &&& !valid_utf8(field_text(rec.cpu_codename@))
            },
    {
        let vendor = match text_from_bytes(&rec.vendor_str) {
            Some(s) => s,
            None => {
                return Err(ConvertError::InvalidVendor);
            },
        };
        let brand = match text_from_bytes(&rec.brand_str) {
            Some(s) => s,
            None => {
                return Err(ConvertError::InvalidBrand);
            },
        };
        let codename = match text_from_bytes(&rec.cpu_codename) {
            Some(s) => s,
            None => {
                return Err(ConvertError::InvalidCodename);
            },
        };
        Ok(
            CpuInfo {
                vendor,
                brand,
                codename,
                num_cores: rec.num_cores,
                num_logical_cpus: rec.num_logical_cpus,
                total_logical_cpus: rec.total_logical_cpus,
                l1_data_cache: optional_from_sentinel(rec.l1_data_cache),
                l1_instruction_cache: optional_from_sentinel(rec.l1_instruction_cache),
                l2_cache: optional_from_sentinel(rec.l2_cache),
                l3_cache: optional_from_sentinel(rec.l3_cache),
                flags: FeatureFlags::from_bytes(&rec.flags),
            },
        )
    }
}

/// Every feature identifier addresses a slot inside the flag array's
/// fixed capacity.
pub proof fn lemma_feature_ordinal_in_range(f: CpuFeature)
    ensures
        0 <= spec_feature_ordinal(f) < CPU_FLAGS_MAX as int,
{
}

/// The conversion retains the flag array verbatim: a feature reads as
/// present on the converted result exactly when the slot its ordinal
/// addresses in the raw record's flag array holds the value 1.
pub proof fn lemma_conversion_preserves_features(rec: IdRecord, info: CpuInfo, f: CpuFeature)
    requires
        rec.wf(),
        info.flags@ == rec.flags@,
    ensures
        info.spec_has_feature(f) == (rec.flags@[spec_feature_ordinal(f)] == 1),
{
    lemma_feature_ordinal_in_range(f);
}

} // verus!
