//! CPU identification and feature detection around the native `libcpuid`
//! detection library.
//!
//! The native library fills two fixed-layout records from CPUID leaf
//! queries; this crate owns the boundary around those records: zeroed
//! construction of both records, the two-step detection protocol with
//! its terminal failure exits, and the conversion of raw fields
//! (fixed-capacity text buffers, `-1` sentinels, the feature-flag
//! array) into owned safe values.

pub mod features;
pub mod info;
pub mod protocol;
pub mod records;
pub mod text;

pub use features::CpuFeature;
pub use features::CpuSGXFeature;
pub use info::ConvertError;
pub use info::CpuInfo;
pub use info::FeatureFlags;
pub use info::optional_from_sentinel;
pub use protocol::IdentifyPhase;
pub use protocol::presence_from_status;
pub use protocol::step_on_status;
pub use records::CpuidLeaf;
pub use records::IdRecord;
pub use records::RawBuffer;
pub use records::SgxRecord;
pub use text::text_from_bytes;
pub use text::truncate_at_nul;
