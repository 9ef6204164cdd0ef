use cpuid::ConvertError;
use cpuid::CpuFeature;
use cpuid::CpuInfo;
use cpuid::CpuSGXFeature;
use cpuid::IdRecord;
use cpuid::optional_from_sentinel;
use cpuid::text_from_bytes;
use cpuid::truncate_at_nul;

fn record_with_vendor(vendor: &[u8]) -> IdRecord {
    let mut rec = IdRecord::new();
    rec.vendor_str[..vendor.len()].copy_from_slice(vendor);
    rec
}

#[test]
fn test_vendor_with_terminator() {
    let rec = record_with_vendor(b"GenuineIntel");
    assert_eq!(rec.vendor_str.len(), 16);
    let info = CpuInfo::from_record(&rec).unwrap();
    assert_eq!(info.vendor, "GenuineIntel");
    assert_eq!(info.vendor.len(), 12);
}

#[test]
fn test_text_without_terminator() {
    let mut rec = IdRecord::new();
    for b in rec.brand_str.iter_mut() {
        *b = b'A';
    }
    let info = CpuInfo::from_record(&rec).unwrap();
    assert_eq!(info.brand.len(), 64);
    assert!(info.brand.bytes().all(|b| b == b'A'));
}

#[test]
fn test_truncate_at_nul_boundaries() {
    assert_eq!(truncate_at_nul(&b"GenuineIntel\0\0\0\0".to_vec()), b"GenuineIntel".to_vec());
    assert_eq!(truncate_at_nul(&b"\0padding".to_vec()), Vec::<u8>::new());
    assert_eq!(truncate_at_nul(&b"full".to_vec()), b"full".to_vec());
    assert_eq!(truncate_at_nul(&Vec::new()), Vec::<u8>::new());
}

#[test]
fn test_text_from_bytes_decodes() {
    assert_eq!(text_from_bytes(&b"0.4.0\0".to_vec()), Some(String::from("0.4.0")));
    assert_eq!(text_from_bytes(&vec![0xFF, 0xFE]), None);
    assert_eq!(text_from_bytes(&vec![0xFF, 0x00, b'a']), None);
    assert_eq!(text_from_bytes(&Vec::new()), Some(String::new()));
}

#[test]
fn test_cache_size_sentinels() {
    let mut rec = IdRecord::new();
    rec.l1_data_cache = -1;
    rec.l1_instruction_cache = 0;
    rec.l2_cache = 64;
    rec.l3_cache = 8192;
    let info = CpuInfo::from_record(&rec).unwrap();
    assert_eq!(info.l1_data_cache, None);
    assert_eq!(info.l1_instruction_cache, Some(0));
    assert_eq!(info.l2_cache, Some(64));
    assert_eq!(info.l3_cache, Some(8192));
}

#[test]
fn test_optional_from_sentinel_boundaries() {
    assert_eq!(optional_from_sentinel(-1), None);
    assert_eq!(optional_from_sentinel(0), Some(0));
    assert_eq!(optional_from_sentinel(64), Some(64));
}

#[test]
fn test_clock_frequency_sentinel() {
    assert_eq!(optional_from_sentinel(-1), None);
    assert_eq!(optional_from_sentinel(2400), Some(2400));
}

#[test]
fn test_counts_copied_verbatim() {
    let mut rec = record_with_vendor(b"AuthenticAMD");
    rec.num_cores = 8;
    rec.num_logical_cpus = 16;
    rec.total_logical_cpus = 32;
    rec.cpu_codename[..9].copy_from_slice(b"Bulldozer");
    let info = CpuInfo::from_record(&rec).unwrap();
    assert_eq!(info.vendor, "AuthenticAMD");
    assert_eq!(info.codename, "Bulldozer");
    assert_eq!(info.num_cores, 8);
    assert_eq!(info.num_logical_cpus, 16);
    assert_eq!(info.total_logical_cpus, 32);
}

#[test]
fn test_has_feature_round_trip() {
    let mut rec = IdRecord::new();
    rec.flags[CpuFeature::AES.ordinal()] = 1;
    let info = CpuInfo::from_record(&rec).unwrap();
    let first = info.has_feature(CpuFeature::AES);
    let second = info.has_feature(CpuFeature::AES);
    assert!(first);
    assert_eq!(first, second);
    assert!(!info.has_feature(CpuFeature::SSE));
    assert_eq!(info.has_feature(CpuFeature::SSE), info.has_feature(CpuFeature::SSE));
}

#[test]
fn test_feature_flag_needs_exact_one() {
    let mut rec = IdRecord::new();
    rec.flags[CpuFeature::MMX.ordinal()] = 2;
    let info = CpuInfo::from_record(&rec).unwrap();
    assert!(!info.has_feature(CpuFeature::MMX));
}

#[test]
fn test_feature_ordinals_pinned() {
    assert_eq!(CpuFeature::FloatingPointUnit.ordinal(), 0);
    assert_eq!(CpuFeature::VirtualModeExtension.ordinal(), 1);
    assert_eq!(CpuFeature::SSE.ordinal(), 23);
    assert_eq!(CpuFeature::AES.ordinal(), 51);
    assert_eq!(CpuFeature::SGX.ordinal(), 107);
    assert_eq!(CpuFeature::ArbitraryPrecision.ordinal(), 109);
    assert_eq!(CpuFeature::NumCpuFeatures.ordinal(), 110);
    assert_eq!(CpuSGXFeature::IntelSGX1.ordinal(), 0);
    assert_eq!(CpuSGXFeature::IntelSGX2.ordinal(), 1);
    assert_eq!(CpuSGXFeature::NumSGXFeature.ordinal(), 2);
}

#[test]
fn test_invalid_vendor_text() {
    let mut rec = IdRecord::new();
    rec.vendor_str[0] = 0xFF;
    assert!(matches!(CpuInfo::from_record(&rec), Err(ConvertError::InvalidVendor)));
}

#[test]
fn test_invalid_brand_text() {
    let mut rec = record_with_vendor(b"GenuineIntel");
    rec.brand_str[0] = 0xC0;
    assert!(matches!(CpuInfo::from_record(&rec), Err(ConvertError::InvalidBrand)));
}

#[test]
fn test_invalid_codename_text() {
    let mut rec = record_with_vendor(b"GenuineIntel");
    rec.cpu_codename[0] = 0xFF;
    assert!(matches!(CpuInfo::from_record(&rec), Err(ConvertError::InvalidCodename)));
}

#[test]
fn test_invalid_text_behind_terminator_is_ignored() {
    let mut rec = record_with_vendor(b"GenuineIntel");
    rec.brand_str[0] = b'X';
    rec.brand_str[2] = 0xFF;
    let info = CpuInfo::from_record(&rec).unwrap();
    assert_eq!(info.brand, "X");
}
