use cpuid::IdRecord;
use cpuid::RawBuffer;
use cpuid::SgxRecord;

#[test]
fn test_raw_buffer_zeroed() {
    let raw = RawBuffer::new();
    assert_eq!(raw.basic_cpuid.len(), 32);
    assert_eq!(raw.ext_cpuid.len(), 32);
    assert_eq!(raw.intel_fn4.len(), 8);
    assert_eq!(raw.intel_fn11.len(), 4);
    assert_eq!(raw.intel_fn12h.len(), 4);
    assert_eq!(raw.intel_fn14h.len(), 4);
    for leaf in raw.basic_cpuid.iter().chain(raw.ext_cpuid.iter()) {
        assert_eq!(leaf.eax, 0);
        assert_eq!(leaf.ebx, 0);
        assert_eq!(leaf.ecx, 0);
        assert_eq!(leaf.edx, 0);
    }
}

#[test]
fn test_sgx_record_zeroed() {
    let sgx = SgxRecord::new();
    assert_eq!(sgx.present, 0);
    assert_eq!(sgx.max_enclave_32bit, 0);
    assert_eq!(sgx.max_enclave_64bit, 0);
    assert_eq!(sgx.flags, vec![0u8; 14]);
    assert_eq!(sgx.num_epc_sections, 0);
    assert_eq!(sgx.misc_select, 0);
    assert_eq!(sgx.secs_attributes, 0);
    assert_eq!(sgx.secs_xfrm, 0);
}

#[test]
fn test_id_record_zeroed() {
    let rec = IdRecord::new();
    assert_eq!(rec.vendor_str, vec![0u8; 16]);
    assert_eq!(rec.brand_str, vec![0u8; 64]);
    assert_eq!(rec.cpu_codename, vec![0u8; 64]);
    assert_eq!(rec.flags, vec![0u8; 128]);
    assert_eq!(rec.detection_hints, vec![0u8; 16]);
    assert_eq!(rec.vendor, 0);
    assert_eq!(rec.family, 0);
    assert_eq!(rec.model, 0);
    assert_eq!(rec.stepping, 0);
    assert_eq!(rec.ext_family, 0);
    assert_eq!(rec.ext_model, 0);
    assert_eq!(rec.num_cores, 0);
    assert_eq!(rec.num_logical_cpus, 0);
    assert_eq!(rec.total_logical_cpus, 0);
    assert_eq!(rec.l1_data_cache, 0);
    assert_eq!(rec.l1_instruction_cache, 0);
    assert_eq!(rec.l2_cache, 0);
    assert_eq!(rec.l3_cache, 0);
    assert_eq!(rec.l4_cache, 0);
    assert_eq!(rec.l1_assoc, 0);
    assert_eq!(rec.l2_assoc, 0);
    assert_eq!(rec.l3_assoc, 0);
    assert_eq!(rec.l4_assoc, 0);
    assert_eq!(rec.l1_cacheline, 0);
    assert_eq!(rec.l2_cacheline, 0);
    assert_eq!(rec.l3_cacheline, 0);
    assert_eq!(rec.l4_cacheline, 0);
    assert_eq!(rec.sse_size, 0);
    assert_eq!(rec.sgx.flags, vec![0u8; 14]);
}
