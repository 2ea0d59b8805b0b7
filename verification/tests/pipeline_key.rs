use billboard_render::pipeline::BillboardPipelineKey;

#[test]
fn msaa_round_trip_all_supported_counts() {
    for samples in [1u32, 2, 4, 8, 16, 32, 64, 128] {
        let key = BillboardPipelineKey::from_msaa_samples(samples);
        assert_eq!(key.msaa_samples(), samples);
    }
}

#[test]
fn msaa_one_sample_encodes_as_zero_bits() {
    let key = BillboardPipelineKey::from_msaa_samples(1);
    assert_eq!(key.bits, 0);
    assert_eq!(key.msaa_samples(), 1);
}

#[test]
fn msaa_four_samples_sets_top_bits() {
    let key = BillboardPipelineKey::from_msaa_samples(4);
    assert_eq!(key.bits, 2 << 29);
    assert_eq!(key.msaa_samples(), 4);
}

#[test]
fn feature_flags_do_not_perturb_msaa_field() {
    let mut key = BillboardPipelineKey::from_msaa_samples(8);
    key.insert(BillboardPipelineKey::DEPTH);
    key.insert(BillboardPipelineKey::LOCK_Y);
    key.insert(BillboardPipelineKey::LOCK_ROTATION);
    key.insert(BillboardPipelineKey::HDR);
    assert_eq!(key.msaa_samples(), 8);
    assert!(key.contains(BillboardPipelineKey::DEPTH));
    assert!(key.contains(BillboardPipelineKey::LOCK_Y));
    assert!(key.contains(BillboardPipelineKey::LOCK_ROTATION));
    assert!(key.contains(BillboardPipelineKey::HDR));
}

#[test]
fn msaa_field_does_not_perturb_feature_flags() {
    let mut key = BillboardPipelineKey::empty();
    key.insert(BillboardPipelineKey::DEPTH);
    key.insert(BillboardPipelineKey::HDR);
    let msaa = BillboardPipelineKey::from_msaa_samples(16);
    let mut combined = key;
    combined.insert(msaa.bits);
    assert!(combined.contains(BillboardPipelineKey::DEPTH));
    assert!(combined.contains(BillboardPipelineKey::HDR));
    assert!(!combined.contains(BillboardPipelineKey::LOCK_Y));
    assert_eq!(combined.msaa_samples(), 16);
}

#[test]
fn flag_values_are_distinct_low_bits() {
    assert_eq!(BillboardPipelineKey::TEXT, 0);
    assert_eq!(BillboardPipelineKey::TEXTURE, 1);
    assert_eq!(BillboardPipelineKey::DEPTH, 2);
    assert_eq!(BillboardPipelineKey::LOCK_Y, 4);
    assert_eq!(BillboardPipelineKey::LOCK_ROTATION, 8);
    assert_eq!(BillboardPipelineKey::HDR, 16);
    assert_eq!(BillboardPipelineKey::MSAA_RESERVED_BITS, 0b111 << 29);
}

#[test]
fn contains_checks_all_given_bits() {
    let key = BillboardPipelineKey::from_bits(
        BillboardPipelineKey::DEPTH | BillboardPipelineKey::HDR,
    );
    assert!(key.contains(BillboardPipelineKey::DEPTH));
    assert!(key.contains(BillboardPipelineKey::DEPTH | BillboardPipelineKey::HDR));
    assert!(!key.contains(BillboardPipelineKey::DEPTH | BillboardPipelineKey::LOCK_Y));
}
