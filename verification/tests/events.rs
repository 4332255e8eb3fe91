use cp_amm_client::events::{
    strip_discriminator, DISCRIMINATOR_LEN, EVT_CLOSE_CONFIG_EVENT_DISCM,
    EVT_INITIALIZE_POOL_EVENT_DISCM, EVT_SWAP_EVENT_DISCM,
    EVT_WITHDRAW_INELIGIBLE_REWARD_EVENT_DISCM,
};

#[test]
fn tags_are_eight_bytes() {
    assert_eq!(DISCRIMINATOR_LEN, 8);
    assert_eq!(EVT_CLOSE_CONFIG_EVENT_DISCM, [36, 30, 239, 45, 58, 132, 14, 5]);
    assert_eq!(EVT_SWAP_EVENT_DISCM.len(), 8);
    assert_ne!(EVT_SWAP_EVENT_DISCM, EVT_INITIALIZE_POOL_EVENT_DISCM);
}

#[test]
fn tag_is_taken_off_the_front() {
    let mut record = EVT_SWAP_EVENT_DISCM.to_vec();
    record.extend_from_slice(&[1, 2, 3]);
    assert_eq!(strip_discriminator(&record, &EVT_SWAP_EVENT_DISCM), Some(&[1u8, 2, 3][..]));
    let record = EVT_SWAP_EVENT_DISCM.to_vec();
    assert_eq!(strip_discriminator(&record, &EVT_SWAP_EVENT_DISCM), Some(&[][..]));
}

#[test]
fn another_tag_is_refused() {
    let mut record = EVT_SWAP_EVENT_DISCM.to_vec();
    record.extend_from_slice(&[1, 2, 3]);
    assert_eq!(strip_discriminator(&record, &EVT_CLOSE_CONFIG_EVENT_DISCM), None);
    assert_eq!(strip_discriminator(&record, &EVT_WITHDRAW_INELIGIBLE_REWARD_EVENT_DISCM), None);
    // A difference in the last byte is seen too.
    let mut almost = EVT_SWAP_EVENT_DISCM;
    almost[7] ^= 1;
    assert_eq!(strip_discriminator(&almost, &EVT_SWAP_EVENT_DISCM), None);
    almost = EVT_SWAP_EVENT_DISCM;
    almost[0] ^= 0x80;
    assert_eq!(strip_discriminator(&almost, &EVT_SWAP_EVENT_DISCM), None);
}

#[test]
fn short_record_is_refused() {
    assert_eq!(strip_discriminator(&[], &EVT_SWAP_EVENT_DISCM), None);
    assert_eq!(strip_discriminator(&EVT_SWAP_EVENT_DISCM[..7], &EVT_SWAP_EVENT_DISCM), None);
}
