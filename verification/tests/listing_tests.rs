use solstyle_program::create_drop;
use solstyle_program::ErrorCode;

#[test]
fn create_drop_accepts_every_rate_up_to_full() {
    for bps in [0u16, 1, 250, 500, 9999, 10000] {
        let r = create_drop(11, 5_000, bps, String::from("ipfs://listing"));
        let d = r.expect("rate within bounds must be accepted");
        assert_eq!(d.seller, 11);
        assert_eq!(d.price, 5_000);
        assert_eq!(d.commission_bps, bps);
        assert_eq!(d.metadata_uri, "ipfs://listing");
    }
}

#[test]
fn create_drop_rejects_rate_above_full() {
    for bps in [10001u16, 20000, u16::MAX] {
        let r = create_drop(11, 5_000, bps, String::from("ipfs://listing"));
        assert_eq!(r.unwrap_err(), ErrorCode::InvalidCommissionBps);
    }
}

#[test]
fn create_drop_takes_a_longest_uri() {
    let uri: String = "u".repeat(200);
    let d = create_drop(1, 1, 0, uri.clone()).expect("200-character uri fits the record");
    assert_eq!(d.metadata_uri, uri);
}

#[test]
fn create_drop_accepts_zero_price() {
    let d = create_drop(9, 0, 500, String::new()).expect("zero price is not rejected");
    assert_eq!(d.price, 0);
    assert_eq!(d.metadata_uri, "");
}
