use cluster_node::ident::ulid_string;

#[test]
fn rendering_matches_the_ulid_crate() {
    let values: [u128; 7] = [
        0,
        1,
        31,
        32,
        0x0162f10d3a6f9a79u128,
        1777022799994334943554292515702530303u128,
        u128::MAX,
    ];
    for n in values {
        assert_eq!(ulid_string(n), ulid::Ulid(n).to_string());
    }
}

#[test]
fn zero_renders_as_all_zero_digits() {
    assert_eq!(ulid_string(0), "00000000000000000000000000");
}

#[test]
fn max_value_renders_as_all_top_digits() {
    assert_eq!(ulid_string(u128::MAX), "7ZZZZZZZZZZZZZZZZZZZZZZZZZ");
}

#[test]
fn rendering_round_trips_through_the_ulid_parser() {
    let n: u128 = 0x0162f10d3a6f9a79u128;
    let parsed = ulid::Ulid::from_string(&ulid_string(n)).unwrap();
    assert_eq!(parsed.0, n);
}
