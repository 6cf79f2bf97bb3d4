use brainzbot::addr::slice_to_ip;

#[test]
fn reads_a_plain_address() {
    assert_eq!(slice_to_ip("1.2.3.4"), Ok([1, 2, 3, 4]));
    assert_eq!(slice_to_ip("0.0.0.0"), Ok([0, 0, 0, 0]));
    assert_eq!(slice_to_ip("255.255.255.255"), Ok([255, 255, 255, 255]));
    assert_eq!(slice_to_ip("007.8.9.10"), Ok([7, 8, 9, 10]));
}

#[test]
fn refuses_wrong_segment_counts() {
    assert_eq!(slice_to_ip("1.2.3"), Err("invalid ip address: 1.2.3".to_string()));
    assert_eq!(slice_to_ip("1.2.3.4.5"), Err("invalid ip address: 1.2.3.4.5".to_string()));
    assert_eq!(slice_to_ip(""), Err("invalid ip address: ".to_string()));
    assert_eq!(slice_to_ip("1234"), Err("invalid ip address: 1234".to_string()));
}

#[test]
fn refuses_empty_or_malformed_segments() {
    assert_eq!(slice_to_ip("1..2.3"), Err("invalid ip address: 1..2.3".to_string()));
    assert_eq!(slice_to_ip(".1.2.3"), Err("invalid ip address: .1.2.3".to_string()));
    assert_eq!(slice_to_ip("1.2.3."), Err("invalid ip address: 1.2.3.".to_string()));
    assert_eq!(slice_to_ip("a.b.c.d"), Err("invalid ip address: a.b.c.d".to_string()));
    assert_eq!(slice_to_ip("1.2.3.+4"), Err("invalid ip address: 1.2.3.+4".to_string()));
}

#[test]
fn refuses_out_of_range_segments() {
    assert_eq!(slice_to_ip("256.1.1.1"), Err("invalid ip address: 256.1.1.1".to_string()));
    assert_eq!(slice_to_ip("1.1.1.999"), Err("invalid ip address: 1.1.1.999".to_string()));
}
