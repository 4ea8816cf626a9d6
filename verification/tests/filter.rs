use druns::netfilter::build_bpf_filter;

#[test]
fn test_bpf_filter_empty() {
    let filter = build_bpf_filter(&[]);
    assert_eq!(filter, "false");
}

#[test]
fn test_bpf_filter_single_connection() {
    let connections = vec![(
        "10.0.0.1".to_string(),
        8080u16,
        "93.184.216.34".to_string(),
        443u16,
        "tcp".to_string(),
    )];
    let filter = build_bpf_filter(&connections);
    assert_eq!(
        filter,
        "(tcp and ((src host 10.0.0.1 and src port 8080 and dst host 93.184.216.34 and dst port 443) \
         or (dst host 10.0.0.1 and dst port 8080 and src host 93.184.216.34 and src port 443)))"
    );
}

#[test]
fn test_bpf_filter_joins_with_or() {
    let connections = vec![
        ("10.0.0.1".to_string(), 1u16, "10.0.0.2".to_string(), 2u16, "tcp".to_string()),
        ("10.0.0.3".to_string(), 3u16, "10.0.0.4".to_string(), 4u16, "udp".to_string()),
    ];
    let filter = build_bpf_filter(&connections);
    assert!(filter.contains(") or ("));
    assert!(filter.contains("(tcp and "));
    assert!(filter.contains("(udp and "));
    assert!(filter.contains(" or (udp"));
}
