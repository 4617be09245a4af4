use flowmon::tcp_options::{parse_options, TcpOption, TcpSackRange, TcpTimestamp};

#[test]
fn window_scale_then_oversized_sack_stops() {
    let bytes = [3u8, 3, 9, 5, 18, 0, 0, 0, 1, 0, 0, 0, 2];
    let r = parse_options(&bytes);
    assert_eq!(r.options, vec![TcpOption::WindowScale { scale: 9 }]);
    assert!(r.sack_ranges.is_empty());
}

#[test]
fn decodes_each_kind() {
    let bytes = [
        2u8, 4, 0x05, 0xb4, 1, 4, 2, 8, 10, 0, 0, 0, 7, 0, 0, 0, 9, 3, 3, 2, 5, 10, 0, 0, 0, 1, 0,
        0, 0, 2, 0, 1,
    ];
    let r = parse_options(&bytes);
    assert_eq!(
        r.options,
        vec![
            TcpOption::MSS { mss: 1460 },
            TcpOption::SackPermitted,
            TcpOption::Timestamp { stamp: TcpTimestamp::new(7, 9) },
            TcpOption::WindowScale { scale: 2 },
            TcpOption::Sack { blocks: 1 },
        ]
    );
    assert_eq!(r.sack_ranges, vec![TcpSackRange::new(1, 2)]);
    assert_eq!(r.window_scale(), 2);
    assert_eq!(r.sack_ranges[0].start(), 1);
    assert_eq!(r.sack_ranges[0].end(), 2);
}

#[test]
fn unknown_kind_is_skipped_by_length() {
    let r = parse_options(&[30u8, 4, 0xff, 0xff, 3, 3, 1]);
    assert_eq!(r.options, vec![TcpOption::WindowScale { scale: 1 }]);
    let stuck = parse_options(&[30u8, 0, 3, 3, 1]);
    assert!(stuck.options.is_empty());
}

#[test]
fn end_of_list_stops() {
    let r = parse_options(&[4u8, 2, 0, 3, 3, 1]);
    assert_eq!(r.options, vec![TcpOption::SackPermitted]);
}

#[test]
fn every_truncation_is_a_prefix() {
    let bytes = [
        2u8, 4, 0x05, 0xb4, 3, 3, 2, 4, 2, 8, 10, 0, 0, 0, 7, 0, 0, 0, 9, 5, 18, 0, 0, 0, 1, 0, 0,
        0, 2, 0, 0, 0, 3, 0, 0, 0, 4,
    ];
    let full = parse_options(&bytes);
    for n in 0..=bytes.len() {
        let part = parse_options(&bytes[..n]);
        assert!(part.options.len() <= full.options.len());
        assert_eq!(part.options[..], full.options[..part.options.len()]);
        assert_eq!(part.sack_ranges[..], full.sack_ranges[..part.sack_ranges.len()]);
    }
}

#[test]
fn parsing_twice_gives_same_result() {
    let bytes = [2u8, 4, 0x05, 0xb4, 8, 10, 0, 0, 0, 7, 0, 0, 0, 9, 3, 3, 14];
    let a = parse_options(&bytes);
    let b = parse_options(&bytes);
    assert_eq!(a.options, b.options);
    assert_eq!(a.sack_ranges, b.sack_ranges);
}

#[test]
fn option_count_is_capped() {
    let bytes = [4u8, 2].repeat(12);
    let r = parse_options(&bytes);
    assert_eq!(r.options.len(), 8);
}

#[test]
fn too_many_sack_blocks_stops() {
    let mut bytes = vec![3u8, 3, 1, 5, 42];
    bytes.extend(vec![0u8; 40]);
    let r = parse_options(&bytes);
    assert_eq!(r.options, vec![TcpOption::WindowScale { scale: 1 }]);
    assert!(r.sack_ranges.is_empty());
}

#[test]
fn wrong_length_byte_stops_decoding() {
    let r = parse_options(&[4u8, 6, 2, 4, 5, 0xb4, 0, 0]);
    assert!(r.options.is_empty());
    let r = parse_options(&[3u8, 3, 1, 2, 3, 0x05, 0xb4]);
    assert_eq!(r.options, vec![TcpOption::WindowScale { scale: 1 }]);
    let r = parse_options(&[8u8, 12, 0, 0, 0, 1, 0, 0, 0, 2, 0, 0]);
    assert!(r.options.is_empty());
    let r = parse_options(&[5u8, 11, 0, 0, 0, 1, 0, 0, 0, 2, 0]);
    assert!(r.options.is_empty());
    assert!(r.sack_ranges.is_empty());
}
