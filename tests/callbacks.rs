use network_mapping::boundary::ConversionError;
use network_mapping::classifier::{classify, eval_packet, PacketSummary};
use network_mapping::report::flag_str;
use network_mapping::resolver::{handle_event, service_report};

#[test]
fn packet_report_carries_all_four_attributes() {
    let line = eval_packet(true, true, true, b"tcp\0").unwrap();
    assert_eq!(line, "machinery in place true, true, true tcp");
}

#[test]
fn packet_report_with_false_flags() {
    let line = eval_packet(false, true, false, b"udp\0").unwrap();
    assert_eq!(line, "machinery in place false, true, false udp");
}

#[test]
fn classify_keeps_attributes_unmodified() {
    let summary = classify(true, false, true, b"tcp\0").unwrap();
    assert!(summary.client_orig);
    assert!(!summary.has_ip);
    assert!(summary.tcp);
    assert_eq!(summary.of_type, "tcp");
}

#[test]
fn summary_report_line() {
    let summary = PacketSummary {
        client_orig: false,
        has_ip: false,
        tcp: false,
        of_type: String::from("icmp"),
    };
    assert_eq!(summary.report(), "machinery in place false, false, false icmp");
}

#[test]
fn identical_packets_report_alike() {
    let first = eval_packet(true, false, true, b"tcp\0first").unwrap();
    let second = eval_packet(true, false, true, b"tcp\0second").unwrap();
    assert_eq!(first, second);
}

#[test]
fn packet_with_bad_type_name_is_an_error() {
    assert_eq!(
        eval_packet(true, true, true, b"t\xffp\0"),
        Err(ConversionError::InvalidEncoding)
    );
    assert!(classify(true, true, true, b"\xff\0").is_err());
}

#[test]
fn packet_with_empty_type_name() {
    let line = eval_packet(true, true, false, b"\0").unwrap();
    assert_eq!(line, "machinery in place true, true, false ");
}

#[test]
fn service_report_holds_name_verbatim() {
    let line = handle_event(b"dns\0").unwrap();
    assert_eq!(line, "service name is dns");
    assert!(line.contains("dns"));
}

#[test]
fn service_report_of_multibyte_name() {
    let mut buf = "r\u{e9}seau".as_bytes().to_vec();
    buf.push(0);
    assert_eq!(handle_event(&buf).unwrap(), "service name is r\u{e9}seau");
}

#[test]
fn service_with_bad_name_is_an_error() {
    assert_eq!(handle_event(b"ht\xc3\0"), Err(ConversionError::InvalidEncoding));
}

#[test]
fn service_report_line() {
    assert_eq!(service_report("tls"), "service name is tls");
}

#[test]
fn flag_texts() {
    assert_eq!(flag_str(true), "true");
    assert_eq!(flag_str(false), "false");
}
