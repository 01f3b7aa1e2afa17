use dns_bench::cli::TestMode;
use dns_bench::dns::{
    random_label, DnsHeader, DnsPacket, DnsQuestion, CLASS_IN, QUERY_FLAGS, RANDOM_LABEL_LEN,
    TYPE_A,
};

#[test]
fn header_of_a_query_has_fixed_fields() {
    let header = DnsHeader::new(0xBEEF);
    assert_eq!(header.id, 0xBEEF);
    assert_eq!(header.flags, 0x0100);
    assert_eq!(header.flags, QUERY_FLAGS);
    assert_eq!(header.questions, 1);
    assert_eq!(header.answers, 0);
    assert_eq!(header.authority, 0);
    assert_eq!(header.additional, 0);
}

#[test]
fn header_is_twelve_big_endian_bytes() {
    let bytes = DnsHeader::new(0x1234).to_bytes();
    assert_eq!(
        &bytes[..],
        &[0x12, 0x34, 0x01, 0x00, 0x00, 0x01, 0x00, 0x00, 0x00, 0x00, 0x00, 0x00]
    );
}

#[test]
fn header_keeps_the_order_of_its_fields() {
    let header = DnsHeader {
        id: 0x0102,
        flags: 0x0304,
        questions: 0x0506,
        answers: 0x0708,
        authority: 0x090A,
        additional: 0x0B0C,
    };
    assert_eq!(&header.to_bytes()[..], &[1, 2, 3, 4, 5, 6, 7, 8, 9, 10, 11, 12]);
}

#[test]
fn header_encodes_extreme_identifiers() {
    assert_eq!(&DnsHeader::new(0).to_bytes()[..2], &[0x00, 0x00]);
    assert_eq!(&DnsHeader::new(0xFFFF).to_bytes()[..2], &[0xFF, 0xFF]);
    assert_eq!(&DnsHeader::new(0x00FF).to_bytes()[..2], &[0x00, 0xFF]);
    assert_eq!(&DnsHeader::new(0xFF00).to_bytes()[..2], &[0xFF, 0x00]);
}

#[test]
fn question_defaults_to_address_record_in_internet_class() {
    let question = DnsQuestion::new("example.com".to_string());
    assert_eq!(question.name, "example.com");
    assert_eq!(question.qtype, 1);
    assert_eq!(question.qclass, 1);
    assert_eq!(TYPE_A, 1);
    assert_eq!(CLASS_IN, 1);
}

#[test]
fn question_for_example_com_has_the_expected_bytes() {
    let bytes = DnsQuestion::new("example.com".to_string()).to_bytes();
    let expected: Vec<u8> = vec![
        0x07, b'e', b'x', b'a', b'm', b'p', b'l', b'e', 0x03, b'c', b'o', b'm', 0x00, 0x00, 0x01,
        0x00, 0x01,
    ];
    assert_eq!(&bytes[..], &expected[..]);
}

#[test]
fn question_of_a_single_label() {
    let bytes = DnsQuestion::new("localhost".to_string()).to_bytes();
    let mut expected: Vec<u8> = vec![9];
    expected.extend_from_slice(b"localhost");
    expected.extend_from_slice(&[0, 0, 1, 0, 1]);
    assert_eq!(&bytes[..], &expected[..]);
}

#[test]
fn question_of_the_empty_name_is_one_empty_label() {
    let bytes = DnsQuestion::new(String::new()).to_bytes();
    assert_eq!(&bytes[..], &[0, 0, 0, 1, 0, 1]);
}

#[test]
fn question_keeps_empty_labels() {
    let trailing = DnsQuestion::new("a.".to_string()).to_bytes();
    assert_eq!(&trailing[..], &[1, b'a', 0, 0, 0, 1, 0, 1]);
    let leading = DnsQuestion::new(".a".to_string()).to_bytes();
    assert_eq!(&leading[..], &[0, 1, b'a', 0, 0, 1, 0, 1]);
    let doubled = DnsQuestion::new("a..b".to_string()).to_bytes();
    assert_eq!(&doubled[..], &[1, b'a', 0, 1, b'b', 0, 0, 1, 0, 1]);
    let only_dot = DnsQuestion::new(".".to_string()).to_bytes();
    assert_eq!(&only_dot[..], &[0, 0, 0, 0, 1, 0, 1]);
}

#[test]
fn question_counts_label_length_in_bytes() {
    let bytes = DnsQuestion::new("é.com".to_string()).to_bytes();
    assert_eq!(&bytes[..], &[2, 0xC3, 0xA9, 3, b'c', b'o', b'm', 0, 0, 1, 0, 1]);
}

#[test]
fn question_length_byte_keeps_the_low_eight_bits() {
    let long = "x".repeat(300);
    let bytes = DnsQuestion::new(format!("{}.com", long)).to_bytes();
    assert_eq!(bytes.len(), 300 + 4 + 6);
    assert_eq!(bytes[0], 44);
    assert!(bytes[1..301].iter().all(|b| *b == b'x'));
    assert_eq!(&bytes[301..], &[3, b'c', b'o', b'm', 0, 0, 1, 0, 1]);

    let exact = "y".repeat(256);
    let bytes = DnsQuestion::new(exact).to_bytes();
    assert_eq!(bytes[0], 0);
    assert_eq!(bytes.len(), 256 + 6);

    let widest = "z".repeat(255);
    let bytes = DnsQuestion::new(widest).to_bytes();
    assert_eq!(bytes[0], 255);
}

#[test]
fn question_is_six_bytes_longer_than_its_name() {
    for name in ["", "a", "a.b", "example.com", "www.example.com.", "...."] {
        let bytes = DnsQuestion::new(name.to_string()).to_bytes();
        assert_eq!(bytes.len(), name.len() + 6);
    }
}

#[test]
fn question_writes_type_and_class_big_endian() {
    let question = DnsQuestion { name: "a".to_string(), qtype: 0x001C, qclass: 0x0304 };
    assert_eq!(&question.to_bytes()[..], &[1, b'a', 0, 0x00, 0x1C, 0x03, 0x04]);
}

#[test]
fn packet_is_header_then_question() {
    let packet = DnsPacket::assemble(
        "example.com".to_string(),
        &TestMode::SameDomain,
        0xABCD,
        String::new(),
    );
    let bytes = packet.to_bytes();
    let mut expected: Vec<u8> = vec![0xAB, 0xCD, 0x01, 0x00, 0x00, 0x01, 0, 0, 0, 0, 0, 0];
    expected.push(7);
    expected.extend_from_slice(b"example");
    expected.push(3);
    expected.extend_from_slice(b"com");
    expected.extend_from_slice(&[0, 0, 1, 0, 1]);
    assert_eq!(&bytes[..], &expected[..]);
    assert_eq!(bytes.len(), "example.com".len() + 18);

    let mut joined: Vec<u8> = packet.header.to_bytes().to_vec();
    joined.extend_from_slice(&packet.question.to_bytes());
    assert_eq!(&bytes[..], &joined[..]);
}

#[test]
fn assemble_in_same_domain_mode_ignores_the_label() {
    let packet = DnsPacket::assemble(
        "example.com".to_string(),
        &TestMode::SameDomain,
        7,
        "abcdefghij".to_string(),
    );
    assert_eq!(packet.question.name, "example.com");
    assert_eq!(packet.header.id, 7);
    assert_eq!(packet.header.flags, 0x0100);
    assert_eq!(packet.header.questions, 1);
    assert_eq!(packet.question.qtype, 1);
    assert_eq!(packet.question.qclass, 1);
}

#[test]
fn assemble_in_random_subdomain_mode_puts_the_label_in_front() {
    let packet = DnsPacket::assemble(
        "example.com".to_string(),
        &TestMode::RandomSubdomain,
        0x0001,
        "aB3dE6gH9j".to_string(),
    );
    assert_eq!(packet.question.name, "aB3dE6gH9j.example.com");
    let bytes = packet.to_bytes();
    let mut expected: Vec<u8> = vec![0, 1, 1, 0, 0, 1, 0, 0, 0, 0, 0, 0, 10];
    expected.extend_from_slice(b"aB3dE6gH9j");
    expected.push(7);
    expected.extend_from_slice(b"example");
    expected.push(3);
    expected.extend_from_slice(b"com");
    expected.extend_from_slice(&[0, 0, 1, 0, 1]);
    assert_eq!(&bytes[..], &expected[..]);
}

#[test]
fn new_packet_in_same_domain_mode_asks_for_the_domain() {
    for _ in 0..50 {
        let packet = DnsPacket::new("example.com".to_string(), &TestMode::SameDomain);
        assert_eq!(packet.question.name, "example.com");
        assert_eq!(packet.header.flags, 0x0100);
        assert_eq!(packet.header.questions, 1);
        assert_eq!(packet.header.answers, 0);
        assert_eq!(packet.header.authority, 0);
        assert_eq!(packet.header.additional, 0);
        assert_eq!(packet.question.qtype, 1);
        assert_eq!(packet.question.qclass, 1);
    }
}

#[test]
fn new_packets_draw_their_identifiers_at_random() {
    let mut seen = std::collections::HashSet::new();
    for _ in 0..200 {
        let packet = DnsPacket::new("example.com".to_string(), &TestMode::SameDomain);
        seen.insert(packet.header.id);
    }
    assert!(seen.len() > 100);
}

#[test]
fn random_subdomain_names_match_the_pattern_and_do_not_repeat() {
    let mut prefixes = std::collections::HashSet::new();
    for _ in 0..1000 {
        let packet = DnsPacket::new("example.com".to_string(), &TestMode::RandomSubdomain);
        let name = packet.question.name;
        assert_eq!(name.len(), 10 + 1 + "example.com".len());
        let (prefix, rest) = name.split_at(10);
        assert!(prefix.chars().all(|c| c.is_ascii_alphanumeric()));
        assert_eq!(rest, ".example.com");
        assert!(prefixes.insert(prefix.to_string()));
    }
    assert_eq!(prefixes.len(), 1000);
}

#[test]
fn random_subdomain_packet_starts_with_a_ten_byte_label() {
    let packet = DnsPacket::new("example.com".to_string(), &TestMode::RandomSubdomain);
    let bytes = packet.to_bytes();
    assert_eq!(bytes.len(), 12 + 1 + 10 + 1 + 7 + 1 + 3 + 1 + 4);
    assert_eq!(bytes[12], 10);
    assert!(bytes[13..23].iter().all(|b| b.is_ascii_alphanumeric()));
    assert_eq!(bytes[23], 7);
    assert_eq!(&bytes[24..31], b"example");
    assert_eq!(&bytes[31..], &[3, b'c', b'o', b'm', 0, 0, 1, 0, 1]);
}

#[test]
fn random_label_is_ten_letters_or_digits() {
    assert_eq!(RANDOM_LABEL_LEN, 10);
    let mut seen = std::collections::HashSet::new();
    for _ in 0..200 {
        let label = random_label();
        assert_eq!(label.len(), 10);
        assert_eq!(label.chars().count(), 10);
        assert!(label.bytes().all(|b| b.is_ascii_alphanumeric()));
        seen.insert(label);
    }
    assert_eq!(seen.len(), 200);
}

#[test]
fn random_labels_use_digits_and_both_cases() {
    let mut digit = false;
    let mut upper = false;
    let mut lower = false;
    for _ in 0..200 {
        for c in random_label().chars() {
            digit |= c.is_ascii_digit();
            upper |= c.is_ascii_uppercase();
            lower |= c.is_ascii_lowercase();
        }
    }
    assert!(digit && upper && lower);
}

#[test]
fn try_to_bytes_agrees_with_to_bytes() {
    for name in ["", "example.com", "a..b", "www.example.org."] {
        let question = DnsQuestion::new(name.to_string());
        let tried = question.try_to_bytes().unwrap();
        assert_eq!(&tried[..], &question.to_bytes()[..]);

        let packet =
            DnsPacket::assemble(name.to_string(), &TestMode::SameDomain, 0x0A0B, String::new());
        let tried = packet.try_to_bytes().unwrap();
        assert_eq!(&tried[..], &packet.to_bytes()[..]);
        assert_eq!(tried.len(), name.len() + 18);
    }
}
