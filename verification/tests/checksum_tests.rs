use file_transfer::checksum::{checksum, verify};
use file_transfer::echo::EchoProtocol;
use file_transfer::pdu::data_pdu;

#[test]
fn digest_of_hello_is_its_md5() {
    assert_eq!(
        checksum(&b"hello".to_vec()),
        "5d41402abc4b2a76b9719d911017c592"
    );
    assert_eq!(
        checksum(&Vec::new()),
        "d41d8cd98f00b204e9800998ecf8427e"
    );
}

#[test]
fn fresh_data_pdu_verifies() {
    for payload in [b"hello".to_vec(), Vec::new(), vec![0u8, 255, 1, 2, 3]] {
        let p = data_pdu("f".to_string(), payload, 0);
        assert!(verify(&p));
    }
}

#[test]
fn any_flipped_checksum_character_fails() {
    let p = data_pdu("a.txt".to_string(), b"hello".to_vec(), 0);
    assert!(verify(&p));
    let good = p.checksum.clone();
    for i in 0..good.len() {
        let mut q = data_pdu("a.txt".to_string(), b"hello".to_vec(), 0);
        let mut flipped: Vec<char> = good.chars().collect();
        flipped[i] = if flipped[i] == 'x' { 'y' } else { 'x' };
        q.checksum = flipped.into_iter().collect();
        assert!(!verify(&q), "a flip at {i} must be detected");
    }
}

#[test]
fn constructor_sanity() {
    let message = EchoProtocol::new(1, "Hello, world!".to_string());

    assert_eq!(message.mtype, 1);
}

#[test]
fn echo_renders_as_one_line() {
    let message = EchoProtocol::new(205, "Hello, world!".to_string());
    assert_eq!(
        message.to_string(),
        "EchoProtocol { ver: 1, mtype: 205, msg: Hello, world! }"
    );
    let small = EchoProtocol::new(42, String::new());
    assert_eq!(small.to_string(), "EchoProtocol { ver: 1, mtype: 42, msg:  }");
}
