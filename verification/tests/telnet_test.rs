use pcmanx_rs::connection::session::{split_host_port, AddressError};
use pcmanx_rs::connection::telnet::{filter_telnet, naws_size, naws_will, TC_DO, TC_IAC, TC_SB, TC_SE, TO_NAWS};

#[test]
fn plain_bytes_pass_through() {
    let r = filter_telnet(b"hello");
    assert_eq!(r.data, b"hello");
    assert!(r.rest.is_empty());
    assert_eq!(r.naws_requests, 0);
}

#[test]
fn doubled_iac_is_one_data_byte() {
    let r = filter_telnet(&[0x41, TC_IAC, TC_IAC, 0x42]);
    assert_eq!(r.data, vec![0x41, 0xff, 0x42]);
}

#[test]
fn negotiation_is_removed_and_naws_counted() {
    let r = filter_telnet(&[TC_IAC, 251, 1, 0x61, TC_IAC, TC_DO, TO_NAWS, 0x62, TC_IAC, 241, TC_IAC, 249]);
    assert_eq!(r.data, b"ab");
    assert_eq!(r.naws_requests, 1);
    assert!(r.rest.is_empty());
}

#[test]
fn subnegotiation_is_skipped() {
    let r = filter_telnet(&[0x61, TC_IAC, TC_SB, 24, 1, TC_IAC, TC_SE, 0x62]);
    assert_eq!(r.data, b"ab");
    assert!(r.rest.is_empty());
}

#[test]
fn cut_off_commands_are_kept_for_later() {
    let r = filter_telnet(&[0x61, TC_IAC]);
    assert_eq!(r.data, b"a");
    assert_eq!(r.rest, vec![TC_IAC]);
    let r = filter_telnet(&[0x61, TC_IAC, TC_DO]);
    assert_eq!(r.rest, vec![TC_IAC, TC_DO]);
    let r = filter_telnet(&[0x61, TC_IAC, TC_SB]);
    assert_eq!(r.rest, vec![TC_IAC, TC_SB]);
    let r = filter_telnet(&[0x61, TC_IAC, TC_SB, 24, 1, 2]);
    assert_eq!(r.data, b"a");
    assert_eq!(r.rest, vec![24, 1, 2]);
}

#[test]
fn naws_frames() {
    assert_eq!(naws_will(), vec![TC_IAC, 251, TO_NAWS]);
    assert_eq!(naws_size(80, 24), vec![TC_IAC, TC_SB, TO_NAWS, 0, 80, 0, 24, TC_IAC, TC_SE]);
    assert_eq!(naws_size(0x1234, 0x0102), vec![TC_IAC, TC_SB, TO_NAWS, 0x12, 0x34, 0x01, 0x02, TC_IAC, TC_SE]);
}

#[test]
fn host_and_port_split_at_last_colon() {
    assert_eq!(split_host_port("ptt.cc:23"), Ok(("ptt.cc".to_string(), 23)));
    assert_eq!(split_host_port("bbs.example.com"), Ok(("bbs.example.com".to_string(), 23)));
    assert_eq!(split_host_port("a:b:2323"), Ok(("a:b".to_string(), 2323)));
    assert_eq!(split_host_port("host:+80"), Ok(("host".to_string(), 80)));
    assert_eq!(split_host_port("host:0065535"), Ok(("host".to_string(), 65535)));
}

#[test]
fn bad_ports_are_refused() {
    assert_eq!(split_host_port("host:"), Err(AddressError::InvalidPort));
    assert_eq!(split_host_port("host:65536"), Err(AddressError::InvalidPort));
    assert_eq!(split_host_port("host:-1"), Err(AddressError::InvalidPort));
    assert_eq!(split_host_port("host:+"), Err(AddressError::InvalidPort));
    assert_eq!(split_host_port("host:8o"), Err(AddressError::InvalidPort));
    assert_eq!(split_host_port("host:99999999999"), Err(AddressError::InvalidPort));
}

#[test]
fn escaped_data_reads_back() {
    let data = vec![0xff, 0x01, 0xff, 0xff, 0x02];
    let mut escaped = Vec::new();
    for b in &data {
        escaped.push(*b);
        if *b == TC_IAC {
            escaped.push(TC_IAC);
        }
    }
    let r = filter_telnet(&escaped);
    assert_eq!(r.data, data);
    assert!(r.rest.is_empty());
    assert_eq!(r.naws_requests, 0);
}

#[test]
fn split_reads_give_the_same_data() {
    let whole: Vec<u8> = vec![0x61, TC_IAC, TC_DO, TO_NAWS, 0x62, TC_IAC, TC_IAC, 0x63, TC_IAC, TC_SB, 1, TC_IAC, TC_SE, 0x64];
    let all = filter_telnet(&whole);
    for split in 0..=whole.len() {
        let (a, b) = whole.split_at(split);
        let first = filter_telnet(a);
        let mut joined = first.rest.clone();
        joined.extend_from_slice(b);
        let second = filter_telnet(&joined);
        let mut data = first.data.clone();
        data.extend_from_slice(&second.data);
        if first.rest.len() <= 2 {
            assert_eq!(data, all.data, "split at {split}");
            assert_eq!(first.naws_requests + second.naws_requests, all.naws_requests);
            assert_eq!(second.rest, all.rest);
        }
    }
}
