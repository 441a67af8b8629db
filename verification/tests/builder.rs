use titan::{Error, InterfaceBuilder, Mode};

#[test]
fn new_has_documented_defaults() {
    let b = InterfaceBuilder::new(Mode::Tun);
    assert!(b.packet_info());
    let plan = b.blocking().unwrap();
    assert_eq!(plan.flags, 0x0001);
    assert_eq!(plan.mtu, 1420);
    assert!(!plan.nonblocking);
    assert_eq!(plan.name.raw().as_slice(), &[0u8; 16]);
}

#[test]
fn setters_update_the_configuration() {
    let b = InterfaceBuilder::new(Mode::Tap)
        .mtu(1500)
        .with_name("tap3")
        .with_packet_info(false);
    assert!(!b.packet_info());
    let plan = b.nonblocking().unwrap();
    assert_eq!(plan.mtu, 1500);
    assert!(plan.nonblocking);
    assert_eq!(plan.name.name_str(), "tap3");
}

#[test]
fn unnamed_clears_the_name() {
    let plan = InterfaceBuilder::new(Mode::Tun)
        .with_name("foo")
        .unnamed()
        .blocking()
        .unwrap();
    assert_eq!(plan.name.raw().as_slice(), &[0u8; 16]);
}

#[test]
fn creation_flags_follow_mode_and_packet_info() {
    let tun = InterfaceBuilder::new(Mode::Tun).blocking().unwrap();
    assert_eq!(tun.flags, 0x0001);
    let tun_no_pi = InterfaceBuilder::new(Mode::Tun)
        .with_packet_info(false)
        .blocking()
        .unwrap();
    assert_eq!(tun_no_pi.flags, 0x1001);
    let tap = InterfaceBuilder::new(Mode::Tap).blocking().unwrap();
    assert_eq!(tap.flags, 0x0002);
    let tap_no_pi = InterfaceBuilder::new(Mode::Tap)
        .with_packet_info(false)
        .blocking()
        .unwrap();
    assert_eq!(tap_no_pi.flags, 0x1002);
}

#[test]
fn valid_names_are_accepted_and_kept() {
    for name in ["a", "foo", "tun0", "A0b1C2d3E4f5G6h"] {
        let plan = InterfaceBuilder::new(Mode::Tun)
            .with_name(name)
            .blocking()
            .unwrap();
        assert_eq!(plan.name.name_str(), name);
        let raw = plan.name.raw();
        assert_eq!(raw.len(), 16);
        assert_eq!(&raw[..name.len()], name.as_bytes());
        assert!(raw[name.len()..].iter().all(|&b| b == 0));
    }
}

#[test]
fn longest_valid_name_is_fifteen_bytes() {
    let name = "abcdefghijklmno";
    assert_eq!(name.len(), 15);
    let plan = InterfaceBuilder::new(Mode::Tun)
        .with_name(name)
        .nonblocking()
        .unwrap();
    assert_eq!(plan.name.name_str(), name);
}

#[test]
fn too_long_names_are_rejected() {
    for name in ["abcdefghijklmnop", "abcdefghijklmnopq", "0123456789abcdefgh"] {
        assert!(name.len() >= 16);
        let r = InterfaceBuilder::new(Mode::Tun).with_name(name).blocking();
        assert_eq!(r.unwrap_err(), Error::InvalidName);
    }
}

#[test]
fn non_alphanumeric_names_are_rejected() {
    for name in ["foo!", "tun-0", "a b", "tun.0", "füh", "名前", "x\u{0}y"] {
        let r = InterfaceBuilder::new(Mode::Tap).with_name(name).nonblocking();
        assert_eq!(r.unwrap_err(), Error::InvalidName);
    }
}

#[test]
fn empty_name_is_rejected() {
    let r = InterfaceBuilder::new(Mode::Tun).with_name("").blocking();
    assert_eq!(r.unwrap_err(), Error::InvalidName);
}
