//! End-to-end walk through the model: configure, create a nonblocking plan,
//! bring the interface up, assign an address, add a route, then read one
//! packet through the readiness protocol.

use titan::readiness::{Operation, Phase, Step, SyscallOutcome};
use titan::requests::{assign_v4_request, route_v4_request, up_request};
use titan::{InterfaceBuilder, Mode};

#[test]
fn configure_create_and_read_one_packet() {
    let plan = InterfaceBuilder::new(Mode::Tun)
        .with_name("foo")
        .mtu(1420)
        .nonblocking()
        .unwrap();
    assert!(plan.nonblocking);
    assert_eq!(plan.flags, 0x0001);
    assert_eq!(plan.mtu, 1420);
    assert_eq!(plan.name.name_str(), "foo");

    let assign = assign_v4_request(&plan.name, u32::from_be_bytes([192, 0, 2, 1]), 24).unwrap();
    assert_eq!(assign.addr, u32::from_be_bytes([192, 0, 2, 1]));
    assert_eq!(assign.netmask.to_be_bytes(), [255, 255, 255, 0]);

    let up = up_request(&plan.name);
    assert_eq!(up.flags, 0x0001);
    assert_eq!(up.name.name_str(), "foo");

    let route = route_v4_request(&plan.name, u32::from_be_bytes([10, 200, 200, 0]), 24, 2).unwrap();
    assert_eq!(route.dest, u32::from_be_bytes([10, 200, 200, 0]));
    assert_eq!(route.genmask.to_be_bytes(), [255, 255, 255, 0]);
    assert_eq!(route.metric, 2);

    // The read suspends until a packet arrives: two spurious wakeups park it
    // again; the injected 84-byte packet then completes it with its exact
    // length.
    let mut read = Operation::new();
    assert_eq!(read.phase, Phase::Suspended);
    for _ in 0..2 {
        read.wake();
        assert_eq!(read.observe(SyscallOutcome::WouldBlock), Step::Park);
        assert_eq!(read.phase, Phase::Suspended);
    }
    read.wake();
    let packet_len: usize = 84;
    assert_eq!(
        read.observe(SyscallOutcome::Transferred(packet_len)),
        Step::Complete(84)
    );
}
