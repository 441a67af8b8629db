//! TUN/TAP virtual network interfaces: configuration, control-plane request
//! construction, and the readiness-driven nonblocking I/O protocol.
//!
//! The library decides and validates everything that can be settled without
//! touching the operating system: interface names, creation plans, control
//! requests (flags, MTU, address, netmask, route), the netmask arithmetic,
//! the suspend/resume protocol of the nonblocking path, and the shared
//! ownership accounting that closes the descriptor exactly once. A thin
//! unverified shell executes the plans and requests against the kernel and
//! drives the protocol from an asynchronous runtime.

mod error;

pub mod ifname;
pub mod lifecycle;
pub mod readiness;
pub mod requests;

pub use error::Error;
pub use error::io_result;

use vstd::prelude::*;
use crate::ifname::{IfName, to_ifr_name, valid_name, ascii_bytes, pad16};
use crate::requests::creation_flags;

verus! {

/// Interface mode: determines the framing of packets exchanged with the
/// kernel and is OR'd into the creation request.
#[derive(Debug, Clone, Copy, PartialEq, Eq, Structural, Hash)]
pub enum Mode {
    /// Tun interface, for IP packets.
    Tun,
    /// Tap interface, for Ethernet frames.
    Tap,
}

/// Everything the creation sequence needs: the validated name buffer and
/// flag word of the creation request, the MTU to configure afterwards, and
/// whether the descriptor is to be switched to nonblocking and registered
/// with the readiness facility.
#[derive(Debug)]
pub struct CreatePlan {
    /// The name buffer of the creation request: the validated requested
    /// name, or an all-NUL template for a kernel-assigned name.
    pub name: IfName,
    /// The creation request's flag word.
    pub flags: i16,
    /// The MTU for the follow-up "set MTU" request.
    pub mtu: u16,
    /// Whether the descriptor is to be made nonblocking.
    pub nonblocking: bool,
}

/// The name buffer a configuration asks for: the padded name, or the all-NUL
/// template when the kernel is to assign one.
pub open spec fn spec_name_buf(name: Option<&str>) -> Seq<u8> {
    match name {
        Some(s) => pad16(ascii_bytes(s@)),
        None => pad16(Seq::<u8>::empty()),
    }
}

/// A configuration with this name is accepted: no name, or a valid one.
pub open spec fn name_accepted(name: Option<&str>) -> bool {
    match name {
        Some(s) => valid_name(s@),
        None => true,
    }
}

/// Builder for the interface.
pub struct InterfaceBuilder<'a> {
    /// The requested name; the kernel assigns one when absent.
    pub name: Option<&'a str>,
    /// The interface mode.
    pub mode: Mode,
    /// Whether packet metadata is prepended to each packet.
    pub packet_info: bool,
    /// The MTU to configure.
    pub mtu: u16,
}

/// The plan a builder's creation produces, element by element.
pub open spec fn plan_for(p: CreatePlan, b: InterfaceBuilder, nonblocking: bool) -> bool {
    &&& p.name.wf()
    &&& p.name@ == spec_name_buf(b.name)
    &&& p.flags == creation_flags(b.mode, b.packet_info)
    &&& p.mtu == b.mtu
    &&& p.nonblocking == nonblocking
}

impl<'a> InterfaceBuilder<'a> {
    /// Creates a new interface builder. Default values are: packet_info
    /// `true`, name `None` (kernel-assigned), MTU 1420.
    pub fn new(mode: Mode) -> (r: Self)
        ensures
            r.name is None,
            r.mode == mode,
            r.packet_info == true,
            r.mtu == 1420,
    {
        Self { packet_info: true, name: None, mode, mtu: 1420 }
    }

    /// Sets the MTU for the interface; the default value is 1420.
    pub fn mtu(self, mtu: u16) -> (r: Self)
        ensures
            r.mtu == mtu,
            r.name == self.name,
            r.mode == self.mode,
            r.packet_info == self.packet_info,
    {
        Self { mtu, ..self }
    }

    /// Clears the name of the interface.
    pub fn unnamed(self) -> (r: Self)
        ensures
            r.name is None,
            r.mode == self.mode,
            r.packet_info == self.packet_info,
            r.mtu == self.mtu,
    {
        Self { name: None, ..self }
    }

    /// Sets the name for the interface.
    pub fn with_name(self, name: &'a str) -> (r: Self)
        ensures
            r.name == Some(name),
            r.mode == self.mode,
            r.packet_info == self.packet_info,
            r.mtu == self.mtu,
    {
        Self { name: Some(name), ..self }
    }

    /// Returns whether packet info is to be included.
    pub fn packet_info(&self) -> (r: bool)
        ensures
            r == self.packet_info,
    {
        self.packet_info
    }

    /// Changes whether packet info is to be included.
    pub fn with_packet_info(self, packet_info: bool) -> (r: Self)
        ensures
            r.packet_info == packet_info,
            r.name == self.name,
            r.mode == self.mode,
            r.mtu == self.mtu,
    {
        Self { packet_info, ..self }
    }

    /// Validates the configuration and lays out the creation sequence of a
    /// blocking interface. An invalid name is rejected before any OS
    /// resource is touched.
    pub fn blocking(self) -> (r: Result<CreatePlan, Error>)
        ensures
            match r {
                Ok(p) => name_accepted(self.name) && plan_for(p, self, false),
                Err(e) => e == Error::InvalidName && !name_accepted(self.name),
            },
    {
        self.plan(false)
    }

    /// Validates the configuration and lays out the creation sequence of a
    /// nonblocking interface. An invalid name is rejected before any OS
    /// resource is touched.
    pub fn nonblocking(self) -> (r: Result<CreatePlan, Error>)
        ensures
            match r {
                Ok(p) => name_accepted(self.name) && plan_for(p, self, true),
                Err(e) => e == Error::InvalidName && !name_accepted(self.name),
            },
    {
        self.plan(true)
    }

    /// The shared creation sequence: name validation, then the request
    /// payload.
    fn plan(self, nonblocking: bool) -> (r: Result<CreatePlan, Error>)
        ensures
            match r {
                Ok(p) => name_accepted(self.name) && plan_for(p, self, nonblocking),
                Err(e) => e == Error::InvalidName && !name_accepted(self.name),
            },
    {
        let name = match to_ifr_name(self.name) {
            Ok(name) => name,
            Err(e) => {
                return Err(e);
            },
        };
        let base = match self.mode {
            Mode::Tun => requests::IFF_TUN,
            Mode::Tap => requests::IFF_TAP,
        };
        let flags: i16 = if self.packet_info {
            base
        } else {
            base + requests::IFF_NO_PI
        };
        Ok(CreatePlan { name, flags, mtu: self.mtu, nonblocking })
    }
}

} // verus!
