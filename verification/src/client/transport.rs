//! The session of a client, over one of the two transports.

use vstd::prelude::*;
use crate::protocol::{cmd, le32_bytes};
use crate::session::{device_address, BulkKind, Payload, Purpose};
use crate::step::{Event, Step};
use crate::tcp::{TcpModel, ZKTcp};
use crate::udp::{UdpModel, ZKUdp};

verus! {

/// The session with a device, over one of the two transports.
pub enum Transport {
    Tcp(ZKTcp),
    Udp(ZKUdp),
}

/// A `Transport` as plain values.
pub enum TransportModel {
    Tcp(TcpModel),
    Udp(UdpModel),
}

impl View for Transport {
    type V = TransportModel;

    open spec fn view(&self) -> TransportModel {
        match self {
            Transport::Tcp(t) => TransportModel::Tcp(t@),
            Transport::Udp(u) => TransportModel::Udp(u@),
        }
    }
}

/// What `Transport::resume` does: what the transport in use does.
pub open spec fn transport_resumed(
    pre: TransportModel,
    event: Event,
    post: TransportModel,
    step: Step<Payload>,
) -> bool {
    match pre {
        TransportModel::Tcp(a) => post matches TransportModel::Tcp(b) && crate::tcp::resumed(
            a,
            event,
            b,
            step,
        ),
        TransportModel::Udp(a) => post matches TransportModel::Udp(b) && crate::udp::resumed(
            a,
            event,
            b,
            step,
        ),
    }
}

/// A command exchange begins on the transport in use.
pub open spec fn transport_exchange_begins(
    pre: TransportModel,
    command: u16,
    data: Seq<u8>,
    purpose: Purpose,
    post: TransportModel,
    step: Step<Payload>,
) -> bool {
    match pre {
        TransportModel::Tcp(a) => post matches TransportModel::Tcp(b)
            && crate::tcp::exchange_begins(a, command, data, purpose, b, step),
        TransportModel::Udp(a) => post matches TransportModel::Udp(b)
            && crate::udp::exchange_begins(a, command, data, purpose, b, step),
    }
}

/// A bulk read for rows begins on the transport in use.
pub open spec fn transport_rows_begin(
    pre: TransportModel,
    kind: BulkKind,
    post: TransportModel,
    step: Step<Payload>,
) -> bool {
    match pre {
        TransportModel::Tcp(a) => post matches TransportModel::Tcp(b)
            && crate::tcp::exchange_begins(
            crate::tcp::with_kind(a, kind),
            cmd::CMD_FREE_DATA,
            Seq::empty(),
            Purpose::FreeBefore,
            b,
            step,
        ),
        TransportModel::Udp(a) => post matches TransportModel::Udp(b)
            && crate::udp::exchange_begins(
            crate::udp::with_kind(a, kind),
            cmd::CMD_FREE_DATA,
            Seq::empty(),
            Purpose::FreeBefore,
            b,
            step,
        ),
    }
}

/// The session begins to close on the transport in use.
pub open spec fn transport_disconnect_begins(
    pre: TransportModel,
    post: TransportModel,
    step: Step<Payload>,
) -> bool {
    match pre {
        TransportModel::Tcp(a) => post matches TransportModel::Tcp(b)
            && crate::tcp::disconnect_begins(a, b, step),
        TransportModel::Udp(a) => post matches TransportModel::Udp(b)
            && crate::udp::disconnect_begins(a, b, step),
    }
}

/// The address of the device that the transport talks to.
pub open spec fn transport_address(t: TransportModel) -> Seq<char> {
    match t {
        TransportModel::Tcp(a) => device_address(a.ip, a.port),
        TransportModel::Udp(a) => device_address(a.ip, a.port),
    }
}

impl Transport {
    /// Resumes the operation in flight on the transport in use.
    pub fn resume(&mut self, event: Event) -> (step: Step<Payload>)
        ensures
            transport_resumed(old(self)@, event, final(self)@, step),
    {
        match self {
            Transport::Tcp(t) => t.resume(event),
            Transport::Udp(u) => u.resume(event),
        }
    }

    /// Starts the authentication with a communication key.
    pub fn auth(&mut self, comm_key: u32) -> (step: Step<Payload>)
        ensures
            transport_exchange_begins(
                old(self)@,
                cmd::CMD_AUTH,
                le32_bytes(comm_key as int),
                Purpose::Auth,
                final(self)@,
                step,
            ),
    {
        match self {
            Transport::Tcp(t) => t.auth(comm_key),
            Transport::Udp(u) => u.auth(comm_key),
        }
    }

    /// Starts asking for the counts of users and attendance records.
    pub fn get_info(&mut self) -> (step: Step<Payload>)
        ensures
            transport_exchange_begins(
                old(self)@,
                cmd::CMD_GET_FREE_SIZES,
                Seq::empty(),
                Purpose::Info,
                final(self)@,
                step,
            ),
    {
        match self {
            Transport::Tcp(t) => t.get_info(),
            Transport::Udp(u) => u.get_info(),
        }
    }

    /// Starts reading the user table.
    pub fn get_users(&mut self) -> (step: Step<Payload>)
        ensures
            transport_rows_begin(old(self)@, BulkKind::Users, final(self)@, step),
    {
        match self {
            Transport::Tcp(t) => t.get_users(),
            Transport::Udp(u) => u.get_users(),
        }
    }

    /// Starts reading the attendance log.
    pub fn get_attendances(&mut self) -> (step: Step<Payload>)
        ensures
            transport_rows_begin(old(self)@, BulkKind::Attendances, final(self)@, step),
    {
        match self {
            Transport::Tcp(t) => t.get_attendances(),
            Transport::Udp(u) => u.get_attendances(),
        }
    }

    /// Starts closing the session.
    pub fn disconnect(&mut self) -> (step: Step<Payload>)
        ensures
            transport_disconnect_begins(old(self)@, final(self)@, step),
    {
        match self {
            Transport::Tcp(t) => t.disconnect(),
            Transport::Udp(u) => u.disconnect(),
        }
    }

    /// The address `ip:port` of the device.
    pub fn address(&self) -> (address: String)
        ensures
            address@ == transport_address(self@),
    {
        match self {
            Transport::Tcp(t) => t.address(),
            Transport::Udp(u) => u.address(),
        }
    }
}

} // verus!
