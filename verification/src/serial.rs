//! What the host decides around the serial link: which ports are the
//! device's, what a reply means, and how long to wait before the next ping.
//! Opening the port, writing and reading are the caller's.
use crate::error::Error;
use crate::model::Config;
use crate::model::ConfigView;
use crate::model::Data;
use crate::model::DataView;
use crate::model::Msg;
use crate::model::Stats;
use crate::otw::OTW;
use crate::wire::parse_frame;
use vstd::prelude::*;

verus! {

/// What the system reports of a USB serial port.
#[derive(Clone, Debug, PartialEq, Eq)]
pub struct UsbPortInfo {
    pub vid: u16,
    pub pid: u16,
    pub serial_number: Option<String>,
}

/// A serial port as the system lists it; `usb` is `None` for a port of
/// another kind.
#[derive(Clone, Debug, PartialEq, Eq)]
pub struct PortInfo {
    pub port_name: String,
    pub usb: Option<UsbPortInfo>,
}

/// A port of the device.
#[derive(Clone, Debug, PartialEq, Eq)]
pub struct PortWithSerialNumber {
    pub port_name: String,
    pub serial_number: Option<String>,
}

impl PortInfo {
    /// The port, where it is a USB port with the given identifiers.
    pub open spec fn device_port(self, vid: u16, pid: u16) -> Option<PortWithSerialNumber> {
        match self.usb {
            Some(usb) => if usb.vid == vid && usb.pid == pid {
                Some(
                    PortWithSerialNumber {
                        port_name: self.port_name,
                        serial_number: usb.serial_number,
                    },
                )
            } else {
                None
            },
            None => None,
        }
    }
}

/// The ports of the device among `ports`, in the order of the listing.
pub open spec fn device_ports(ports: Seq<PortInfo>, vid: u16, pid: u16) -> Seq<
    PortWithSerialNumber,
> {
    ports.filter_map(|p: PortInfo| p.device_port(vid, pid))
}

impl PortWithSerialNumber {
    /// The name of the port, which is how the port is shown.
    pub fn to_string(&self) -> (r: String)
        ensures
            r == self.port_name,
    {
        self.port_name.clone()
    }
}

/// The USB ports with the given vendor and product identifiers, in the order
/// of the listing.
pub fn find_ports(ports: &Vec<PortInfo>, vid: u16, pid: u16) -> (r: Vec<PortWithSerialNumber>)
    ensures
        r@ == device_ports(ports@, vid, pid),
{
    let mut found: Vec<PortWithSerialNumber> = Vec::new();
    let mut i: usize = 0;
    while i < ports.len()
        invariant
            i <= ports@.len(),
            found@ == device_ports(ports@.take(i as int), vid, pid),
        decreases ports@.len() - i,
    {
        let info = &ports[i];
        proof {
            ports@.lemma_filter_map_take_succ(|p: PortInfo| p.device_port(vid, pid), i as int);
        }
        match &info.usb {
            Some(usb) => {
                if usb.vid == vid && usb.pid == pid {
                    let serial_number = match &usb.serial_number {
                        Some(number) => Some(number.clone()),
                        None => None,
                    };
                    found.push(PortWithSerialNumber { port_name: info.port_name.clone(), serial_number });
                }
            },
            None => {},
        }
        i += 1;
    }
    proof {
        assert(ports@.take(ports@.len() as int) =~= ports@);
    }
    found
}

/// Why a reply gave no value.
#[derive(Debug, Copy, Clone, PartialEq, Eq, Structural)]
pub enum ReplyError {
    /// No byte was read from the port.
    NoBytes,
    /// The bytes read are no frame.
    Codec(Error),
    /// The frame carries data of another kind than was asked for.
    WrongData,
}

/// The frame of a reply. `read` is the number of bytes that the port gave,
/// `bytes` the whole buffer that they were read into.
pub open spec fn reply_frame(read: usize, bytes: Seq<u8>) -> Result<(Msg, DataView), ReplyError> {
    if read == 0 {
        Err(ReplyError::NoBytes)
    } else {
        match parse_frame(bytes) {
            Some(frame) => Ok(frame),
            None => Err(ReplyError::Codec(Error::Deserialize)),
        }
    }
}

/// The number that a reply to a ping carries.
pub open spec fn reply_pong(read: usize, bytes: Seq<u8>) -> Result<u32, ReplyError> {
    match reply_frame(read, bytes) {
        Ok((_, DataView::Pong(n))) => Ok(n),
        Ok(_) => Err(ReplyError::WrongData),
        Err(e) => Err(e),
    }
}

/// The snapshot that a reply carries.
pub open spec fn reply_stats(read: usize, bytes: Seq<u8>) -> Result<Stats, ReplyError> {
    match reply_frame(read, bytes) {
        Ok((_, DataView::Stats(t))) => Ok(t),
        Ok(_) => Err(ReplyError::WrongData),
        Err(e) => Err(e),
    }
}

/// The configuration that a reply carries.
pub open spec fn reply_config(read: usize, bytes: Seq<u8>) -> Result<ConfigView, ReplyError> {
    match reply_frame(read, bytes) {
        Ok((_, DataView::Config(c))) => Ok(c),
        Ok(_) => Err(ReplyError::WrongData),
        Err(e) => Err(e),
    }
}

/// Reads the frame of a reply from the buffer, after `read` bytes came in.
pub fn read_reply(read: usize, buffer: &[u8]) -> (r: Result<OTW, ReplyError>)
    ensures
        match r {
            Ok(otw) => reply_frame(read, buffer@) == Ok::<(Msg, DataView), ReplyError>(otw@),
            Err(e) => reply_frame(read, buffer@) == Err::<(Msg, DataView), ReplyError>(e),
        },
{
    if read == 0 {
        return Err(ReplyError::NoBytes);
    }
    match OTW::from_bytes(buffer) {
        Ok(otw) => Ok(otw),
        Err(e) => Err(ReplyError::Codec(e)),
    }
}

/// The number that the device answered to a ping: the seconds after which it
/// goes to standby.
pub fn read_pong(read: usize, buffer: &[u8]) -> (r: Result<u32, ReplyError>)
    ensures
        r == reply_pong(read, buffer@),
{
    match read_reply(read, buffer)?.data {
        Data::Pong(n) => Ok(n),
        _ => Err(ReplyError::WrongData),
    }
}

/// The snapshot that the device answered.
pub fn read_stats(read: usize, buffer: &[u8]) -> (r: Result<Stats, ReplyError>)
    ensures
        r == reply_stats(read, buffer@),
{
    match read_reply(read, buffer)?.data {
        Data::Stats(t) => Ok(t),
        _ => Err(ReplyError::WrongData),
    }
}

/// The configuration that the device answered.
pub fn read_config(read: usize, buffer: &[u8]) -> (r: Result<Config, ReplyError>)
    ensures
        match r {
            Ok(c) => reply_config(read, buffer@) == Ok::<ConfigView, ReplyError>(c@),
            Err(e) => reply_config(read, buffer@) == Err::<ConfigView, ReplyError>(e),
        },
{
    match read_reply(read, buffer)?.data {
        Data::Config(c) => Ok(c),
        _ => Err(ReplyError::WrongData),
    }
}

/// Milliseconds to wait before the next ping: nine tenths of the time, given
/// in seconds, after which the device goes to standby.
pub fn ping_delay_millis(sleep_after_seconds: u32) -> (r: u64)
    ensures
        r == sleep_after_seconds * 900,
{
    (sleep_after_seconds as u64) * 900
}

} // verus!
