use vstd::prelude::*;
use crate::utils::Pacer;

verus! {

/// `serialport::TTYPort`, an open POSIX serial device handle;
/// opaque to verification.
#[verifier::external_type_specification]
#[verifier::external_body]
pub struct ExTTYPort(serialport::TTYPort);

/// One observable action on the serial line: a transfer-rate change or a
/// write of a byte sequence at the rate then in force.
pub enum LinkEvent {
    RateChange(u32),
    Write(Seq<u8>),
}

/// Exclusive owner of one open serial device, with its two configured
/// transfer rates and the history of actions performed on the line since
/// the link was made, oldest first.
pub struct SerialLink {
    port: serialport::TTYPort,
    break_rate: u32,
    data_rate: u32,
    pace: Pacer,
    events: Ghost<Seq<LinkEvent>>,
}

impl SerialLink {
    /// Every action performed on the line through this link, oldest first.
    pub closed spec fn history(self) -> Seq<LinkEvent> {
        self.events@
    }

    /// The low rate whose held zero byte the receiver sees as a break.
    pub closed spec fn break_rate_spec(self) -> u32 {
        self.break_rate
    }

    /// The rate payload bytes are sent at.
    pub closed spec fn data_rate_spec(self) -> u32 {
        self.data_rate
    }

    /// Relies on `serialport::new` and `SerialPortBuilder::open_native`:
    /// builds the settings for the named device at the given rate and opens
    /// it, returning the open handle, or the OS error on failure. Whether it
    /// succeeds depends on the machine, so nothing is promised of the outcome.
    #[verifier::external_body]
    fn open_port(path: &str, rate: u32) -> Result<serialport::TTYPort, String> {
        match serialport::new(path, rate).open_native() {
            Ok(port) => Ok(port),
            Err(e) => Err(format!("Fail to open serial port: {}", e)),
        }
    }

    /// A link over an already open device, with an empty action history.
    pub fn from_port(port: serialport::TTYPort, break_rate: u32, data_rate: u32) -> (r: SerialLink)
        ensures
            r.history() == Seq::<LinkEvent>::empty(),
            r.break_rate_spec() == break_rate,
            r.data_rate_spec() == data_rate,
    {
        SerialLink { port, break_rate, data_rate, pace: Pacer::new(), events: Ghost(Seq::empty()) }
    }

    /// Open the named serial device at the data rate and wrap it in a fresh
    /// link. Whether the device opens depends on the machine; a fresh link
    /// always starts with an empty action history.
    pub fn open(path: &str, break_rate: u32, data_rate: u32) -> (r: Result<SerialLink, String>)
        ensures
            r matches Ok(l) ==> l.history() == Seq::<LinkEvent>::empty()
                && l.break_rate_spec() == break_rate
                && l.data_rate_spec() == data_rate,
    {
        match Self::open_port(path, data_rate) {
            Ok(port) => Ok(Self::from_port(port, break_rate, data_rate)),
            Err(e) => Err(e),
        }
    }

    /// The low rate whose held zero byte the receiver sees as a break.
    pub fn break_rate_val(&self) -> (r: u32)
        ensures
            r == self.break_rate_spec(),
    {
        self.break_rate
    }

    /// The rate payload bytes are sent at.
    pub fn data_rate_val(&self) -> (r: u32)
        ensures
            r == self.data_rate_spec(),
    {
        self.data_rate
    }

    /// Relies on `serialport::SerialPort::set_baud_rate`: on success the
    /// device's transfer rate is the given one, recorded as a rate-change
    /// action. On failure the device may or may not have taken the new rate
    /// — the call applies the whole terminal state at once — so at most that
    /// one rate-change action is recorded, and no other kind of action; the
    /// caller is expected to abandon the frame.
    #[verifier::external_body]
    pub(crate) fn set_rate(&mut self, rate: u32) -> (r: Result<(), String>)
        ensures
            final(self).break_rate_spec() == old(self).break_rate_spec(),
            final(self).data_rate_spec() == old(self).data_rate_spec(),
            r is Ok ==> final(self).history()
                == old(self).history().push(LinkEvent::RateChange(rate)),
            r is Err ==> final(self).history() == old(self).history()
                || final(self).history() == old(self).history().push(LinkEvent::RateChange(rate)),
    {
        match serialport::SerialPort::set_baud_rate(&mut self.port, rate) {
            Ok(()) => Ok(()),
            Err(e) => Err(format!("Fail to set transfer rate: {}", e)),
        }
    }

    /// Relies on `std::io::Write::write_all`: on success the whole buffer
    /// was handed to the device in order, recorded as one write action. On
    /// failure some leading part of the buffer may have been — the call
    /// writes from the front until the first error — so at most one write of
    /// such a prefix is recorded, and no other kind of action; the caller is
    /// expected to abandon the frame.
    #[verifier::external_body]
    pub(crate) fn write_bytes(&mut self, buf: &[u8]) -> (r: Result<(), String>)
        ensures
            final(self).break_rate_spec() == old(self).break_rate_spec(),
            final(self).data_rate_spec() == old(self).data_rate_spec(),
            r is Ok ==> final(self).history()
                == old(self).history().push(LinkEvent::Write(buf@)),
            r is Err ==> final(self).history() == old(self).history()
                || exists|k: int| 0 <= k <= buf@.len()
                    && final(self).history()
                        == old(self).history().push(LinkEvent::Write(buf@.subrange(0, k))),
    {
        match std::io::Write::write_all(&mut self.port, buf) {
            Ok(()) => Ok(()),
            Err(e) => Err(format!("Fail to write to serial port: {}", e)),
        }
    }

    /// Block the calling thread for the given number of milliseconds,
    /// leaving the line untouched.
    pub fn hold(&self, ms: u64) {
        self.pace.wait_ms(ms);
    }
}

} // verus!
