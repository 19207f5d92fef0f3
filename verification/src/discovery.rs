//! The broadcast-then-collect discovery exchange, as a state machine driven
//! by transport events.
//!
//! The transport — a connected send-socket and a bound receive-socket — is
//! an external collaborator. A caller runs the loop: it connects, sends the
//! discovery command, and receives datagrams, handing each outcome to the
//! machine, which decides how discovery proceeds and what it yields.
//! Collection ends at the first receive or decode failure; only a failure on
//! the very first datagram makes the whole run fail.

use vstd::prelude::*;

use crate::device::Device;
use crate::device::checksum_matches;
use crate::device::data_recieve_error;
use crate::device::device_error;
use crate::device::get_device_from_bytes;
use crate::device::spec_decode;

verus! {

/// The phases of a discovery run.
#[derive(Debug, PartialEq, Eq, Structural, Clone, Copy)]
pub enum DiscoveryPhase {
    Idle,
    Broadcasting,
    Collecting,
    Done,
}

/// A discovery run: its phase, the devices collected so far, the failure it
/// ended with, if any, and — for the record — the frames the devices were
/// decoded from.
pub struct DeviceDiscovery {
    pub phase: DiscoveryPhase,
    pub devices: Vec<Device>,
    pub failure: Option<device_error>,
    pub frames: Ghost<Seq<Seq<u8>>>,
}

impl DeviceDiscovery {
    /// Every collected device was decoded from a recorded frame; devices are
    /// only collected while or after collecting; a run fails only as a whole,
    /// with nothing collected.
    pub open spec fn wf(&self) -> bool {
        &&& self.devices@.len() == self.frames@.len()
        &&& forall|i: int|
            0 <= i < self.frames@.len() ==> spec_decode(self.frames@[i]) == Ok::<
                Device,
                data_recieve_error,
            >(self.devices@[i])
        &&& ((self.phase is Idle || self.phase is Broadcasting) ==> self.devices@.len() == 0)
        &&& (self.failure is Some ==> (self.phase is Done && self.devices@.len() == 0))
    }

    /// A fresh run, about to connect the send-socket.
    pub fn new() -> (d: DeviceDiscovery)
        ensures
            d.wf(),
            d.phase is Idle,
            d.devices@.len() == 0,
            d.failure is None,
    {
        DeviceDiscovery {
            phase: DiscoveryPhase::Idle,
            devices: Vec::new(),
            failure: None,
            frames: Ghost(Seq::empty()),
        }
    }

    /// The outcome of connecting the send-socket to the broadcast address.
    /// Failure to connect fails the whole run, with no retry.
    pub fn on_connect(&mut self, connected: bool)
        requires
            old(self).wf(),
            old(self).phase is Idle,
        ensures
            final(self).wf(),
            final(self).devices@ == old(self).devices@,
            connected ==> (final(self).phase is Broadcasting && final(self).failure is None),
            !connected ==> (final(self).phase is Done && final(self).failure == Some(
                device_error::could_not_send_setup_command,
            )),
    {
        if connected {
            self.phase = DiscoveryPhase::Broadcasting;
        } else {
            self.phase = DiscoveryPhase::Done;
            self.failure = Some(device_error::could_not_send_setup_command);
        }
    }

    /// The outcome of transmitting the discovery command. Failure to send
    /// fails the whole run, with no retry.
    pub fn on_send(&mut self, sent: bool)
        requires
            old(self).wf(),
            old(self).phase is Broadcasting,
        ensures
            final(self).wf(),
            final(self).devices@ == old(self).devices@,
            sent ==> (final(self).phase is Collecting && final(self).failure is None),
            !sent ==> (final(self).phase is Done && final(self).failure == Some(
                device_error::could_not_setup_devices,
            )),
    {
        if sent {
            self.phase = DiscoveryPhase::Collecting;
        } else {
            self.phase = DiscoveryPhase::Done;
            self.failure = Some(device_error::could_not_setup_devices);
        }
    }

    /// The outcome of one blocking receive: `Some` bytes, or `None` when the
    /// transport reported no more data. A datagram that decodes is collected
    /// and collection goes on; the first receive or decode failure ends
    /// collection, as a hard error if nothing was collected yet, and as a
    /// successful partial result otherwise.
    pub fn on_datagram(&mut self, datagram: Option<&[u8]>)
        requires
            old(self).wf(),
            old(self).phase is Collecting,
        ensures
            final(self).wf(),
            datagram matches Some(buffer) ==> (spec_decode(buffer@) matches Ok(device) ==> {
                &&& final(self).phase is Collecting
                &&& final(self).failure is None
                &&& final(self).devices@ == old(self).devices@.push(device)
            }),
            (datagram matches Some(buffer) && spec_decode(buffer@) is Err) ==> {
                &&& final(self).phase is Done
                &&& final(self).devices@ == old(self).devices@
                &&& final(self).failure == (if old(self).devices@.len() == 0 {
                    Some(device_error::could_not_unserialize_device_packet)
                } else {
                    None::<device_error>
                })
            },
            datagram is None ==> {
                &&& final(self).phase is Done
                &&& final(self).devices@ == old(self).devices@
                &&& final(self).failure == (if old(self).devices@.len() == 0 {
                    Some(device_error::could_not_recieve_device_packet)
                } else {
                    None::<device_error>
                })
            },
    {
        match datagram {
            Some(buffer) => match get_device_from_bytes(buffer) {
                Ok(device) => {
                    self.devices.push(device);
                    proof {
                        self.frames@ = self.frames@.push(buffer@);
                    }
                },
                Err(_) => {
                    self.phase = DiscoveryPhase::Done;
                    if self.devices.len() == 0 {
                        self.failure = Some(device_error::could_not_unserialize_device_packet);
                    }
                },
            },
            None => {
                self.phase = DiscoveryPhase::Done;
                if self.devices.len() == 0 {
                    self.failure = Some(device_error::could_not_recieve_device_packet);
                }
            },
        }
    }

    /// Whether the run has reached its terminal phase.
    pub fn finished(&self) -> (r: bool)
        ensures
            r == (self.phase is Done),
    {
        match self.phase {
            DiscoveryPhase::Done => true,
            _ => false,
        }
    }

    /// The terminal outcome: the collected devices, or the failure the run
    /// ended with.
    pub fn into_result(self) -> (r: Result<Vec<Device>, device_error>)
        requires
            self.wf(),
            self.phase is Done,
        ensures
            self.failure matches Some(e) ==> r == Err::<Vec<Device>, device_error>(e),
            self.failure is None ==> (r matches Ok(devices) && devices@ == self.devices@),
    {
        match self.failure {
            Some(e) => Err(e),
            None => Ok(self.devices),
        }
    }
}

/// A device is only materialized from a frame that passed checksum
/// validation: in a well-formed run, every collected device carries the id
/// byte at offset 2 of a frame whose trailer is the CRC-32 of its covered
/// span, and its status is `on`.
pub proof fn lemma_device_materialized_from_valid_frame(d: &DeviceDiscovery, i: int)
    requires
        d.wf(),
        0 <= i < d.devices@.len(),
    ensures
        d.devices@.len() == d.frames@.len(),
        checksum_matches(d.frames@[i]),
        d.devices@[i].device_id == d.frames@[i][2],
        d.devices@[i].status is on,
{
    assert(spec_decode(d.frames@[i]) == Ok::<Device, data_recieve_error>(d.devices@[i]));
}

} // verus!
