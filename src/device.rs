//! The audio device's interface numbers and per-stream alternate settings,
//! and the standard GET_INTERFACE / SET_INTERFACE requests that read and
//! write them.

use crate::descriptor::{configuration_records, configuration_view, views, DescriptorRecord, StreamId};
use vstd::prelude::*;

verus! {

/// Standard request code GET_INTERFACE.
pub const GET_INTERFACE: u8 = 0x0a;

/// Standard request code SET_INTERFACE.
pub const SET_INTERFACE: u8 = 0x0b;

/// The type field of a control request's bmRequestType.
#[derive(Clone, Copy, Debug, PartialEq, Eq, Structural)]
pub enum RequestType {
    Standard,
    Class,
    Vendor,
    Reserved,
}

/// The recipient field of a control request's bmRequestType.
#[derive(Clone, Copy, Debug, PartialEq, Eq, Structural)]
pub enum Recipient {
    Device,
    Interface,
    Endpoint,
    Other,
    Reserved,
}

/// The SETUP packet of a control transfer.
#[derive(Clone, Copy, Debug, PartialEq, Eq, Structural)]
pub struct ControlRequest {
    pub request_type: RequestType,
    pub recipient: Recipient,
    pub request: u8,
    pub value: u16,
    pub index: u16,
    pub length: u16,
}

/// One audio streaming interface: its number and the alternate setting
/// that the host last selected (0 is the zero-bandwidth setting).
#[derive(Clone, Copy, Debug)]
pub struct AudioStream {
    iface: u8,
    alt_setting: u8,
}

impl AudioStream {
    pub closed spec fn interface_id(self) -> u8 {
        self.iface
    }

    pub closed spec fn alt(self) -> u8 {
        self.alt_setting
    }

    /// The interface number of the stream.
    pub fn interface_number(&self) -> (r: u8)
        ensures
            r == self.interface_id(),
    {
        self.iface
    }

    /// The alternate setting that the host last selected.
    pub fn alt_setting(&self) -> (r: u8)
        ensures
            r == self.alt(),
    {
        self.alt_setting
    }
}

/// The audio function: the AudioControl interface and three streams.
#[derive(Clone, Copy, Debug)]
pub struct UsbAudio {
    control_iface: u8,
    input: AudioStream,
    output1: AudioStream,
    output2: AudioStream,
}

/// The stream whose interface number is `iface`; the input stream is
/// looked at first, then output 1, then output 2.
pub open spec fn stream_of(dev: UsbAudio, iface: u8) -> Option<StreamId> {
    if iface == dev.stream(StreamId::Input).interface_id() {
        Some(StreamId::Input)
    } else if iface == dev.stream(StreamId::Output1).interface_id() {
        Some(StreamId::Output1)
    } else if iface == dev.stream(StreamId::Output2).interface_id() {
        Some(StreamId::Output2)
    } else {
        None
    }
}

/// The interface a request addresses: the low byte of its index.
pub open spec fn target_interface(req: ControlRequest) -> u8 {
    (req.index % 256) as u8
}

pub open spec fn is_get_interface(req: ControlRequest) -> bool {
    &&& req.request_type == RequestType::Standard
    &&& req.recipient == Recipient::Interface
    &&& req.request == GET_INTERFACE
    &&& req.length == 1
}

pub open spec fn is_set_interface(req: ControlRequest) -> bool {
    &&& req.request_type == RequestType::Standard
    &&& req.recipient == Recipient::Interface
    &&& req.request == SET_INTERFACE
}

/// The reply to an IN request: the addressed stream's alternate setting,
/// or `None` when the request is left to the framework.
pub open spec fn reply_to(dev: UsbAudio, req: ControlRequest) -> Option<u8> {
    if is_get_interface(req) {
        match stream_of(dev, target_interface(req)) {
            Some(s) => Some(dev.stream(s).alt()),
            None => None,
        }
    } else {
        None
    }
}

/// Whether an OUT request is taken by the device.
pub open spec fn takes(dev: UsbAudio, req: ControlRequest) -> bool {
    is_set_interface(req) && stream_of(dev, target_interface(req)) is Some
}

/// The alternate setting of stream `t` after an OUT request: a
/// SET_INTERFACE on a stream stores the low byte of the request's value as
/// that stream's alternate setting.
pub open spec fn alt_after(dev: UsbAudio, req: ControlRequest, t: StreamId) -> u8 {
    if takes(dev, req) && stream_of(dev, target_interface(req)) == Some(t) {
        (req.value % 256) as u8
    } else {
        dev.stream(t).alt()
    }
}

/// `next` is the device after `dev` handled the OUT request `req`: the
/// interface numbers stay, and the alternate settings are as `alt_after`.
pub open spec fn out_step(dev: UsbAudio, req: ControlRequest, next: UsbAudio) -> bool {
    &&& next.control_id() == dev.control_id()
    &&& forall|t: StreamId| #[trigger]
        next.stream(t).interface_id() == dev.stream(t).interface_id()
    &&& forall|t: StreamId| #[trigger] next.stream(t).alt() == alt_after(dev, req, t)
}

impl UsbAudio {
    pub closed spec fn control_id(self) -> u8 {
        self.control_iface
    }

    pub closed spec fn stream(self, s: StreamId) -> AudioStream {
        match s {
            StreamId::Input => self.input,
            StreamId::Output1 => self.output1,
            StreamId::Output2 => self.output2,
        }
    }

    /// The device with the given interface numbers, every stream at the
    /// zero-bandwidth alternate setting.
    pub fn build(control_iface: u8, input_iface: u8, output1_iface: u8, output2_iface: u8) -> (r:
        UsbAudio)
        ensures
            r.control_id() == control_iface,
            r.stream(StreamId::Input).interface_id() == input_iface,
            r.stream(StreamId::Output1).interface_id() == output1_iface,
            r.stream(StreamId::Output2).interface_id() == output2_iface,
            forall|t: StreamId| #[trigger] r.stream(t).alt() == 0,
    {
        UsbAudio {
            control_iface,
            input: AudioStream { iface: input_iface, alt_setting: 0 },
            output1: AudioStream { iface: output1_iface, alt_setting: 0 },
            output2: AudioStream { iface: output2_iface, alt_setting: 0 },
        }
    }

    /// The interface number of the AudioControl interface.
    pub fn control_interface(&self) -> (r: u8)
        ensures
            r == self.control_id(),
    {
        self.control_iface
    }

    /// The stream `s`.
    pub fn stream_state(&self, s: StreamId) -> (r: AudioStream)
        ensures
            r == self.stream(s),
    {
        match s {
            StreamId::Input => self.input,
            StreamId::Output1 => self.output1,
            StreamId::Output2 => self.output2,
        }
    }

    fn find_stream(&self, iface: u8) -> (r: Option<StreamId>)
        ensures
            r == stream_of(*self, iface),
    {
        if iface == self.input.iface {
            Some(StreamId::Input)
        } else if iface == self.output1.iface {
            Some(StreamId::Output1)
        } else if iface == self.output2.iface {
            Some(StreamId::Output2)
        } else {
            None
        }
    }

    /// Handles a device-to-host control request. Returns the byte to send
    /// back for a GET_INTERFACE of length 1 on one of the streams, and
    /// `None` for every other request, which is left to the framework.
    pub fn control_in(&self, req: &ControlRequest) -> (r: Option<u8>)
        ensures
            r == reply_to(*self, *req),
    {
        if req.request_type == RequestType::Standard && req.recipient == Recipient::Interface
            && req.request == GET_INTERFACE && req.length == 1 {
            match self.find_stream((req.index % 256) as u8) {
                Some(s) => Some(self.stream_state(s).alt_setting),
                None => None,
            }
        } else {
            None
        }
    }

    /// Handles a host-to-device control request. A SET_INTERFACE on one of
    /// the streams stores the low byte of its value, whatever it is, as the
    /// stream's alternate setting and returns `true` (the transfer is
    /// accepted); every other request changes nothing and returns `false`.
    pub fn control_out(&mut self, req: &ControlRequest) -> (r: bool)
        ensures
            r == takes(*old(self), *req),
            out_step(*old(self), *req, *final(self)),
    {
        if req.request_type == RequestType::Standard && req.recipient == Recipient::Interface
            && req.request == SET_INTERFACE {
            let alt_setting = (req.value % 256) as u8;
            match self.find_stream((req.index % 256) as u8) {
                Some(StreamId::Input) => {
                    self.input.alt_setting = alt_setting;
                    true
                },
                Some(StreamId::Output1) => {
                    self.output1.alt_setting = alt_setting;
                    true
                },
                Some(StreamId::Output2) => {
                    self.output2.alt_setting = alt_setting;
                    true
                },
                None => false,
            }
        } else {
            false
        }
    }

    /// The configuration descriptor records of the device.
    pub fn get_configuration_descriptors(&self) -> (r: Vec<DescriptorRecord>)
        ensures
            views(r@) == configuration_view(
                self.control_id(),
                self.stream(StreamId::Input).interface_id(),
                self.stream(StreamId::Output1).interface_id(),
                self.stream(StreamId::Output2).interface_id(),
            ),
    {
        configuration_records(self.control_iface, self.input.iface, self.output1.iface, self.output2.iface)
    }
}

/// A request whose interface is none of the three streams' is neither
/// answered nor taken, and leaves the device as it was.
pub proof fn lemma_other_interface_untouched(dev: UsbAudio, req: ControlRequest, next: UsbAudio)
    requires
        target_interface(req) != dev.stream(StreamId::Input).interface_id(),
        target_interface(req) != dev.stream(StreamId::Output1).interface_id(),
        target_interface(req) != dev.stream(StreamId::Output2).interface_id(),
        out_step(dev, req, next),
    ensures
        reply_to(dev, req) is None,
        !takes(dev, req),
        next == dev,
{
    assert(!takes(dev, req));
    assert forall|t: StreamId| next.stream(t) == dev.stream(t) by {
        assert(next.stream(t).interface_id() == dev.stream(t).interface_id());
        assert(next.stream(t).alt() == alt_after(dev, req, t));
    }
    assert(next.stream(StreamId::Input) == dev.stream(StreamId::Input));
    assert(next.stream(StreamId::Output1) == dev.stream(StreamId::Output1));
    assert(next.stream(StreamId::Output2) == dev.stream(StreamId::Output2));
}

/// A SET_INTERFACE on a stream followed by a GET_INTERFACE on the same
/// interface reads back the low byte of the value that was set, whatever
/// that value is.
pub proof fn lemma_set_then_get(dev: UsbAudio, set: ControlRequest, next: UsbAudio, get: ControlRequest)
    requires
        is_set_interface(set),
        is_get_interface(get),
        target_interface(get) == target_interface(set),
        stream_of(dev, target_interface(set)) is Some,
        out_step(dev, set, next),
    ensures
        takes(dev, set),
        reply_to(next, get) == Some((set.value % 256) as u8),
{
    let s = stream_of(dev, target_interface(set))->Some_0;
    assert(next.stream(StreamId::Input).interface_id() == dev.stream(StreamId::Input).interface_id());
    assert(next.stream(StreamId::Output1).interface_id() == dev.stream(StreamId::Output1).interface_id());
    assert(next.stream(StreamId::Output2).interface_id() == dev.stream(StreamId::Output2).interface_id());
    assert(stream_of(next, target_interface(get)) == Some(s));
    assert(next.stream(s).alt() == alt_after(dev, set, s));
}

} // verus!
