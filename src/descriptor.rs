//! The configuration descriptor of the audio function, as an ordered list
//! of descriptor records that a USB device framework writes out one by one.

use vstd::prelude::*;

verus! {

/// Interface class code of USB Audio.
pub const AUDIO: u8 = 0x01;

/// Interface subclass of the AudioControl interface.
pub const AUDIOCONTROL: u8 = 0x01;

/// Interface subclass of an AudioStreaming interface.
pub const AUDIOSTREAMING: u8 = 0x02;

/// Descriptor type of class-specific interface descriptors.
pub const CS_INTERFACE: u8 = 0x24;

/// Descriptor type of class-specific endpoint descriptors.
pub const CS_ENDPOINT: u8 = 0x25;

/// Length of the AudioControl class-specific block: an 11-byte header that
/// lists three streaming interfaces, then three pairs of a 12-byte input
/// terminal and a 9-byte output terminal.
pub const AC_TOTAL_LENGTH: u16 = 11 + 3 * (12 + 9);

/// One of the three audio streams of the device.
#[derive(Clone, Copy, Debug, PartialEq, Eq, Structural)]
pub enum StreamId {
    /// The stream that the host captures (device to host).
    Input,
    /// The first playback stream (host to device).
    Output1,
    /// The second playback stream (host to device).
    Output2,
}

/// One descriptor of the configuration, in the order it is written.
#[derive(Debug)]
pub enum DescriptorRecord {
    /// A standard interface descriptor (no interface string).
    Interface { number: u8, alternate_setting: u8, class: u8, sub_class: u8, protocol: u8 },
    /// A descriptor whose body follows the length and type bytes.
    ClassSpecific { descriptor_type: u8, body: Vec<u8> },
    /// The standard endpoint descriptor of a stream's isochronous endpoint.
    Endpoint { stream: StreamId },
}

/// The mathematical model of a [`DescriptorRecord`].
pub enum RecordView {
    Interface { number: u8, alternate_setting: u8, class: u8, sub_class: u8, protocol: u8 },
    ClassSpecific { descriptor_type: u8, body: Seq<u8> },
    Endpoint { stream: StreamId },
}

impl View for DescriptorRecord {
    type V = RecordView;

    open spec fn view(&self) -> RecordView {
        match self {
            DescriptorRecord::Interface { number, alternate_setting, class, sub_class, protocol } =>
                RecordView::Interface {
                number: *number,
                alternate_setting: *alternate_setting,
                class: *class,
                sub_class: *sub_class,
                protocol: *protocol,
            },
            DescriptorRecord::ClassSpecific { descriptor_type, body } => RecordView::ClassSpecific {
                descriptor_type: *descriptor_type,
                body: body@,
            },
            DescriptorRecord::Endpoint { stream } => RecordView::Endpoint { stream: *stream },
        }
    }
}

/// Number of bytes a record occupies on the wire: a class-specific body is
/// preceded by its length and type bytes; an interface descriptor is 9 bytes
/// and an endpoint descriptor 7.
pub open spec fn wire_length(r: RecordView) -> nat {
    match r {
        RecordView::Interface { .. } => 9,
        RecordView::ClassSpecific { body, .. } => body.len() + 2,
        RecordView::Endpoint { .. } => 7,
    }
}

/// Total wire length of a run of records.
pub open spec fn total_wire_length(rs: Seq<RecordView>) -> nat
    decreases rs.len(),
{
    if rs.len() == 0 {
        0
    } else {
        wire_length(rs.last()) + total_wire_length(rs.drop_last())
    }
}

/// Low byte of a 16-bit value.
pub open spec fn lo(x: u16) -> u8 {
    (x % 256) as u8
}

/// High byte of a 16-bit value.
pub open spec fn hi(x: u16) -> u8 {
    (x / 256) as u8
}

pub open spec fn interface_view(number: u8, alternate_setting: u8, sub_class: u8) -> RecordView {
    RecordView::Interface { number, alternate_setting, class: AUDIO, sub_class, protocol: 0 }
}

pub open spec fn cs_view(descriptor_type: u8, body: Seq<u8>) -> RecordView {
    RecordView::ClassSpecific { descriptor_type, body }
}

/// Body of the AudioControl header: UAC 1.0, the total length of the
/// class-specific block, and the three streaming interfaces it collects.
pub open spec fn ac_header_body(input: u8, output1: u8, output2: u8) -> Seq<u8> {
    seq![0x01u8, 0x00, 0x01, lo(AC_TOTAL_LENGTH), hi(AC_TOTAL_LENGTH), 0x03, input, output1, output2]
}

/// Body of a stereo (left and right front) input terminal.
pub open spec fn input_terminal_body(id: u8, terminal_type: u16) -> Seq<u8> {
    seq![0x02u8, id, lo(terminal_type), hi(terminal_type), 0x00, 0x02, 0x03, 0x00, 0x00, 0x00]
}

/// Body of an output terminal fed by terminal `source`.
pub open spec fn output_terminal_body(id: u8, terminal_type: u16, source: u8) -> Seq<u8> {
    seq![0x03u8, id, lo(terminal_type), hi(terminal_type), 0x00, source, 0x00]
}

/// AS_GENERAL body: the stream is linked to terminal `link` and carries PCM.
pub open spec fn as_general_body(link: u8) -> Seq<u8> {
    seq![0x01u8, link, 0x01, 0x01, 0x00]
}

/// FORMAT_TYPE_I body: 2 channels of 16-bit samples at 48000 Hz.
pub open spec fn format_body() -> Seq<u8> {
    seq![0x02u8, 0x01, 0x02, 0x02, 0x10, 0x01, 0x80, 0xbb, 0x00]
}

/// EP_GENERAL body: no sampling-frequency or pitch control, no lock delay.
pub open spec fn ep_general_body() -> Seq<u8> {
    seq![0x01u8, 0x00, 0x00, 0x00, 0x00]
}

/// Terminal type "USB streaming".
pub const USB_STREAMING: u16 = 0x0101;

/// Terminal type "microphone".
pub const MICROPHONE: u16 = 0x0201;

/// Terminal type "speaker".
pub const SPEAKER: u16 = 0x0301;

/// The AudioControl interface and its class-specific block.
pub open spec fn control_block(control: u8, input: u8, output1: u8, output2: u8) -> Seq<RecordView> {
    seq![
        interface_view(control, 0, AUDIOCONTROL),
        cs_view(CS_INTERFACE, ac_header_body(input, output1, output2)),
        cs_view(CS_INTERFACE, input_terminal_body(1, MICROPHONE)),
        cs_view(CS_INTERFACE, output_terminal_body(2, USB_STREAMING, 1)),
        cs_view(CS_INTERFACE, input_terminal_body(3, USB_STREAMING)),
        cs_view(CS_INTERFACE, output_terminal_body(4, SPEAKER, 3)),
        cs_view(CS_INTERFACE, input_terminal_body(5, USB_STREAMING)),
        cs_view(CS_INTERFACE, output_terminal_body(6, SPEAKER, 5)),
    ]
}

/// One AudioStreaming interface: the zero-bandwidth setting, the streaming
/// setting with its class-specific descriptors, and the stream's endpoint.
pub open spec fn stream_block(number: u8, link: u8, stream: StreamId) -> Seq<RecordView> {
    seq![
        interface_view(number, 0, AUDIOSTREAMING),
        interface_view(number, 1, AUDIOSTREAMING),
        cs_view(CS_INTERFACE, as_general_body(link)),
        cs_view(CS_INTERFACE, format_body()),
        RecordView::Endpoint { stream },
        cs_view(CS_ENDPOINT, ep_general_body()),
    ]
}

/// The whole configuration of the audio function.
pub open spec fn configuration_view(control: u8, input: u8, output1: u8, output2: u8) -> Seq<
    RecordView,
> {
    control_block(control, input, output1, output2) + stream_block(input, 2, StreamId::Input)
        + stream_block(output1, 3, StreamId::Output1) + stream_block(output2, 5, StreamId::Output2)
}

/// The AudioControl header's wTotalLength field holds exactly the number of
/// bytes of the class-specific descriptors of the AudioControl interface,
/// header included: the records between that interface descriptor and the
/// first streaming interface descriptor.
pub proof fn lemma_header_total_length(control: u8, input: u8, output1: u8, output2: u8)
    ensures
        ({
            let cfg = configuration_view(control, input, output1, output2);
            let header = cfg[1]->ClassSpecific_body;
            &&& cfg[0] == interface_view(control, 0, AUDIOCONTROL)
            &&& forall|k: int|
                1 <= k < 8 ==> (#[trigger] cfg[k]) is ClassSpecific
                    && cfg[k]->ClassSpecific_descriptor_type == CS_INTERFACE
            &&& cfg[8] is Interface
            &&& header[3] as int + 256 * header[4] as int == total_wire_length(cfg.subrange(1, 8))
        }),
{
    let cfg = configuration_view(control, input, output1, output2);
    let ac = cfg.subrange(1, 8);
    assert(ac =~= control_block(control, input, output1, output2).drop_first());
    reveal_with_fuel(total_wire_length, 8);
    assert(ac.drop_last().drop_last().drop_last().drop_last().drop_last().drop_last().drop_last()
        =~= Seq::<RecordView>::empty());
    assert(total_wire_length(ac) == 74);
}

pub open spec fn views(rs: Seq<DescriptorRecord>) -> Seq<RecordView> {
    rs.map_values(|r: DescriptorRecord| r@)
}

fn interface_record(number: u8, alternate_setting: u8, sub_class: u8) -> (r: DescriptorRecord)
    ensures
        r@ == interface_view(number, alternate_setting, sub_class),
{
    DescriptorRecord::Interface { number, alternate_setting, class: AUDIO, sub_class, protocol: 0 }
}

fn input_terminal(id: u8, terminal_type: u16) -> (r: DescriptorRecord)
    ensures
        r@ == cs_view(CS_INTERFACE, input_terminal_body(id, terminal_type)),
{
    let body = vec![0x02u8, id, (terminal_type % 256) as u8, (terminal_type / 256) as u8, 0x00, 0x02, 0x03, 0x00, 0x00, 0x00];
    proof {
        assert(body@ =~= input_terminal_body(id, terminal_type));
    }
    DescriptorRecord::ClassSpecific { descriptor_type: CS_INTERFACE, body }
}

fn output_terminal(id: u8, terminal_type: u16, source: u8) -> (r: DescriptorRecord)
    ensures
        r@ == cs_view(CS_INTERFACE, output_terminal_body(id, terminal_type, source)),
{
    let body = vec![0x03u8, id, (terminal_type % 256) as u8, (terminal_type / 256) as u8, 0x00, source, 0x00];
    proof {
        assert(body@ =~= output_terminal_body(id, terminal_type, source));
    }
    DescriptorRecord::ClassSpecific { descriptor_type: CS_INTERFACE, body }
}

fn push_stream_block(rs: &mut Vec<DescriptorRecord>, number: u8, link: u8, stream: StreamId)
    ensures
        views(final(rs)@) == views(old(rs)@) + stream_block(number, link, stream),
{
    rs.push(interface_record(number, 0, AUDIOSTREAMING));
    rs.push(interface_record(number, 1, AUDIOSTREAMING));
    let general = vec![0x01u8, link, 0x01, 0x01, 0x00];
    let format = vec![0x02u8, 0x01, 0x02, 0x02, 0x10, 0x01, 0x80, 0xbb, 0x00];
    let ep_general = vec![0x01u8, 0x00, 0x00, 0x00, 0x00];
    proof {
        assert(general@ =~= as_general_body(link));
        assert(format@ =~= format_body());
        assert(ep_general@ =~= ep_general_body());
    }
    rs.push(DescriptorRecord::ClassSpecific { descriptor_type: CS_INTERFACE, body: general });
    rs.push(DescriptorRecord::ClassSpecific { descriptor_type: CS_INTERFACE, body: format });
    rs.push(DescriptorRecord::Endpoint { stream });
    rs.push(DescriptorRecord::ClassSpecific { descriptor_type: CS_ENDPOINT, body: ep_general });
    assert(views(final(rs)@) =~= views(old(rs)@) + stream_block(number, link, stream));
}

/// Builds the configuration of the audio function for the given interface
/// numbers: the AudioControl interface with its terminal graph, then the
/// input stream and the two output streams.
pub fn configuration_records(control: u8, input: u8, output1: u8, output2: u8) -> (r: Vec<
    DescriptorRecord,
>)
    ensures
        views(r@) == configuration_view(control, input, output1, output2),
{
    let mut rs: Vec<DescriptorRecord> = Vec::new();
    rs.push(interface_record(control, 0, AUDIOCONTROL));
    let header = vec![0x01u8, 0x00, 0x01, (AC_TOTAL_LENGTH % 256) as u8, (AC_TOTAL_LENGTH / 256) as u8, 0x03, input, output1, output2];
    proof {
        assert(header@ =~= ac_header_body(input, output1, output2));
    }
    rs.push(DescriptorRecord::ClassSpecific { descriptor_type: CS_INTERFACE, body: header });
    rs.push(input_terminal(1, MICROPHONE));
    rs.push(output_terminal(2, USB_STREAMING, 1));
    rs.push(input_terminal(3, USB_STREAMING));
    rs.push(output_terminal(4, SPEAKER, 3));
    rs.push(input_terminal(5, USB_STREAMING));
    rs.push(output_terminal(6, SPEAKER, 5));
    assert(views(rs@) =~= control_block(control, input, output1, output2));
    push_stream_block(&mut rs, input, 2, StreamId::Input);
    push_stream_block(&mut rs, output1, 3, StreamId::Output1);
    push_stream_block(&mut rs, output2, 5, StreamId::Output2);
    assert(views(rs@) =~= configuration_view(control, input, output1, output2));
    rs
}

} // verus!
