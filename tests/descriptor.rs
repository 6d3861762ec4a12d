use namunushi::descriptor::{configuration_records, DescriptorRecord, StreamId, AC_TOTAL_LENGTH};
use namunushi::device::UsbAudio;

fn class_specific(r: &DescriptorRecord) -> Option<(u8, &Vec<u8>)> {
    match r {
        DescriptorRecord::ClassSpecific { descriptor_type, body } => Some((*descriptor_type, body)),
        _ => None,
    }
}

#[test]
fn header_announces_its_block_length() {
    let rs = configuration_records(0, 1, 2, 3);
    let (_, header) = class_specific(&rs[1]).unwrap();
    let announced = header[3] as usize + 256 * header[4] as usize;
    let mut counted = 0;
    for r in &rs[1..] {
        match class_specific(r) {
            Some((0x24, body)) => counted += body.len() + 2,
            _ => break,
        }
    }
    assert_eq!(announced, counted);
    assert_eq!(announced, 74);
    assert_eq!(AC_TOTAL_LENGTH, 74);
}

#[test]
fn control_interface_comes_first() {
    let rs = configuration_records(4, 5, 6, 7);
    assert_eq!(rs.len(), 26);
    match &rs[0] {
        DescriptorRecord::Interface { number, alternate_setting, class, sub_class, protocol } => {
            assert_eq!((*number, *alternate_setting, *class, *sub_class, *protocol), (4, 0, 1, 1, 0));
        }
        _ => panic!("first record is not an interface"),
    }
    let (ty, header) = class_specific(&rs[1]).unwrap();
    assert_eq!(ty, 0x24);
    assert_eq!(header, &vec![0x01, 0x00, 0x01, 74, 0, 3, 5, 6, 7]);
}

#[test]
fn terminal_graph_is_three_paths() {
    let rs = configuration_records(0, 1, 2, 3);
    let bodies: Vec<Vec<u8>> = rs[2..8].iter().map(|r| class_specific(r).unwrap().1.clone()).collect();
    assert_eq!(bodies[0], vec![0x02, 0x01, 0x01, 0x02, 0x00, 0x02, 0x03, 0x00, 0x00, 0x00]);
    assert_eq!(bodies[1], vec![0x03, 0x02, 0x01, 0x01, 0x00, 0x01, 0x00]);
    assert_eq!(bodies[2], vec![0x02, 0x03, 0x01, 0x01, 0x00, 0x02, 0x03, 0x00, 0x00, 0x00]);
    assert_eq!(bodies[3], vec![0x03, 0x04, 0x01, 0x03, 0x00, 0x03, 0x00]);
    assert_eq!(bodies[4], vec![0x02, 0x05, 0x01, 0x01, 0x00, 0x02, 0x03, 0x00, 0x00, 0x00]);
    assert_eq!(bodies[5], vec![0x03, 0x06, 0x01, 0x03, 0x00, 0x05, 0x00]);
}

#[test]
fn each_stream_has_two_settings_and_its_endpoint() {
    let rs = configuration_records(0, 1, 2, 3);
    let blocks = [(8usize, 1u8, 2u8, StreamId::Input), (14, 2, 3, StreamId::Output1), (20, 3, 5, StreamId::Output2)];
    for (start, iface, link, stream) in blocks {
        for alt in 0..2u8 {
            match &rs[start + alt as usize] {
                DescriptorRecord::Interface { number, alternate_setting, class, sub_class, protocol } => {
                    assert_eq!((*number, *alternate_setting, *class, *sub_class, *protocol), (iface, alt, 1, 2, 0));
                }
                _ => panic!("missing interface descriptor"),
            }
        }
        assert_eq!(class_specific(&rs[start + 2]).unwrap(), (0x24, &vec![0x01, link, 0x01, 0x01, 0x00]));
        assert_eq!(
            class_specific(&rs[start + 3]).unwrap(),
            (0x24, &vec![0x02, 0x01, 0x02, 0x02, 0x10, 0x01, 0x80, 0xbb, 0x00])
        );
        match &rs[start + 4] {
            DescriptorRecord::Endpoint { stream: s } => assert_eq!(*s, stream),
            _ => panic!("missing endpoint"),
        }
        assert_eq!(class_specific(&rs[start + 5]).unwrap(), (0x25, &vec![0x01, 0x00, 0x00, 0x00, 0x00]));
    }
}

#[test]
fn device_describes_its_own_interfaces() {
    let dev = UsbAudio::build(2, 3, 4, 5);
    let rs = dev.get_configuration_descriptors();
    let (_, header) = class_specific(&rs[1]).unwrap();
    assert_eq!(&header[6..], &[3, 4, 5]);
    match &rs[0] {
        DescriptorRecord::Interface { number, .. } => assert_eq!(*number, 2),
        _ => panic!("first record is not an interface"),
    }
}
