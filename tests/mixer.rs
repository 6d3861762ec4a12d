use namunushi::mixer::{decode_sample, encode_sample, mix_packets, mix_sample, MixerSession, PACKET_BYTES};

fn packet_of(samples: &[i16]) -> Vec<u8> {
    let mut out = Vec::new();
    for s in samples {
        let (lo, hi) = encode_sample(*s);
        out.push(lo);
        out.push(hi);
    }
    out
}

fn samples_of(bytes: &[u8]) -> Vec<i16> {
    bytes.chunks(2).map(|c| decode_sample(c[0], c[1])).collect()
}

#[test]
fn mix_saturates_high() {
    assert_eq!(mix_sample(20000, 20000), 32767);
}

#[test]
fn mix_saturates_low() {
    assert_eq!(mix_sample(-20000, -20000), -32768);
}

#[test]
fn mix_adds_in_range() {
    assert_eq!(mix_sample(100, -50), 50);
    assert_eq!(mix_sample(32767, -32768), -1);
    assert_eq!(mix_sample(0, 0), 0);
}

#[test]
fn mix_matches_clamped_sum_everywhere_sampled() {
    let values: [i16; 9] = [-32768, -32767, -20000, -1, 0, 1, 20000, 32766, 32767];
    for a in values {
        for b in values {
            let expected = (a as i32 + b as i32).clamp(-32768, 32767) as i16;
            assert_eq!(mix_sample(a, b), expected);
        }
    }
}

#[test]
fn samples_are_little_endian() {
    assert_eq!(decode_sample(0x34, 0x12), 0x1234);
    assert_eq!(decode_sample(0xff, 0xff), -1);
    assert_eq!(decode_sample(0x00, 0x80), -32768);
    assert_eq!(encode_sample(-2), (0xfe, 0xff));
    assert_eq!(encode_sample(0x1234), (0x34, 0x12));
    for s in [-32768i16, -300, -1, 0, 1, 300, 32767] {
        let (lo, hi) = encode_sample(s);
        assert_eq!(decode_sample(lo, hi), s);
    }
}

#[test]
fn mix_packets_mixes_each_sample() {
    let a: Vec<i16> = (0..96).map(|i| (i * 300) as i16).collect();
    let b: Vec<i16> = (0..96).map(|i| (i * 100 - 5000) as i16).collect();
    let mut out = vec![0u8; PACKET_BYTES];
    mix_packets(&packet_of(&a), &packet_of(&b), &mut out);
    let mixed = samples_of(&out);
    for i in 0..96 {
        assert_eq!(mixed[i], a[i].saturating_add(b[i]));
    }
}

#[test]
fn two_streams_mix_into_one_packet() {
    let mut p1 = Vec::new();
    for _ in 0..48 {
        p1.push(100i16);
        p1.push(-100i16);
    }
    let p2 = vec![50i16; 96];
    let mut session = MixerSession::new();
    let write = session.poll(Some(&packet_of(&p1)), Some(&packet_of(&p2)));
    assert!(write);
    let mixed = samples_of(session.packet());
    assert_eq!(mixed.len(), 96);
    assert_eq!(mixed[0], 150);
    assert_eq!(mixed[1], -50);
    assert_eq!(mixed[95], -50);
    assert_eq!(session.pending(), (false, false));
}

#[test]
fn one_stream_alone_never_writes() {
    let p1 = packet_of(&[1000i16; 96]);
    let mut session = MixerSession::new();
    for _ in 0..5 {
        assert!(!session.poll(Some(&p1), None));
        assert_eq!(session.pending(), (true, false));
    }
    assert_eq!(session.packet(), &[0u8; 192][..]);
}

#[test]
fn idle_polls_change_nothing() {
    let mut session = MixerSession::new();
    assert!(!session.poll(Some(&packet_of(&[7i16; 96])), None));
    let before = session.packet().to_vec();
    for _ in 0..10 {
        assert!(!session.poll(None, None));
        assert_eq!(session.pending(), (true, false));
        assert_eq!(session.packet(), &before[..]);
    }
}

#[test]
fn packets_from_different_cycles_are_paired() {
    let mut session = MixerSession::new();
    assert!(!session.poll(Some(&packet_of(&[10i16; 96])), None));
    assert!(!session.poll(None, None));
    assert!(session.poll(None, Some(&packet_of(&[5i16; 96]))));
    assert!(samples_of(session.packet()).iter().all(|s| *s == 15));
}

#[test]
fn latest_packet_of_a_stream_wins() {
    let mut session = MixerSession::new();
    assert!(!session.poll(Some(&packet_of(&[10i16; 96])), None));
    assert!(!session.poll(Some(&packet_of(&[20i16; 96])), None));
    assert!(session.poll(None, Some(&packet_of(&[1i16; 96]))));
    assert!(samples_of(session.packet()).iter().all(|s| *s == 21));
}

#[test]
fn short_packet_keeps_older_tail() {
    let mut session = MixerSession::new();
    assert!(session.poll(Some(&packet_of(&[3i16; 96])), Some(&packet_of(&[0i16; 96]))));
    assert!(session.poll(Some(&packet_of(&[9i16; 2])), Some(&packet_of(&[0i16; 96]))));
    let mixed = samples_of(session.packet());
    assert_eq!(mixed[0], 9);
    assert_eq!(mixed[1], 9);
    assert_eq!(mixed[2], 3);
    assert_eq!(mixed[95], 3);
}

#[test]
fn full_buffer_packet_is_accepted() {
    let mut session = MixerSession::new();
    let big = vec![0x01u8; 256];
    assert!(session.poll(Some(&big), Some(&big)));
    assert!(samples_of(session.packet()).iter().all(|s| *s == 0x0202));
}
