use dispatcher::command::Command;
use dispatcher::frame::{
    data_frame, done_broadcast_frame, frame_command, frame_target, frame_timestamp, pick_receiver,
    random_bytes, random_in, signal, start_frame, tagged_frame,
};
use dispatcher::timestamp::{format_timestamp, Timestamp};
use dispatcher::{MSG_LEN, TIMESTAMP_LEN};

#[test]
fn command_from_known_bytes() {
    assert_eq!(Command::from(1u8), Command::Start);
    assert_eq!(Command::from(2u8), Command::Data);
    assert_eq!(Command::from(3u8), Command::Done);
}

#[test]
fn command_from_other_bytes_is_unknown() {
    for b in [0u8, 4, 5, 100, 255] {
        assert_eq!(Command::from(b), Command::Unknown);
    }
}

#[test]
fn command_bytes() {
    assert_eq!(Command::Start.to_u8(), 1);
    assert_eq!(Command::Data.to_u8(), 2);
    assert_eq!(Command::Done.to_u8(), 3);
    assert_eq!(Command::Unknown.to_u8(), 4);
}

#[test]
fn command_byte_roundtrip_all() {
    for c in [Command::Start, Command::Data, Command::Done, Command::Unknown] {
        assert_eq!(Command::from(c.to_u8()), c);
    }
    for b in 0..=255u8 {
        let c = Command::from(b);
        if (1..=3).contains(&b) {
            assert_eq!(c.to_u8(), b);
        } else {
            assert_eq!(c, Command::Unknown);
        }
    }
}

#[test]
fn frames_have_their_fixed_bytes() {
    let s = start_frame();
    assert_eq!(s.len(), MSG_LEN);
    assert_eq!(s[0], 1);
    let d = data_frame(7);
    assert_eq!(d.len(), MSG_LEN);
    assert_eq!(d[0], 2);
    assert_eq!(d[1], 7);
    let t = tagged_frame(9);
    assert_eq!(t.len(), MSG_LEN);
    assert_eq!(t[0], 9);
    assert_eq!(signal(Command::Done), vec![3u8]);
    assert_eq!(signal(Command::Start), vec![1u8]);
    assert_eq!(random_bytes(0).len(), 0);
    assert_eq!(random_bytes(33).len(), 33);
}

#[test]
fn done_broadcast_is_done_then_zeros() {
    let f = done_broadcast_frame();
    assert_eq!(f.len(), MSG_LEN);
    assert_eq!(f[0], 3);
    assert!(f[1..].iter().all(|b| *b == 0));
}

#[test]
fn frame_readers() {
    let mut f = vec![0u8; MSG_LEN];
    f[0] = 2;
    f[1] = 200;
    assert_eq!(frame_command(&f), Command::Data);
    assert_eq!(frame_target(&f), 200);
    f[0] = 42;
    assert_eq!(frame_command(&f), Command::Unknown);
}

#[test]
fn pick_receiver_formula() {
    assert_eq!(pick_receiver(0, 10), 1);
    assert_eq!(pick_receiver(9, 10), 10);
    assert_eq!(pick_receiver(255, 10), 6);
    assert_eq!(pick_receiver(255, 1), 1);
    for r in 0..=255u8 {
        let n = pick_receiver(r, 7);
        assert!((1..=7).contains(&n));
        assert_eq!(n, r % 7 + 1);
    }
}

#[test]
fn random_in_stays_in_range() {
    for _ in 0..200 {
        let r = random_in(1, 11);
        assert!((1..11).contains(&r));
    }
    assert_eq!(random_in(5, 6), 5);
}

#[test]
fn frame_timestamp_reads_back_the_written_text() {
    let t = Timestamp { secs: 1_518_563_312, nanos: 456_123_789 };
    let text = format_timestamp(t);
    assert_eq!(text.len(), TIMESTAMP_LEN);
    let mut f = vec![0u8; MSG_LEN];
    f[0] = 2;
    f[2..2 + TIMESTAMP_LEN].copy_from_slice(text.as_bytes());
    assert_eq!(
        frame_timestamp(&f),
        Some(Timestamp { secs: 1_518_563_312, nanos: 456_123_000 })
    );
}

#[test]
fn frame_timestamp_refuses_bad_fields() {
    let mut f = vec![0u8; MSG_LEN];
    assert_eq!(frame_timestamp(&f), None);
    // not UTF-8
    f[2] = 0xff;
    assert_eq!(frame_timestamp(&f), None);
    // UTF-8 but not a timestamp
    let text = b"this is not a time stamp!!!";
    f[2..2 + TIMESTAMP_LEN].copy_from_slice(text);
    assert_eq!(frame_timestamp(&f), None);
}
