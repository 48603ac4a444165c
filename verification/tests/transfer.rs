use psxemcee::calc_checksum;
use psxemcee::errors::PSXError;
use psxemcee::transfer::{Step, Transfer, READ_ATTEMPTS};
use psxemcee::{get_status, read_all_frames, read_at, read_frame, write_at, write_frame};

/// A reply to a read as a card sends it: echo, lead, acknowledge pair,
/// address, frame, checksum, trailer.
fn good_reply(frame: u16, payload: &[u8]) -> Vec<u8> {
    let mut r = vec![0xff, 0x00, 0x5c, 0x5d, (frame >> 8) as u8, frame as u8];
    r.extend_from_slice(payload);
    r.push(calc_checksum(&r[4..]));
    r.push(0x47);
    r
}

/// The frame that a made-up card holds at an address.
fn frame_of(frame: u16) -> Vec<u8> {
    (0..128u32).map(|i| (i as u16 * 3 + frame * 7 + (frame >> 8)) as u8).collect()
}

/// Runs a transfer against replies made by `card` from each command, and
/// notes the commands.
fn run(mut t: Transfer, card: &mut dyn FnMut(&[u8]) -> Vec<u8>) -> (Result<Vec<u8>, PSXError>, Vec<Vec<u8>>) {
    let mut sent = Vec::new();
    while let Some(command) = t.command() {
        assert!(!t.is_finished());
        let reply = card(&command);
        sent.push(command);
        t = t.reply(&reply);
    }
    assert!(t.is_finished());
    (t.finish().unwrap(), sent)
}

#[test]
fn status_happy_path() {
    let reply = vec![0xff, 0x08, 0x00, 0x5a, 0x5d, 0x5c, 0x5d];
    let (out, sent) = run(get_status(), &mut |_| vec![0xff, 0x08, 0x00, 0x5a, 0x5d, 0x5c, 0x5d]);
    assert_eq!(out, Ok(reply));
    assert_eq!(sent.len(), 1);
    assert_eq!(&sent[0][..2], &[0x81, 0x53]);
    assert!(sent[0][2..].iter().all(|b| *b == 0));
    assert_eq!(sent[0].len(), 256);
}

#[test]
fn status_is_not_tried_again() {
    let (out, sent) = run(get_status(), &mut |_| Vec::new());
    assert_eq!(out, Ok(Vec::new()));
    assert_eq!(sent.len(), 1);
}

#[test]
fn read_frame_0() {
    let mut reply = vec![0xff, 0x00, 0x5c, 0x5d, 0x00, 0x00];
    reply.extend_from_slice(&[0xaa; 128]);
    reply.push(0x00);
    reply.push(0x47);
    let (out, sent) = run(read_frame(0).unwrap(), &mut |_| reply.clone());
    assert_eq!(out, Ok(vec![0xaa; 128]));
    assert_eq!(sent.len(), 1);
    assert_eq!(&sent[0][..6], &[0x81, 0x52, 0x00, 0x00, 0x00, 0x00]);
    assert!(sent[0][6..].iter().all(|b| *b == 0));
}

#[test]
fn read_with_bad_checksum() {
    let mut reply = vec![0xff, 0x00, 0x5c, 0x5d, 0x00, 0x00];
    reply.extend_from_slice(&[0xaa; 128]);
    reply.push(0xaa);
    reply.push(0x47);
    let (out, sent) = run(read_frame(0).unwrap(), &mut |_| reply.clone());
    assert_eq!(out, Err(PSXError::Read));
    assert_eq!(sent.len(), 3);
    assert_eq!(sent[0], sent[1]);
    assert_eq!(sent[1], sent[2]);
}

#[test]
fn read_with_bad_trailer() {
    let mut reply = vec![0xff, 0x00, 0x5c, 0x5d, 0x00, 0x00];
    reply.extend_from_slice(&[0xaa; 128]);
    reply.push(0x00);
    reply.push(0x4e);
    let (out, sent) = run(read_frame(0).unwrap(), &mut |_| reply.clone());
    assert_eq!(out, Err(PSXError::Read));
    assert_eq!(sent.len(), 3);
}

#[test]
fn read_with_short_replies_gives_up_after_three() {
    assert_eq!(READ_ATTEMPTS, 3);
    let (out, sent) = run(read_frame(5).unwrap(), &mut |_| vec![0xff; 20]);
    assert_eq!(out, Err(PSXError::Read));
    assert_eq!(sent.len(), 3);
}

#[test]
fn read_succeeds_on_second_and_on_third_attempt() {
    for good_at in 0..3usize {
        let mut n = 0usize;
        let (out, sent) = run(read_frame(9).unwrap(), &mut |_| {
            n += 1;
            if n - 1 == good_at {
                good_reply(9, &frame_of(9))
            } else {
                vec![0u8; 256]
            }
        });
        assert_eq!(out, Ok(frame_of(9)));
        assert_eq!(sent.len(), good_at + 1);
    }
}

#[test]
fn read_frame_gives_128_bytes_for_every_frame() {
    for f in 0..=1023u16 {
        let (out, sent) = run(read_frame(f).unwrap(), &mut |_| good_reply(f, &frame_of(f)));
        let bytes = out.unwrap();
        assert_eq!(bytes.len(), 128);
        assert_eq!(bytes, frame_of(f));
        assert_eq!(&sent[0][4..6], &[(f >> 8) as u8, f as u8]);
    }
}

#[test]
fn read_frame_beyond_the_card_fails() {
    assert_eq!(read_frame(0x400).err(), Some(PSXError::FrameOfs));
    assert_eq!(read_frame(u16::MAX).err(), Some(PSXError::FrameOfs));
    assert!(read_frame(0x3ff).is_ok());
}

#[test]
fn read_at_range_must_lie_on_the_card() {
    assert_eq!(read_at(0x400, 1).err(), Some(PSXError::FrameOfs));
    assert_eq!(read_at(0x400, 0).err(), Some(PSXError::FrameOfs));
    assert_eq!(read_at(0x3ff, 2).err(), Some(PSXError::FrameOfs));
    assert_eq!(read_at(1, 0x400).err(), Some(PSXError::FrameOfs));
    assert_eq!(read_at(u16::MAX, u16::MAX).err(), Some(PSXError::FrameOfs));
    assert!(read_at(0x3ff, 1).is_ok());
    assert!(read_at(0, 0x400).is_ok());
    assert!(read_at(960, 64).is_ok());
}

#[test]
fn read_at_block_two_reads_frames_in_order() {
    let (out, sent) = run(read_at(128, 64).unwrap(), &mut |command| {
        let f = (command[4] as u16) << 8 | command[5] as u16;
        good_reply(f, &frame_of(f))
    });
    let bytes = out.unwrap();
    assert_eq!(bytes.len(), 64 * 128);
    assert_eq!(sent.len(), 64);
    for i in 0..64usize {
        let f = 128 + i as u16;
        assert_eq!(&sent[i][..6], &[0x81, 0x52, 0x00, 0x00, (f >> 8) as u8, f as u8]);
        assert_eq!(&bytes[i * 128..(i + 1) * 128], &frame_of(f)[..]);
    }
}

#[test]
fn read_at_of_no_frames_is_finished_at_once() {
    let t = read_at(17, 0).unwrap();
    assert!(t.is_finished());
    assert_eq!(t.command(), None);
    assert_eq!(t.finish(), Some(Ok(Vec::new())));
}

#[test]
fn read_at_gives_each_frame_its_own_three_attempts() {
    let mut n = 0usize;
    let (out, sent) = run(read_at(10, 3).unwrap(), &mut |command| {
        n += 1;
        let f = (command[4] as u16) << 8 | command[5] as u16;
        if n % 3 == 0 {
            good_reply(f, &frame_of(f))
        } else {
            vec![0xff; 200]
        }
    });
    assert_eq!(sent.len(), 9);
    let mut want = frame_of(10);
    want.extend_from_slice(&frame_of(11));
    want.extend_from_slice(&frame_of(12));
    assert_eq!(out, Ok(want));
}

#[test]
fn read_at_fails_where_one_frame_fails() {
    let (out, sent) = run(read_at(10, 3).unwrap(), &mut |command| {
        let f = (command[4] as u16) << 8 | command[5] as u16;
        if f == 11 {
            vec![0u8; 256]
        } else {
            good_reply(f, &frame_of(f))
        }
    });
    assert_eq!(out, Err(PSXError::Read));
    assert_eq!(sent.len(), 4);
}

#[test]
fn read_all_gives_the_whole_card() {
    let (out, sent) = run(read_all_frames(), &mut |command| {
        let f = (command[4] as u16) << 8 | command[5] as u16;
        good_reply(f, &frame_of(f))
    });
    let bytes = out.unwrap();
    assert_eq!(bytes.len(), 131072);
    assert_eq!(sent.len(), 1024);
    assert_eq!(&sent[0][4..6], &[0x00, 0x00]);
    assert_eq!(&sent[1023][4..6], &[0x03, 0xff]);
    assert_eq!(&bytes[..128], &frame_of(0)[..]);
    assert_eq!(&bytes[1023 * 128..], &frame_of(1023)[..]);
}

#[test]
fn unfinished_transfer_hands_nothing_back() {
    let t = read_frame(3).unwrap();
    assert!(!t.is_finished());
    assert_eq!(t.finish(), None);
    let w = write_frame(3, vec![1; 128]).unwrap();
    assert_eq!(w.finish(), None);
    assert_eq!(get_status().finish(), None);
}

#[test]
fn finished_transfer_takes_no_reply() {
    let t = read_frame(3).unwrap().reply(&good_reply(3, &frame_of(3)));
    assert!(t.is_finished());
    let t = t.reply(&good_reply(3, &[0u8; 128]));
    assert_eq!(t.command(), None);
    assert_eq!(t.finish(), Some(Ok(frame_of(3))));
}

#[test]
fn write_frame_sends_one_write_command() {
    let (out, sent) = run(write_frame(7, vec![0x55; 128]).unwrap(), &mut |_| vec![0xff; 138]);
    assert_eq!(out, Ok(Vec::new()));
    assert_eq!(sent.len(), 1);
    assert_eq!(&sent[0][0..2], &[0x81, 0x57]);
    assert_eq!(&sent[0][4..6], &[0x00, 0x07]);
    assert_eq!(&sent[0][6..134], &[0x55u8; 128][..]);
    assert_eq!(sent[0][134], 0x07);
}

#[test]
fn write_is_not_tried_again_whatever_the_reply() {
    let (out, sent) = run(write_frame(7, vec![0x55; 128]).unwrap(), &mut |_| Vec::new());
    assert_eq!(out, Ok(Vec::new()));
    assert_eq!(sent.len(), 1);
}

#[test]
fn write_frame_wants_128_bytes() {
    assert_eq!(write_frame(7, vec![0; 127]).err(), Some(PSXError::WriteLen));
    assert_eq!(write_frame(7, vec![0; 129]).err(), Some(PSXError::WriteLen));
    assert_eq!(write_frame(7, Vec::new()).err(), Some(PSXError::WriteLen));
    assert_eq!(write_frame(0x400, vec![0; 127]).err(), Some(PSXError::WriteLen));
}

#[test]
fn write_frame_beyond_the_card_fails() {
    assert_eq!(write_frame(0x400, vec![0; 128]).err(), Some(PSXError::FrameOfs));
    assert!(write_frame(0x3ff, vec![0; 128]).is_ok());
}

#[test]
fn write_at_wants_data_for_all_frames() {
    assert_eq!(write_at(0, 2, vec![0; 128]).err(), Some(PSXError::WriteLen));
    assert_eq!(write_at(0, 1, vec![0; 256]).err(), Some(PSXError::WriteLen));
    assert_eq!(write_at(0, 1, vec![0; 129]).err(), Some(PSXError::WriteLen));
    assert_eq!(write_at(0, 0, vec![0; 1]).err(), Some(PSXError::WriteLen));
    assert_eq!(write_at(0x400, 2, vec![0; 128]).err(), Some(PSXError::WriteLen));
    assert!(write_at(0, 2, vec![0; 256]).is_ok());
}

#[test]
fn write_at_range_must_lie_on_the_card() {
    assert_eq!(write_at(0x3ff, 2, vec![0; 256]).err(), Some(PSXError::FrameOfs));
    assert_eq!(write_at(0x400, 0, Vec::new()).err(), Some(PSXError::FrameOfs));
    assert!(write_at(0x3fe, 2, vec![0; 256]).is_ok());
}

#[test]
fn write_at_sends_chunks_in_order() {
    let data: Vec<u8> = (0..64 * 128u32).map(|i| (i % 251) as u8).collect();
    let (out, sent) = run(write_at(192, 64, data.clone()).unwrap(), &mut |_| vec![0xff; 138]);
    assert_eq!(out, Ok(Vec::new()));
    assert_eq!(sent.len(), 64);
    for i in 0..64usize {
        let f = 192 + i as u16;
        assert_eq!(&sent[i][..6], &[0x81, 0x57, 0x00, 0x00, (f >> 8) as u8, f as u8]);
        assert_eq!(&sent[i][6..134], &data[i * 128..(i + 1) * 128]);
        assert_eq!(sent[i][134], calc_checksum(&sent[i][4..134]));
        assert!(sent[i][135..].iter().all(|b| *b == 0));
    }
}

#[test]
fn write_at_of_no_frames_is_finished_at_once() {
    let t = write_at(5, 0, Vec::new()).unwrap();
    assert!(t.is_finished());
    assert_eq!(t.finish(), Some(Ok(Vec::new())));
}

#[test]
fn steps_of_a_read_with_one_retry() {
    let t = read_frame(0x2aa).unwrap();
    let (t, first) = match t.step() {
        Step::Exchange(t, command) => (t, command),
        Step::Done(_) => panic!("finished before any exchange"),
    };
    assert_eq!(&first[..6], &[0x81, 0x52, 0x00, 0x00, 0x02, 0xaa]);
    let (t, second) = match t.reply(&[0xff; 10]).step() {
        Step::Exchange(t, command) => (t, command),
        Step::Done(_) => panic!("finished after one failed attempt"),
    };
    assert_eq!(first, second);
    match t.reply(&good_reply(0x2aa, &frame_of(0x2aa))).step() {
        Step::Exchange(_, _) => panic!("asked for more after a good reply"),
        Step::Done(out) => assert_eq!(out, Ok(frame_of(0x2aa))),
    }
}

#[test]
fn steps_of_a_failed_read() {
    let mut t = read_frame(1).unwrap();
    let mut exchanges = 0;
    let out = loop {
        match t.step() {
            Step::Exchange(pending, _) => {
                exchanges += 1;
                t = pending.reply(&[]);
            }
            Step::Done(out) => break out,
        }
    };
    assert_eq!(exchanges, 3);
    assert_eq!(out, Err(PSXError::Read));
}

#[test]
fn steps_of_a_write_of_two_frames() {
    let mut data = vec![0x11u8; 128];
    data.extend_from_slice(&[0x22; 128]);
    let mut t = write_at(1022, 2, data).unwrap();
    let mut sent = Vec::new();
    let out = loop {
        match t.step() {
            Step::Exchange(pending, command) => {
                sent.push(command);
                t = pending.reply(&[0xff, 0x08]);
            }
            Step::Done(out) => break out,
        }
    };
    assert_eq!(out, Ok(Vec::new()));
    assert_eq!(sent.len(), 2);
    assert_eq!(&sent[0][4..7], &[0x03, 0xfe, 0x11]);
    assert_eq!(&sent[1][4..7], &[0x03, 0xff, 0x22]);
    assert_eq!(sent[0][134], 0x03 ^ 0xfe);
    assert_eq!(sent[1][134], 0x03 ^ 0xff);
}

#[test]
fn read_takes_the_pair_behind_a_byte_like_its_first() {
    let mut reply = vec![0xff, 0x5c, 0x5c, 0x5d];
    reply.extend_from_slice(&[0u8; 130]);
    reply.push(0x00);
    reply.push(0x47);
    let (out, sent) = run(read_frame(0).unwrap(), &mut |_| reply.clone());
    assert_eq!(out, Ok(vec![0u8; 128]));
    assert_eq!(sent.len(), 1);
}
