use pololu3pi2040_rs::log_blocks::BLOCK_LEN;
use pololu3pi2040_rs::log_file::{slot_name, slot_short_name, LogFileSearch, SearchStep};
use pololu3pi2040_rs::log_record::{payload_of, tag_of, word_to_bytes, words_to_bytes};
use pololu3pi2040_rs::robotstate::{
    ImuSample, LogEvent, MotorDuty, OdomTwist, RobotPose, Setpoint, TrackingError, WheelRates,
};
use pololu3pi2040_rs::sdlog::{DummyClock, ReadAction, ReadEvent, SdLogger};

fn pose(first: u32) -> RobotPose {
    RobotPose {
        x: first,
        y: first + 1,
        z: first + 2,
        roll: first + 3,
        pitch: first + 4,
        yaw: first + 5,
    }
}

fn all_events() -> Vec<LogEvent> {
    vec![
        LogEvent::EkfState(pose(1)),
        LogEvent::Setpoint(Setpoint { x_des: 1, y_des: 2, yaw_des: 3, v_ff: 4, w_ff: 5 }),
        LogEvent::WheelCmd(WheelRates { omega_l: 1, omega_r: 2 }),
        LogEvent::TrackingError(TrackingError { x_err: 1, y_err: 2, yaw_err: 3 }),
        LogEvent::Motor(MotorDuty { left: 1, right: 2 }),
        LogEvent::Encoder(WheelRates { omega_l: 1, omega_r: 2 }),
        LogEvent::Mocap(pose(1)),
        LogEvent::Odom(OdomTwist { v: 1, w: 2 }),
        LogEvent::Imu(ImuSample { acc_x: 1, acc_y: 2, acc_z: 3, gyro_x: 4, gyro_y: 5, gyro_z: 6 }),
    ]
}

fn held(logger: &SdLogger<u8>) -> Vec<u8> {
    logger.write_buf[..logger.write_len].to_vec()
}

fn open_logger() -> SdLogger<u8> {
    let mut logger: SdLogger<u8> = SdLogger::new();
    let (magic, flush_file) = logger.file_created(1);
    assert_eq!(magic, vec![0xAA, 0xBB, 0xCC, 0xDD]);
    assert!(flush_file);
    logger
}

#[test]
fn slot_names_are_two_letters_and_two_digits() {
    assert_eq!(slot_name(0).as_str(), "TR00");
    assert_eq!(slot_name(7).as_str(), "TR07");
    assert_eq!(slot_name(99).as_str(), "TR99");
    let name = slot_short_name(42).unwrap();
    assert_eq!(name.base, b"TR42".to_vec());
    assert!(name.extension.is_empty());
}

#[test]
fn slot_names_all_differ() {
    let mut names: Vec<Vec<u8>> = (0..100u8).map(|slot| slot_short_name(slot).unwrap().base).collect();
    names.sort();
    names.dedup();
    assert_eq!(names.len(), 100);
}

#[test]
fn search_settles_on_the_first_free_slot() {
    let mut logger: SdLogger<u8> = SdLogger::new();
    logger.file_created(9);
    let mut search = logger.open_new_file();
    assert!(logger.file.is_none());
    assert_eq!(search, LogFileSearch { slot: 0 });
    assert!(matches!(search.start(), SearchStep::Probe(name) if name.base == b"TR00".to_vec()));
    assert!(matches!(search.probed(true), SearchStep::Probe(name) if name.base == b"TR01".to_vec()));
    assert!(matches!(search.probed(true), SearchStep::Probe(name) if name.base == b"TR02".to_vec()));
    assert!(matches!(search.probed(false), SearchStep::Create(name) if name.base == b"TR02".to_vec()));
}

#[test]
fn search_gives_up_when_every_slot_is_taken() {
    let mut search = LogFileSearch::new();
    assert!(matches!(search.start(), SearchStep::Probe(_)));
    for _ in 0..99 {
        assert!(matches!(search.probed(true), SearchStep::Probe(_)));
    }
    assert!(matches!(search.probed(true), SearchStep::NoFreeSlot));
}

#[test]
fn last_slot_can_be_used() {
    let mut search = LogFileSearch { slot: 99 };
    assert!(matches!(search.start(), SearchStep::Probe(name) if name.base == b"TR99".to_vec()));
    assert!(matches!(search.probed(false), SearchStep::Create(name) if name.base == b"TR99".to_vec()));
}

#[test]
fn words_are_stored_least_significant_byte_first() {
    assert_eq!(word_to_bytes(0x0403_0201), vec![1, 2, 3, 4]);
    assert_eq!(words_to_bytes(&[0x0403_0201, 0xFFEE_DDCC]), vec![1, 2, 3, 4, 0xCC, 0xDD, 0xEE, 0xFF]);
    for word in [0u32, 1, 255, 256, 0x7FFF_FFFF, 0x8000_0000, u32::MAX] {
        assert_eq!(word_to_bytes(word), word.to_le_bytes().to_vec());
    }
    assert_eq!(word_to_bytes(1.5f32.to_bits()), 1.5f32.to_le_bytes().to_vec());
}

#[test]
fn tags_and_payloads_follow_the_layout() {
    let lens = [6, 5, 2, 3, 2, 2, 6, 2, 6];
    for (i, event) in all_events().iter().enumerate() {
        assert_eq!(tag_of(event) as usize, i + 1);
        let expected: Vec<u32> = (1..=lens[i]).collect();
        assert_eq!(payload_of(event), expected);
    }
}

#[test]
fn records_are_stamp_tag_and_words() {
    let mut logger = open_logger();
    let event = LogEvent::Odom(OdomTwist { v: 0x3F80_0000, w: 0xC000_0000 });
    let blocks = logger.log_event_compact(0x0102_0304, &event);
    assert!(blocks.is_empty());
    assert_eq!(held(&logger), vec![4, 3, 2, 1, 8, 0, 0, 0x80, 0x3F, 0, 0, 0, 0xC0]);
}

#[test]
fn a_record_leaves_the_rest_of_the_buffer_alone() {
    let mut logger: SdLogger<u8> = SdLogger::new();
    assert_eq!(logger.write_buf, [0u8; 512]);
    let event = LogEvent::TrackingError(TrackingError {
        x_err: 1.0f32.to_bits(),
        y_err: (-2.0f32).to_bits(),
        yaw_err: 0.5f32.to_bits(),
    });
    assert!(logger.log_event_compact(1000, &event).is_empty());
    let record =
        [0xE8, 0x03, 0, 0, 4, 0, 0, 0x80, 0x3F, 0, 0, 0, 0xC0, 0, 0, 0, 0x3F];
    assert_eq!(logger.write_len, 17);
    assert_eq!(logger.write_buf[..17], record);
    assert!(logger.write_buf[17..].iter().all(|byte| *byte == 0));
    assert!(logger.file.is_none());
}

#[test]
fn behind_what_is_held_back_stands_the_last_block() {
    let mut logger = open_logger();
    logger.write_buffered(&[1; 512]);
    logger.write_buffered(&[2; 514]);
    assert_eq!(logger.write_len, 2);
    assert_eq!(logger.write_buf, [2u8; 512]);
    logger.write_buffered(&[3; 10]);
    assert_eq!(logger.write_buf[..13], [2, 2, 3, 3, 3, 3, 3, 3, 3, 3, 3, 3, 2]);
    let buffer = logger.write_buf;
    assert_eq!(logger.flush_buffer().unwrap().len(), 12);
    assert_eq!(logger.write_buf, buffer);
}

#[test]
fn a_full_buffer_can_be_flushed() {
    let mut logger = open_logger();
    logger.write_buf = [7; 512];
    logger.write_len = 512;
    assert_eq!(logger.flush(), (Some(vec![7; 512]), true));
    assert_eq!(logger.write_len, 0);
}

#[test]
fn every_kind_of_record_has_its_length() {
    let lens = [29, 25, 13, 17, 13, 13, 29, 13, 29];
    for (i, event) in all_events().iter().enumerate() {
        let mut logger = open_logger();
        logger.log_event_compact(7, event);
        assert_eq!(held(&logger).len(), lens[i]);
        assert_eq!(held(&logger)[..5].to_vec(), vec![7, 0, 0, 0, i as u8 + 1]);
    }
}

/// Reads a log back record by record.
fn read_log(mut bytes: &[u8]) -> Vec<(u32, u8, Vec<u32>)> {
    let counts = [0usize, 6, 5, 2, 3, 2, 2, 6, 2, 6];
    let mut records = Vec::new();
    while !bytes.is_empty() {
        let t_ms = u32::from_le_bytes([bytes[0], bytes[1], bytes[2], bytes[3]]);
        let tag = bytes[4];
        let n = counts[tag as usize];
        let words = (0..n)
            .map(|i| {
                let at = 5 + 4 * i;
                u32::from_le_bytes([bytes[at], bytes[at + 1], bytes[at + 2], bytes[at + 3]])
            })
            .collect();
        records.push((t_ms, tag, words));
        bytes = &bytes[5 + 4 * n..];
    }
    records
}

#[test]
fn logged_events_read_back_from_the_file() {
    let mut logger = open_logger();
    let mut file = Vec::new();
    let mut expected = Vec::new();
    for t_ms in 0..40u32 {
        for event in all_events() {
            for block in logger.log_event_compact(t_ms, &event) {
                assert_eq!(block.len(), BLOCK_LEN);
                file.extend(block);
            }
            expected.push((t_ms, tag_of(&event), payload_of(&event)));
        }
    }
    let (rest, flush_file) = logger.flush();
    assert!(flush_file);
    file.extend(rest.unwrap());
    assert_eq!(file.len(), 40 * (29 + 25 + 13 + 17 + 13 + 13 + 29 + 13 + 29));
    assert_eq!(read_log(&file), expected);
}

#[test]
fn blocks_do_not_depend_on_how_the_stream_is_cut() {
    let stream: Vec<u8> = (0..2000u32).map(|i| (i % 251) as u8).collect();
    let mut whole = open_logger();
    let at_once = whole.write_buffered(&stream);
    for cut in [1usize, 7, 511, 512, 513, 1999] {
        let mut logger = open_logger();
        let mut blocks = Vec::new();
        for part in stream.chunks(cut) {
            blocks.extend(logger.write_buffered(part));
        }
        assert_eq!(blocks, at_once);
        assert_eq!(held(&logger), held(&whole));
    }
    assert_eq!(at_once.len(), 3);
    assert_eq!(held(&whole).len(), 2000 - 3 * 512);
    let mut joined: Vec<u8> = at_once.concat();
    joined.extend(held(&whole));
    assert_eq!(joined, stream);
}

#[test]
fn a_full_block_leaves_nothing_behind() {
    let mut logger = open_logger();
    assert!(logger.write_buffered(&[1; 511]).is_empty());
    let blocks = logger.write_buffered(&[2]);
    assert_eq!(blocks.len(), 1);
    assert_eq!(blocks[0][510..].to_vec(), vec![1, 2]);
    assert_eq!(logger.write_len, 0);
    assert!(logger.write_buffered(&[]).is_empty());
}

#[test]
fn without_a_file_blocks_are_dropped() {
    let mut logger: SdLogger<u8> = SdLogger::new();
    assert!(logger.write_buffered(&[3; 600]).is_empty());
    assert_eq!(logger.write_len, 88);
    assert_eq!(logger.flush_buffer(), None);
    assert_eq!(logger.write_len, 0);
    assert_eq!(logger.flush(), (None, false));
    assert_eq!(logger.write(&[1, 2]), None);
}

#[test]
fn flushing_hands_over_what_is_held_back() {
    let mut logger = open_logger();
    assert_eq!(logger.flush_buffer(), None);
    assert_eq!(logger.flush(), (None, true));
    logger.write_buffered(&[5, 6, 7]);
    assert_eq!(logger.flush_buffer(), Some(vec![5, 6, 7]));
    logger.write_buffered(&[8]);
    assert_eq!(logger.flush(), (Some(vec![8]), true));
    assert_eq!(logger.write_len, 0);
}

#[test]
fn direct_writes_pass_the_buffer() {
    let mut logger = open_logger();
    logger.write_buffered(&[1]);
    assert_eq!(logger.write(&[2, 3]), Some(&[2u8, 3][..]));
    assert_eq!(held(&logger), vec![1]);
}

#[test]
fn closing_keeps_what_is_held_back() {
    let mut logger = open_logger();
    logger.write_buffered(&[1, 2]);
    logger.close_file();
    assert!(logger.file.is_none());
    assert_eq!(held(&logger), vec![1, 2]);
    logger.close_file();
    assert!(logger.file.is_none());
}

#[test]
fn printing_goes_chunk_by_chunk() {
    let logger = open_logger();
    assert_eq!(logger.read_all(ReadEvent::Begin), ReadAction::SeekToStart);
    assert_eq!(logger.read_all(ReadEvent::Sought { ok: true }), ReadAction::TestEnd);
    assert_eq!(logger.read_all(ReadEvent::Sought { ok: false }), ReadAction::Finish);
    assert_eq!(logger.read_all(ReadEvent::Tested { at_end: false }), ReadAction::ReadChunk);
    assert_eq!(logger.read_all(ReadEvent::Chunk { n: 27 }), ReadAction::Print { n: 27 });
    assert_eq!(logger.read_all(ReadEvent::Chunk { n: 0 }), ReadAction::TestEnd);
    assert_eq!(logger.read_all(ReadEvent::Printed), ReadAction::TestEnd);
    assert_eq!(logger.read_all(ReadEvent::ReadFailed), ReadAction::Finish);
    assert_eq!(logger.read_all(ReadEvent::Tested { at_end: true }), ReadAction::Finish);
    let closed: SdLogger<u8> = SdLogger::new();
    assert_eq!(closed.read_all(ReadEvent::Begin), ReadAction::Finish);
}

/// Prints a file that is read in chunks of these sizes, until a read fails.
fn print_file(logger: &SdLogger<u8>, file: &[u8], sizes: &[usize]) -> Vec<u8> {
    let mut printed = Vec::new();
    let mut at = 0;
    let mut chunks = sizes.iter();
    let mut action = logger.read_all(ReadEvent::Begin);
    loop {
        let event = match action {
            ReadAction::SeekToStart => ReadEvent::Sought { ok: true },
            ReadAction::TestEnd => ReadEvent::Tested { at_end: at == file.len() },
            ReadAction::ReadChunk => match chunks.next() {
                Some(n) => ReadEvent::Chunk { n: *n },
                None => ReadEvent::ReadFailed,
            },
            ReadAction::Print { n } => {
                printed.extend(&file[at..at + n]);
                at += n;
                ReadEvent::Printed
            }
            ReadAction::Finish => return printed,
        };
        action = logger.read_all(event);
    }
}

#[test]
fn printing_shows_the_whole_file() {
    let logger = open_logger();
    let file: Vec<u8> = (0..60).collect();
    assert_eq!(print_file(&logger, &file, &[27, 27, 6]), file);
    assert_eq!(print_file(&logger, &file, &[1, 0, 26, 27, 6]), file);
    assert_eq!(print_file(&logger, &file, &[27, 3]), file[..30].to_vec());
    assert!(print_file(&logger, &[], &[]).is_empty());
}

#[test]
fn the_clock_shows_the_epoch() {
    let stamp = DummyClock.get_timestamp();
    assert_eq!(stamp.year_since_1970, 0);
    assert_eq!(stamp.zero_indexed_month, 0);
    assert_eq!(stamp.zero_indexed_day, 0);
    assert_eq!((stamp.hours, stamp.minutes, stamp.seconds), (0, 0, 0));
}
