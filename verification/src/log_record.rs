//! Binary layout of one log record: the time stamp, a tag byte, the payload words.
//! Every multi-byte value is stored with its least significant byte first.

use vstd::prelude::*;

use crate::robotstate::{
    ImuSample, LogEvent, MotorDuty, OdomTwist, RobotPose, Setpoint, TrackingError, WheelRates,
};

verus! {

/// The four bytes of `word`, least significant first.
pub open spec fn le_bytes(word: u32) -> Seq<u8> {
    seq![
        (word % 256) as u8,
        (word / 256 % 256) as u8,
        (word / 65536 % 256) as u8,
        (word / 16777216) as u8,
    ]
}

/// The word whose least significant byte comes first in `s`.
pub open spec fn le_word(s: Seq<u8>) -> u32 {
    (s[0] + 256 * s[1] + 65536 * s[2] + 16777216 * s[3]) as u32
}

/// The bytes of all `words`, one after the other.
pub open spec fn words_bytes(words: Seq<u32>) -> Seq<u8>
    decreases words.len(),
{
    if words.len() == 0 {
        Seq::empty()
    } else {
        words_bytes(words.drop_last()) + le_bytes(words.last())
    }
}

/// The tag byte of an event.
pub open spec fn event_tag(event: LogEvent) -> u8 {
    match event {
        LogEvent::EkfState(_) => 1,
        LogEvent::Setpoint(_) => 2,
        LogEvent::WheelCmd(_) => 3,
        LogEvent::TrackingError(_) => 4,
        LogEvent::Motor(_) => 5,
        LogEvent::Encoder(_) => 6,
        LogEvent::Mocap(_) => 7,
        LogEvent::Odom(_) => 8,
        LogEvent::Imu(_) => 9,
    }
}

/// The payload of an event, in the order in which it is stored.
pub open spec fn event_words(event: LogEvent) -> Seq<u32> {
    match event {
        LogEvent::EkfState(p) => seq![p.x, p.y, p.z, p.roll, p.pitch, p.yaw],
        LogEvent::Setpoint(s) => seq![s.x_des, s.y_des, s.yaw_des, s.v_ff, s.w_ff],
        LogEvent::WheelCmd(w) => seq![w.omega_l, w.omega_r],
        LogEvent::TrackingError(e) => seq![e.x_err, e.y_err, e.yaw_err],
        LogEvent::Motor(m) => seq![m.left, m.right],
        LogEvent::Encoder(w) => seq![w.omega_l, w.omega_r],
        LogEvent::Mocap(p) => seq![p.x, p.y, p.z, p.roll, p.pitch, p.yaw],
        LogEvent::Odom(o) => seq![o.v, o.w],
        LogEvent::Imu(i) => seq![i.acc_x, i.acc_y, i.acc_z, i.gyro_x, i.gyro_y, i.gyro_z],
    }
}

/// One record as it stands in the log.
pub open spec fn record_bytes(t_ms: u32, event: LogEvent) -> Seq<u8> {
    le_bytes(t_ms) + seq![event_tag(event)] + words_bytes(event_words(event))
}

/// A list of stamped events as it stands in the log.
pub open spec fn records_bytes(records: Seq<(u32, LogEvent)>) -> Seq<u8>
    decreases records.len(),
{
    if records.len() == 0 {
        Seq::empty()
    } else {
        record_bytes(records[0].0, records[0].1) + records_bytes(records.drop_first())
    }
}

/// The bytes of one word.
pub fn word_to_bytes(word: u32) -> (bytes: Vec<u8>)
    ensures
        bytes@ == le_bytes(word),
{
    let mut bytes: Vec<u8> = Vec::new();
    bytes.push((word % 256) as u8);
    bytes.push((word / 256 % 256) as u8);
    bytes.push((word / 65536 % 256) as u8);
    bytes.push((word / 16777216) as u8);
    bytes
}

/// The bytes of a list of words.
pub fn words_to_bytes(words: &[u32]) -> (bytes: Vec<u8>)
    ensures
        bytes@ == words_bytes(words@),
{
    let mut bytes: Vec<u8> = Vec::new();
    let mut i: usize = 0;
    assert(words@.take(0) == Seq::<u32>::empty());
    while i < words.len()
        invariant
            i <= words.len(),
            bytes@ == words_bytes(words@.take(i as int)),
        decreases words.len() - i,
    {
        let mut word = word_to_bytes(words[i]);
        bytes.append(&mut word);
        assert(words@.take(i + 1).drop_last() == words@.take(i as int));
        i += 1;
    }
    assert(words@.take(i as int) == words@);
    bytes
}

/// The tag byte of an event.
pub fn tag_of(event: &LogEvent) -> (tag: u8)
    ensures
        tag == event_tag(*event),
{
    match event {
        LogEvent::EkfState(_) => 1,
        LogEvent::Setpoint(_) => 2,
        LogEvent::WheelCmd(_) => 3,
        LogEvent::TrackingError(_) => 4,
        LogEvent::Motor(_) => 5,
        LogEvent::Encoder(_) => 6,
        LogEvent::Mocap(_) => 7,
        LogEvent::Odom(_) => 8,
        LogEvent::Imu(_) => 9,
    }
}

/// The payload words of an event.
pub fn payload_of(event: &LogEvent) -> (words: Vec<u32>)
    ensures
        words@ == event_words(*event),
{
    match event {
        LogEvent::EkfState(p) => vec![p.x, p.y, p.z, p.roll, p.pitch, p.yaw],
        LogEvent::Setpoint(s) => vec![s.x_des, s.y_des, s.yaw_des, s.v_ff, s.w_ff],
        LogEvent::WheelCmd(w) => vec![w.omega_l, w.omega_r],
        LogEvent::TrackingError(e) => vec![e.x_err, e.y_err, e.yaw_err],
        LogEvent::Motor(m) => vec![m.left, m.right],
        LogEvent::Encoder(w) => vec![w.omega_l, w.omega_r],
        LogEvent::Mocap(p) => vec![p.x, p.y, p.z, p.roll, p.pitch, p.yaw],
        LogEvent::Odom(o) => vec![o.v, o.w],
        LogEvent::Imu(i) => vec![i.acc_x, i.acc_y, i.acc_z, i.gyro_x, i.gyro_y, i.gyro_z],
    }
}

/// How many payload words a tag announces; a tag that is not in use announces none.
pub open spec fn tag_word_count(tag: u8) -> nat {
    if tag == 1 || tag == 7 || tag == 9 {
        6
    } else if tag == 2 {
        5
    } else if tag == 4 {
        3
    } else if tag == 3 || tag == 5 || tag == 6 || tag == 8 {
        2
    } else {
        0
    }
}

/// The event that a tag and its payload words stand for.
pub open spec fn event_from_words(tag: u8, w: Seq<u32>) -> Option<LogEvent> {
    if tag == 1 {
        Some(LogEvent::EkfState(pose_from_words(w)))
    } else if tag == 2 {
        Some(
            LogEvent::Setpoint(
                Setpoint { x_des: w[0], y_des: w[1], yaw_des: w[2], v_ff: w[3], w_ff: w[4] },
            ),
        )
    } else if tag == 3 {
        Some(LogEvent::WheelCmd(WheelRates { omega_l: w[0], omega_r: w[1] }))
    } else if tag == 4 {
        Some(LogEvent::TrackingError(TrackingError { x_err: w[0], y_err: w[1], yaw_err: w[2] }))
    } else if tag == 5 {
        Some(LogEvent::Motor(MotorDuty { left: w[0], right: w[1] }))
    } else if tag == 6 {
        Some(LogEvent::Encoder(WheelRates { omega_l: w[0], omega_r: w[1] }))
    } else if tag == 7 {
        Some(LogEvent::Mocap(pose_from_words(w)))
    } else if tag == 8 {
        Some(LogEvent::Odom(OdomTwist { v: w[0], w: w[1] }))
    } else if tag == 9 {
        Some(
            LogEvent::Imu(
                ImuSample {
                    acc_x: w[0],
                    acc_y: w[1],
                    acc_z: w[2],
                    gyro_x: w[3],
                    gyro_y: w[4],
                    gyro_z: w[5],
                },
            ),
        )
    } else {
        None
    }
}

/// The pose that six words stand for.
pub open spec fn pose_from_words(w: Seq<u32>) -> RobotPose {
    RobotPose { x: w[0], y: w[1], z: w[2], roll: w[3], pitch: w[4], yaw: w[5] }
}

/// The first `n` words stored in `s`.
pub open spec fn words_at_front(s: Seq<u8>, n: nat) -> Seq<u32> {
    Seq::new(n, |i: int| le_word(s.subrange(4 * i, 4 * i + 4)))
}

/// Reads one record off the front of a log: its time stamp, its event and how many bytes it takes.
pub open spec fn read_record(s: Seq<u8>) -> Option<(u32, LogEvent, nat)> {
    if s.len() < 5 {
        None
    } else {
        let tag = s[4];
        let n = tag_word_count(tag);
        let body = s.skip(5);
        if body.len() < 4 * n {
            None
        } else {
            match event_from_words(tag, words_at_front(body, n)) {
                Some(event) => Some((le_word(s.take(4)), event, 5 + 4 * n)),
                None => None,
            }
        }
    }
}

/// Reads a whole log; `None` where it is not a list of complete records.
pub open spec fn read_records(s: Seq<u8>) -> Option<Seq<(u32, LogEvent)>>
    decreases s.len(),
{
    if s.len() == 0 {
        Some(Seq::empty())
    } else {
        match read_record(s) {
            Some((t_ms, event, used)) => if 0 < used <= s.len() {
                match read_records(s.skip(used as int)) {
                    Some(rest) => Some(seq![(t_ms, event)] + rest),
                    None => None,
                }
            } else {
                None
            },
            None => None,
        }
    }
}

/// A word survives being stored byte by byte.
pub proof fn law_word_reads_back(word: u32)
    ensures
        le_bytes(word).len() == 4,
        le_word(le_bytes(word)) == word,
{
    let a = word % 256;
    let b = word / 256 % 256;
    let c = word / 65536 % 256;
    let d = word / 16777216;
    assert(a + 256 * b + 65536 * c + 16777216 * d == word);
}

proof fn lemma_words_bytes_layout(words: Seq<u32>)
    ensures
        words_bytes(words).len() == 4 * words.len(),
        forall|i: int|
            #![trigger words[i]]
            0 <= i < words.len() ==> words_bytes(words).subrange(4 * i, 4 * i + 4) == le_bytes(
                words[i],
            ),
    decreases words.len(),
{
    if words.len() > 0 {
        let front = words.drop_last();
        lemma_words_bytes_layout(front);
        assert forall|i: int|
            #![trigger words[i]]
            0 <= i < words.len() implies words_bytes(words).subrange(4 * i, 4 * i + 4) == le_bytes(
            words[i],
        ) by {
            if i < front.len() {
                assert(front[i] == words[i]);
                assert(words_bytes(words).subrange(4 * i, 4 * i + 4) == words_bytes(
                    front,
                ).subrange(4 * i, 4 * i + 4));
            } else {
                assert(words_bytes(words).subrange(4 * i, 4 * i + 4) == le_bytes(words.last()));
            }
        }
    }
}

proof fn lemma_words_read_back(words: Seq<u32>, rest: Seq<u8>)
    ensures
        words_at_front(words_bytes(words) + rest, words.len()) == words,
{
    lemma_words_bytes_layout(words);
    let s = words_bytes(words) + rest;
    assert forall|i: int| 0 <= i < words.len() implies #[trigger] words_at_front(
        s,
        words.len(),
    )[i] == words[i] by {
        law_word_reads_back(words[i]);
        assert(s.subrange(4 * i, 4 * i + 4) == words_bytes(words).subrange(4 * i, 4 * i + 4));
    }
}

/// A record's length is fixed by its tag: five bytes and four per payload word.
pub proof fn law_record_length(t_ms: u32, event: LogEvent)
    ensures
        event_words(event).len() == tag_word_count(event_tag(event)),
        record_bytes(t_ms, event).len() == 5 + 4 * tag_word_count(event_tag(event)),
{
    lemma_words_bytes_layout(event_words(event));
}

/// Whatever follows a record in the log, the record reads back as the event that was logged.
pub proof fn law_record_reads_back(t_ms: u32, event: LogEvent, rest: Seq<u8>)
    ensures
        read_record(record_bytes(t_ms, event) + rest) == Some(
            (t_ms, event, record_bytes(t_ms, event).len()),
        ),
{
    let record = record_bytes(t_ms, event);
    let s = record + rest;
    let words = event_words(event);
    law_record_length(t_ms, event);
    law_word_reads_back(t_ms);
    assert(s.take(4) == le_bytes(t_ms));
    assert(s[4] == event_tag(event));
    assert(s.skip(5) == words_bytes(words) + rest);
    lemma_words_read_back(words, rest);
    assert(event_from_words(event_tag(event), words) == Some(event));
}

/// No two different stamped events share a record.
pub proof fn law_record_is_unambiguous(t1: u32, e1: LogEvent, t2: u32, e2: LogEvent)
    requires
        record_bytes(t1, e1) == record_bytes(t2, e2),
    ensures
        t1 == t2,
        e1 == e2,
{
    law_record_reads_back(t1, e1, Seq::empty());
    law_record_reads_back(t2, e2, Seq::empty());
}

/// A log reads back as the list of events that was written to it.
pub proof fn law_log_reads_back(records: Seq<(u32, LogEvent)>)
    ensures
        read_records(records_bytes(records)) == Some(records),
    decreases records.len(),
{
    if records.len() > 0 {
        let head = record_bytes(records[0].0, records[0].1);
        let rest = records_bytes(records.drop_first());
        law_log_reads_back(records.drop_first());
        law_record_length(records[0].0, records[0].1);
        law_record_reads_back(records[0].0, records[0].1, rest);
        assert((head + rest).skip(head.len() as int) == rest);
        assert(seq![records[0]] + records.drop_first() == records);
    }
}

/// A word is stored with its least significant byte first.
pub proof fn law_least_significant_byte_first(word: u32)
    ensures
        le_bytes(word).len() == 4,
        word == le_bytes(word)[0] + 256 * le_bytes(word)[1] + 65536 * le_bytes(word)[2] + 16777216
            * le_bytes(word)[3],
{
}

/// Where everything stands in a record: the time stamp first, the tag behind it, then the payload
/// words, one after the other.
pub proof fn law_record_layout(t_ms: u32, event: LogEvent, i: int)
    requires
        0 <= i < event_words(event).len(),
    ensures
        record_bytes(t_ms, event).take(4) == le_bytes(t_ms),
        record_bytes(t_ms, event)[4] == event_tag(event),
        record_bytes(t_ms, event).subrange(5 + 4 * i, 9 + 4 * i) == le_bytes(event_words(event)[i]),
{
    let record = record_bytes(t_ms, event);
    let words = event_words(event);
    lemma_words_bytes_layout(words);
    assert(record.take(4) == le_bytes(t_ms));
    assert(words[i] == words[i]);
    assert(record.subrange(5 + 4 * i, 9 + 4 * i) == words_bytes(words).subrange(4 * i, 4 * i + 4));
}

/// The payload of a pose is position, then attitude; that of a setpoint is the pose, then the
/// twist; pairs of wheels have the left one first; an inertial sample has accelerations, then
/// rates. The order of the axes is x, y, z, or roll, pitch, yaw.
pub proof fn law_payload_order(event: LogEvent)
    ensures
        ({
            let w = event_words(event);
            match event {
                LogEvent::EkfState(p) | LogEvent::Mocap(p) => {
                    &&& (w[0], w[1], w[2]) == (p.x, p.y, p.z)
                    &&& (w[3], w[4], w[5]) == (p.roll, p.pitch, p.yaw)
                },
                LogEvent::Setpoint(s) => {
                    &&& (w[0], w[1], w[2]) == (s.x_des, s.y_des, s.yaw_des)
                    &&& (w[3], w[4]) == (s.v_ff, s.w_ff)
                },
                LogEvent::WheelCmd(r) | LogEvent::Encoder(r) => (w[0], w[1]) == (
                    r.omega_l,
                    r.omega_r,
                ),
                LogEvent::TrackingError(e) => (w[0], w[1], w[2]) == (e.x_err, e.y_err, e.yaw_err),
                LogEvent::Motor(m) => (w[0], w[1]) == (m.left, m.right),
                LogEvent::Odom(o) => (w[0], w[1]) == (o.v, o.w),
                LogEvent::Imu(s) => {
                    &&& (w[0], w[1], w[2]) == (s.acc_x, s.acc_y, s.acc_z)
                    &&& (w[3], w[4], w[5]) == (s.gyro_x, s.gyro_y, s.gyro_z)
                },
            }
        }),
{
}

} // verus!
