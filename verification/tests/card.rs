use pololu3pi2040_rs::gain_mlp_store::{
    gain_mlp, inner_gain_scales, register_gain_mlp, reset_inner_gain_scales, set_inner_gain_scales,
    store_gain_mlp, GainMlpCell, GainMlpRef, InnerGainScales,
};
use pololu3pi2040_rs::sd_init::{
    InitAction, InitEvent, InitStage, SdError, SdInit, GAIN_MLP_FILE, SCRATCH_LEN, TRAJECTORY_FILE,
};
use pololu3pi2040_rs::sd_logging::{LogTask, LogTaskAction, LogTaskEvent};
use static_cell::StaticCell;

#[test]
fn card_comes_up_with_everything_on_it() {
    assert_eq!(TRAJECTORY_FILE, "TRJ0001.JSN");
    assert_eq!(GAIN_MLP_FILE, "GAINMLP.JSN");
    let (mut init, action) = SdInit::begin();
    assert_eq!(action, InitAction::OpenVolume);
    assert_eq!(init.step(InitEvent::Worked), InitAction::OpenRootDir);
    assert_eq!(init.step(InitEvent::Worked), InitAction::MeasureTrajectory);
    assert_eq!(init.step(InitEvent::Len(48 * 1024)), InitAction::LoadTrajectory);
    assert_eq!(init.step(InitEvent::Worked), InitAction::RegisterTrajectory);
    assert_eq!(init.step(InitEvent::Worked), InitAction::LoadConfig);
    assert_eq!(init.step(InitEvent::Worked), InitAction::MeasureGainMlp);
    assert_eq!(init.step(InitEvent::Len(10)), InitAction::ReadGainMlp);
    assert_eq!(init.step(InitEvent::Read(10)), InitAction::ParseGainMlp { len: 10 });
    assert_eq!(init.step(InitEvent::Worked), InitAction::RegisterGainMlp);
    assert_eq!(init.step(InitEvent::Worked), InitAction::Finish);
    assert_eq!(init.stage, InitStage::Done);
}

#[test]
fn card_comes_up_with_nothing_on_it() {
    let (mut init, _) = SdInit::begin();
    init.step(InitEvent::Worked);
    assert_eq!(init.step(InitEvent::Worked), InitAction::MeasureTrajectory);
    assert_eq!(init.step(InitEvent::Failed), InitAction::LoadConfig);
    assert_eq!(init.step(InitEvent::Failed), InitAction::MeasureGainMlp);
    assert_eq!(init.step(InitEvent::Failed), InitAction::Finish);
}

#[test]
fn files_too_large_for_the_scratch_are_passed_over() {
    assert_eq!(SCRATCH_LEN, 48 * 1024);
    let mut trajectory = SdInit { stage: InitStage::TrajectoryLen };
    assert_eq!(trajectory.step(InitEvent::Len(48 * 1024 + 1)), InitAction::LoadConfig);
    let mut network = SdInit { stage: InitStage::GainMlpLen };
    assert_eq!(network.step(InitEvent::Len(48 * 1024 + 1)), InitAction::Finish);
}

#[test]
fn files_that_do_not_parse_are_passed_over() {
    let mut trajectory = SdInit { stage: InitStage::TrajectoryLoad };
    assert_eq!(trajectory.step(InitEvent::Failed), InitAction::LoadConfig);
    let mut unread = SdInit { stage: InitStage::GainMlpRead };
    assert_eq!(unread.step(InitEvent::Failed), InitAction::Finish);
    let mut unparsed = SdInit { stage: InitStage::GainMlpParse };
    assert_eq!(unparsed.step(InitEvent::Failed), InitAction::Finish);
}

#[test]
fn card_without_a_file_system_is_refused() {
    let (mut init, _) = SdInit::begin();
    assert_eq!(init.step(InitEvent::Failed), InitAction::Fail(SdError::NoCardOrInitFail));
    assert_eq!(init.stage, InitStage::Done);
    let (mut init, _) = SdInit::begin();
    init.step(InitEvent::Worked);
    assert_eq!(init.step(InitEvent::Failed), InitAction::Fail(SdError::OpenRoot));
    assert_eq!(init.stage, InitStage::Done);
}

#[test]
fn log_task_empties_the_queue_on_every_tick() {
    let (mut task, action) = LogTask::begin();
    assert_eq!(action, LogTaskAction::Delay { ms: 507 });
    assert_eq!(task.step(LogTaskEvent::Started), LogTaskAction::AwaitTick);
    for queued in [0, 1, 3] {
        assert_eq!(task.step(LogTaskEvent::Tick), LogTaskAction::Receive);
        for _ in 0..queued {
            assert_eq!(task.step(LogTaskEvent::Received), LogTaskAction::Record);
            assert_eq!(task.step(LogTaskEvent::Recorded), LogTaskAction::Receive);
        }
        assert_eq!(task.step(LogTaskEvent::QueueEmpty), LogTaskAction::AwaitTick);
    }
}

#[test]
fn log_task_writes_the_rest_and_flushes_before_it_exits() {
    let (mut task, _) = LogTask::begin();
    task.step(LogTaskEvent::Started);
    let mut queue = vec![3, 2, 1];
    let mut written = Vec::new();
    let mut action = task.step(LogTaskEvent::Stop);
    let mut taken = 0;
    while action != LogTaskAction::Flush {
        action = if action == LogTaskAction::Record {
            written.push(taken);
            task.step(LogTaskEvent::Recorded)
        } else if let Some(event) = queue.pop() {
            taken = event;
            task.step(LogTaskEvent::Received)
        } else {
            task.step(LogTaskEvent::QueueEmpty)
        };
    }
    assert_eq!(written, vec![1, 2, 3]);
    assert_eq!(task.step(LogTaskEvent::Flushed), LogTaskAction::Exit);
}

#[test]
fn a_network_is_stored_once_and_registered() {
    let cell: &'static mut StaticCell<u32> = Box::leak(Box::new(StaticCell::new()));
    let mut place = GainMlpCell::new(cell);
    assert!(place.is_free());
    assert!(place.stored.is_none());
    let mut slot = GainMlpRef::new();
    let stored = store_gain_mlp(&mut place, 17);
    assert_eq!(*stored, 17);
    assert!(!place.is_free());
    assert!(core::ptr::eq(place.stored.unwrap(), stored));
    assert!(gain_mlp(&slot).is_none());
    register_gain_mlp(&mut slot, stored);
    assert_eq!(gain_mlp(&slot), Some(&17));
}

#[test]
fn inner_gain_scales_are_one_until_set() {
    let one = 1.0f32.to_bits();
    let mut scales = InnerGainScales::new();
    assert_eq!(inner_gain_scales(&scales), (one, one));
    set_inner_gain_scales(&mut scales, 0.5f32.to_bits(), 2.0f32.to_bits());
    assert_eq!(inner_gain_scales(&scales), (0.5f32.to_bits(), 2.0f32.to_bits()));
    reset_inner_gain_scales(&mut scales);
    assert_eq!(inner_gain_scales(&scales), (one, one));
}
