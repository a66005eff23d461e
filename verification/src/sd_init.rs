//! Bringing up the SD card: opening the file system, then loading the trajectory, the robot
//! configuration and the gain network.

use vstd::prelude::*;

verus! {

/// Name of the file that holds the trajectory.
pub const TRAJECTORY_FILE: &'static str = "TRJ0001.JSN";

/// Name of the file that holds the gain network.
pub const GAIN_MLP_FILE: &'static str = "GAINMLP.JSN";

/// Bytes of scratch memory that a file is read into.
pub const SCRATCH_LEN: usize = 49152;

/// Why the card cannot be used.
#[derive(Clone, Copy, Debug, PartialEq, Eq, Structural)]
pub enum SdError {
    NoCardOrInitFail,
    OpenVolume,
    OpenRoot,
    FileCreate,
    NoFreeSlot,
    BadShortName,
}

/// What bringing up the card waits for.
#[derive(Clone, Copy, Debug, PartialEq, Eq, Structural)]
pub enum InitStage {
    Volume,
    Root,
    TrajectoryLen,
    TrajectoryLoad,
    TrajectoryRegister,
    Config,
    GainMlpLen,
    GainMlpRead,
    GainMlpParse,
    GainMlpRegister,
    Done,
}

/// How the last action went.
#[derive(Clone, Copy, Debug, PartialEq, Eq, Structural)]
pub enum InitEvent {
    /// It worked.
    Worked,
    /// It did not.
    Failed,
    /// The file has this many bytes.
    Len(u32),
    /// This many bytes were read.
    Read(usize),
}

/// What bringing up the card asks for.
#[derive(Clone, Copy, Debug, PartialEq, Eq, Structural)]
pub enum InitAction {
    OpenVolume,
    OpenRootDir,
    MeasureTrajectory,
    LoadTrajectory,
    RegisterTrajectory,
    LoadConfig,
    MeasureGainMlp,
    ReadGainMlp,
    /// Parse this many bytes of the scratch memory.
    ParseGainMlp { len: usize },
    RegisterGainMlp,
    /// The logger is ready.
    Finish,
    /// The card cannot be used.
    Fail(SdError),
}

/// Whether an event can end what a stage waits for. No more is read than the scratch memory holds.
pub open spec fn accepts(stage: InitStage, event: InitEvent) -> bool {
    match stage {
        InitStage::TrajectoryLen | InitStage::GainMlpLen => event is Len || event is Failed,
        InitStage::GainMlpRead => event is Failed || (event is Read && event->Read_0
            <= SCRATCH_LEN),
        InitStage::Done => false,
        _ => event is Worked || event is Failed,
    }
}

/// The stage after `stage` and the action that leads there. Without a file system there is no
/// logger; everything else on the card is optional, and a file that does not fit into the scratch
/// memory is passed over.
pub open spec fn init_next(stage: InitStage, event: InitEvent) -> (InitStage, InitAction) {
    match stage {
        InitStage::Volume => if event is Worked {
            (InitStage::Root, InitAction::OpenRootDir)
        } else {
            (InitStage::Done, InitAction::Fail(SdError::NoCardOrInitFail))
        },
        InitStage::Root => if event is Worked {
            (InitStage::TrajectoryLen, InitAction::MeasureTrajectory)
        } else {
            (InitStage::Done, InitAction::Fail(SdError::OpenRoot))
        },
        InitStage::TrajectoryLen => match event {
            InitEvent::Len(len) if len <= SCRATCH_LEN => (
                InitStage::TrajectoryLoad,
                InitAction::LoadTrajectory,
            ),
            _ => (InitStage::Config, InitAction::LoadConfig),
        },
        InitStage::TrajectoryLoad => if event is Worked {
            (InitStage::TrajectoryRegister, InitAction::RegisterTrajectory)
        } else {
            (InitStage::Config, InitAction::LoadConfig)
        },
        InitStage::TrajectoryRegister => (InitStage::Config, InitAction::LoadConfig),
        InitStage::Config => (InitStage::GainMlpLen, InitAction::MeasureGainMlp),
        InitStage::GainMlpLen => match event {
            InitEvent::Len(len) if len <= SCRATCH_LEN => (
                InitStage::GainMlpRead,
                InitAction::ReadGainMlp,
            ),
            _ => (InitStage::Done, InitAction::Finish),
        },
        InitStage::GainMlpRead => match event {
            InitEvent::Read(len) => (InitStage::GainMlpParse, InitAction::ParseGainMlp { len }),
            _ => (InitStage::Done, InitAction::Finish),
        },
        InitStage::GainMlpParse => if event is Worked {
            (InitStage::GainMlpRegister, InitAction::RegisterGainMlp)
        } else {
            (InitStage::Done, InitAction::Finish)
        },
        InitStage::GainMlpRegister => (InitStage::Done, InitAction::Finish),
        InitStage::Done => (InitStage::Done, InitAction::Finish),
    }
}

/// Bringing up the card.
#[derive(Clone, Copy, Debug, PartialEq, Eq, Structural)]
pub struct SdInit {
    pub stage: InitStage,
}

impl SdInit {
    /// The first action is to open the volume.
    pub fn begin() -> (begun: (Self, InitAction))
        ensures
            begun.0.stage == InitStage::Volume,
            begun.1 == InitAction::OpenVolume,
    {
        (SdInit { stage: InitStage::Volume }, InitAction::OpenVolume)
    }

    fn go(&mut self, stage: InitStage, action: InitAction) -> (next: InitAction)
        ensures
            final(self).stage == stage,
            next == action,
    {
        self.stage = stage;
        action
    }

    /// Takes in how the last action went.
    pub fn step(&mut self, event: InitEvent) -> (action: InitAction)
        requires
            accepts(old(self).stage, event),
        ensures
            (final(self).stage, action) == init_next(old(self).stage, event),
    {
        let worked = matches!(event, InitEvent::Worked);
        match self.stage {
            InitStage::Volume => if worked {
                self.go(InitStage::Root, InitAction::OpenRootDir)
            } else {
                self.go(InitStage::Done, InitAction::Fail(SdError::NoCardOrInitFail))
            },
            InitStage::Root => if worked {
                self.go(InitStage::TrajectoryLen, InitAction::MeasureTrajectory)
            } else {
                self.go(InitStage::Done, InitAction::Fail(SdError::OpenRoot))
            },
            InitStage::TrajectoryLen => if let InitEvent::Len(len) = event {
                if len as usize > SCRATCH_LEN {
                    self.go(InitStage::Config, InitAction::LoadConfig)
                } else {
                    self.go(InitStage::TrajectoryLoad, InitAction::LoadTrajectory)
                }
            } else {
                self.go(InitStage::Config, InitAction::LoadConfig)
            },
            InitStage::TrajectoryLoad => if worked {
                self.go(InitStage::TrajectoryRegister, InitAction::RegisterTrajectory)
            } else {
                self.go(InitStage::Config, InitAction::LoadConfig)
            },
            InitStage::TrajectoryRegister => self.go(InitStage::Config, InitAction::LoadConfig),
            InitStage::Config => self.go(InitStage::GainMlpLen, InitAction::MeasureGainMlp),
            InitStage::GainMlpLen => if let InitEvent::Len(len) = event {
                if len as usize <= SCRATCH_LEN {
                    self.go(InitStage::GainMlpRead, InitAction::ReadGainMlp)
                } else {
                    self.go(InitStage::Done, InitAction::Finish)
                }
            } else {
                self.go(InitStage::Done, InitAction::Finish)
            },
            InitStage::GainMlpRead => if let InitEvent::Read(len) = event {
                self.go(InitStage::GainMlpParse, InitAction::ParseGainMlp { len })
            } else {
                self.go(InitStage::Done, InitAction::Finish)
            },
            InitStage::GainMlpParse => if worked {
                self.go(InitStage::GainMlpRegister, InitAction::RegisterGainMlp)
            } else {
                self.go(InitStage::Done, InitAction::Finish)
            },
            InitStage::GainMlpRegister => self.go(InitStage::Done, InitAction::Finish),
            InitStage::Done => self.go(InitStage::Done, InitAction::Finish),
        }
    }
}

/// How many stages are left at most.
pub open spec fn stages_left(stage: InitStage) -> nat {
    match stage {
        InitStage::Volume => 10,
        InitStage::Root => 9,
        InitStage::TrajectoryLen => 8,
        InitStage::TrajectoryLoad => 7,
        InitStage::TrajectoryRegister => 6,
        InitStage::Config => 5,
        InitStage::GainMlpLen => 4,
        InitStage::GainMlpRead => 3,
        InitStage::GainMlpParse => 2,
        InitStage::GainMlpRegister => 1,
        InitStage::Done => 0,
    }
}

/// Bringing up the card comes to an end: every event leads to a later stage, and the last one is
/// reached with a finished or a failed logger and in no other way.
pub proof fn law_init_ends(stage: InitStage, event: InitEvent)
    requires
        accepts(stage, event),
    ensures
        stages_left(init_next(stage, event).0) < stages_left(stage),
        init_next(stage, event).0 == InitStage::Done <==> init_next(stage, event).1 is Finish
            || init_next(stage, event).1 is Fail,
{
}

/// Only a volume or a root directory that does not open keeps the logger from coming up.
pub proof fn law_only_the_file_system_is_needed(stage: InitStage, event: InitEvent, error: SdError)
    requires
        accepts(stage, event),
    ensures
        init_next(stage, event).1 == InitAction::Fail(error) <==> {
            ||| stage == InitStage::Volume && event is Failed && error == SdError::NoCardOrInitFail
            ||| stage == InitStage::Root && event is Failed && error == SdError::OpenRoot
        },
{
}

/// A file is read into the scratch memory only if it fits, and parsed only as far as it was read.
pub proof fn law_reads_fit_the_scratch(stage: InitStage, event: InitEvent)
    requires
        accepts(stage, event),
    ensures
        init_next(stage, event).1 is LoadTrajectory || init_next(stage, event).1 is ReadGainMlp
            ==> event is Len && event->Len_0 <= SCRATCH_LEN,
        init_next(stage, event).1 matches InitAction::ParseGainMlp { len } ==> len <= SCRATCH_LEN
            && event == InitEvent::Read(len),
{
}

/// A file is loaded, or read, exactly if it was measured and fits into the scratch memory; a
/// trajectory is registered exactly if it was loaded; a network is parsed as far as it was read,
/// and registered exactly if it could be parsed.
pub proof fn law_files_that_fit_are_used(stage: InitStage, event: InitEvent, len: usize)
    requires
        accepts(stage, event),
    ensures
        ({
            let action = init_next(stage, event).1;
            let fits = event is Len && event->Len_0 <= SCRATCH_LEN;
            &&& action == InitAction::LoadTrajectory <==> stage == InitStage::TrajectoryLen && fits
            &&& action == InitAction::ReadGainMlp <==> stage == InitStage::GainMlpLen && fits
            &&& action == InitAction::RegisterTrajectory <==> stage == InitStage::TrajectoryLoad
                && event is Worked
            &&& action == (InitAction::ParseGainMlp { len }) <==> stage == InitStage::GainMlpRead
                && event == InitEvent::Read(len)
            &&& action == InitAction::RegisterGainMlp <==> stage == InitStage::GainMlpParse
                && event is Worked
        }),
{
}

/// The rest of the way: the file system first, then the trajectory, whatever becomes of it the
/// configuration, whatever becomes of that the network, and whatever becomes of that the end.
pub proof fn law_card_is_gone_through_in_order(stage: InitStage, event: InitEvent)
    requires
        accepts(stage, event),
    ensures
        ({
            let action = init_next(stage, event).1;
            let fits = event is Len && event->Len_0 <= SCRATCH_LEN;
            &&& action == InitAction::OpenRootDir <==> stage == InitStage::Volume && event is Worked
            &&& action == InitAction::MeasureTrajectory <==> stage == InitStage::Root
                && event is Worked
            &&& action == InitAction::LoadConfig <==> {
                ||| stage == InitStage::TrajectoryLen && !fits
                ||| stage == InitStage::TrajectoryLoad && event is Failed
                ||| stage == InitStage::TrajectoryRegister
            }
            &&& action == InitAction::MeasureGainMlp <==> stage == InitStage::Config
            &&& action == InitAction::Finish <==> {
                ||| stage == InitStage::GainMlpLen && !fits
                ||| stage == InitStage::GainMlpRead && event is Failed
                ||| stage == InitStage::GainMlpParse && event is Failed
                ||| stage == InitStage::GainMlpRegister
            }
            &&& action != InitAction::OpenVolume
        }),
{
}

/// The stage that waits for the end of an action.
pub open spec fn awaits(stage: InitStage, action: InitAction) -> bool {
    match stage {
        InitStage::Volume => action == InitAction::OpenVolume,
        InitStage::Root => action == InitAction::OpenRootDir,
        InitStage::TrajectoryLen => action == InitAction::MeasureTrajectory,
        InitStage::TrajectoryLoad => action == InitAction::LoadTrajectory,
        InitStage::TrajectoryRegister => action == InitAction::RegisterTrajectory,
        InitStage::Config => action == InitAction::LoadConfig,
        InitStage::GainMlpLen => action == InitAction::MeasureGainMlp,
        InitStage::GainMlpRead => action == InitAction::ReadGainMlp,
        InitStage::GainMlpParse => action is ParseGainMlp,
        InitStage::GainMlpRegister => action == InitAction::RegisterGainMlp,
        InitStage::Done => action == InitAction::Finish || action is Fail,
    }
}

/// The next stage is the one that waits for the end of the action asked for.
pub proof fn law_stage_awaits_its_action(stage: InitStage, event: InitEvent)
    requires
        accepts(stage, event),
    ensures
        awaits(init_next(stage, event).0, init_next(stage, event).1),
{
}

/// Until the end, every stage takes in every outcome that its action can have: a failure always;
/// a length, whatever it is, where a file is measured; a read of no more than the scratch memory
/// holds, where one is read; and success everywhere else.
pub proof fn law_every_outcome_is_accepted(stage: InitStage, len: u32, n: usize)
    ensures
        ({
            let measures = stage == InitStage::TrajectoryLen || stage == InitStage::GainMlpLen;
            let reads = stage == InitStage::GainMlpRead;
            let done = stage == InitStage::Done;
            &&& accepts(stage, InitEvent::Failed) <==> !done
            &&& accepts(stage, InitEvent::Len(len)) <==> measures
            &&& accepts(stage, InitEvent::Read(n)) <==> reads && n <= 48 * 1024
            &&& accepts(stage, InitEvent::Worked) <==> !measures && !reads && !done
        }),
{
}

} // verus!
