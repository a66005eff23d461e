//! The task that writes logged events to the card.

use vstd::prelude::*;

verus! {

/// How long the task waits before its first tick, in milliseconds, so that it does not clash with
/// the control tasks.
pub const LOG_START_DELAY_MS: u64 = 507;

/// Period of the task in milliseconds.
pub const LOG_TICK_MS: u64 = 20;

/// Where the task stands.
#[derive(Clone, Copy, Debug, PartialEq, Eq, Structural)]
pub enum LogPhase {
    Starting,
    /// Waits for a tick or for being told to stop.
    Waiting,
    /// Empties the queue of events; `stopping` if the task exits after that.
    Emptying { stopping: bool },
    /// Writes an event taken from the queue.
    Recording { stopping: bool },
    Flushing,
    Exited,
}

/// What happened to the task.
#[derive(Clone, Copy, Debug, PartialEq, Eq, Structural)]
pub enum LogTaskEvent {
    /// The delay is over.
    Started,
    Tick,
    /// The task is told to stop.
    Stop,
    /// An event was taken from the queue.
    Received,
    /// The queue is empty.
    QueueEmpty,
    /// The event is written and other tasks have had their turn.
    Recorded,
    /// The logger is flushed.
    Flushed,
}

/// What the task asks for.
#[derive(Clone, Copy, Debug, PartialEq, Eq, Structural)]
pub enum LogTaskAction {
    Delay { ms: u64 },
    AwaitTick,
    /// Take the next event from the queue.
    Receive,
    /// Write the event, if there is a logger, and let other tasks have their turn.
    Record,
    Flush,
    Exit,
}

/// Whether an event can answer what the task waits for.
pub open spec fn log_accepts(phase: LogPhase, event: LogTaskEvent) -> bool {
    match phase {
        LogPhase::Starting => event is Started,
        LogPhase::Waiting => event is Tick || event is Stop,
        LogPhase::Emptying { .. } => event is Received || event is QueueEmpty,
        LogPhase::Recording { .. } => event is Recorded,
        LogPhase::Flushing => event is Flushed,
        LogPhase::Exited => false,
    }
}

/// The phase after an event and the action that leads there.
pub open spec fn log_next(phase: LogPhase, event: LogTaskEvent) -> (LogPhase, LogTaskAction) {
    match (phase, event) {
        (LogPhase::Starting, _) => (LogPhase::Waiting, LogTaskAction::AwaitTick),
        (LogPhase::Waiting, _) => (
            LogPhase::Emptying { stopping: event is Stop },
            LogTaskAction::Receive,
        ),
        (LogPhase::Emptying { stopping }, LogTaskEvent::Received) => (
            LogPhase::Recording { stopping },
            LogTaskAction::Record,
        ),
        (LogPhase::Emptying { stopping }, _) => if stopping {
            (LogPhase::Flushing, LogTaskAction::Flush)
        } else {
            (LogPhase::Waiting, LogTaskAction::AwaitTick)
        },
        (LogPhase::Recording { stopping }, _) => (
            LogPhase::Emptying { stopping },
            LogTaskAction::Receive,
        ),
        (LogPhase::Flushing, _) => (LogPhase::Exited, LogTaskAction::Exit),
        (LogPhase::Exited, _) => (LogPhase::Exited, LogTaskAction::Exit),
    }
}

/// The task that writes logged events to the card.
#[derive(Clone, Copy, Debug, PartialEq, Eq, Structural)]
pub struct LogTask {
    pub phase: LogPhase,
}

impl LogTask {
    /// The task begins with a delay.
    pub fn begin() -> (begun: (Self, LogTaskAction))
        ensures
            begun.0.phase == LogPhase::Starting,
            begun.1 == (LogTaskAction::Delay { ms: LOG_START_DELAY_MS }),
    {
        (LogTask { phase: LogPhase::Starting }, LogTaskAction::Delay { ms: LOG_START_DELAY_MS })
    }

    /// Takes in an event.
    pub fn step(&mut self, event: LogTaskEvent) -> (action: LogTaskAction)
        requires
            log_accepts(old(self).phase, event),
        ensures
            (final(self).phase, action) == log_next(old(self).phase, event),
    {
        match self.phase {
            LogPhase::Starting => {
                self.phase = LogPhase::Waiting;
                LogTaskAction::AwaitTick
            },
            LogPhase::Waiting => {
                self.phase = LogPhase::Emptying { stopping: matches!(event, LogTaskEvent::Stop) };
                LogTaskAction::Receive
            },
            LogPhase::Emptying { stopping } => if matches!(event, LogTaskEvent::Received) {
                self.phase = LogPhase::Recording { stopping };
                LogTaskAction::Record
            } else if stopping {
                self.phase = LogPhase::Flushing;
                LogTaskAction::Flush
            } else {
                self.phase = LogPhase::Waiting;
                LogTaskAction::AwaitTick
            },
            LogPhase::Recording { stopping } => {
                self.phase = LogPhase::Emptying { stopping };
                LogTaskAction::Receive
            },
            LogPhase::Flushing => {
                self.phase = LogPhase::Exited;
                LogTaskAction::Exit
            },
            LogPhase::Exited => LogTaskAction::Exit,
        }
    }
}

/// What the task writes of a queue, and how it goes on from there, if it starts emptying in
/// `phase` and nothing joins the queue.
pub open spec fn emptied<T>(phase: LogPhase, queue: Seq<T>) -> (Seq<T>, LogPhase, LogTaskAction)
    decreases queue.len(),
{
    if queue.len() == 0 {
        let (next, action) = log_next(phase, LogTaskEvent::QueueEmpty);
        (seq![], next, action)
    } else {
        let (taken, record) = log_next(phase, LogTaskEvent::Received);
        let (back, _) = log_next(taken, LogTaskEvent::Recorded);
        let (rest, end, action) = emptied(back, queue.drop_first());
        (if record is Record {
            seq![queue[0]] + rest
        } else {
            rest
        }, end, action)
    }
}

/// Every event in the queue is written, in order. After that the task waits for the next tick,
/// or, if it was told to stop, flushes the logger and exits.
pub proof fn law_queue_is_written_in_order<T>(queue: Seq<T>, event: LogTaskEvent)
    requires
        log_accepts(LogPhase::Waiting, event),
    ensures
        ({
            let (written, end, action) = emptied(log_next(LogPhase::Waiting, event).0, queue);
            &&& written == queue
            &&& if event is Stop {
                &&& action == LogTaskAction::Flush
                &&& log_next(end, LogTaskEvent::Flushed).1 == LogTaskAction::Exit
            } else {
                &&& action == LogTaskAction::AwaitTick
                &&& end == LogPhase::Waiting
            }
        }),
{
    lemma_emptied(event is Stop, queue);
}

proof fn lemma_emptied<T>(stopping: bool, queue: Seq<T>)
    ensures
        emptied(LogPhase::Emptying { stopping }, queue) == (
            queue,
            if stopping {
                LogPhase::Flushing
            } else {
                LogPhase::Waiting
            },
            if stopping {
                LogTaskAction::Flush
            } else {
                LogTaskAction::AwaitTick
            },
        ),
    decreases queue.len(),
{
    if queue.len() > 0 {
        lemma_emptied(stopping, queue.drop_first());
        assert(seq![queue[0]] + queue.drop_first() == queue);
    } else {
        assert(queue == Seq::<T>::empty());
    }
}

/// The task never exits without having flushed the logger, and flushes it only once it was told
/// to stop and the queue is empty.
pub proof fn law_exit_follows_flush(phase: LogPhase, event: LogTaskEvent)
    requires
        log_accepts(phase, event),
    ensures
        log_next(phase, event).1 == LogTaskAction::Exit <==> phase == LogPhase::Flushing,
        log_next(phase, event).1 == LogTaskAction::Flush <==> log_next(phase, event).0
            == LogPhase::Flushing,
        log_next(phase, event).0 == LogPhase::Flushing <==> phase == (LogPhase::Emptying {
            stopping: true,
        }) && event is QueueEmpty,
{
}

/// The task runs at fifty ticks per second.
pub proof fn law_fifty_ticks_per_second()
    ensures
        LOG_TICK_MS * 50 == 1000,
{
}

/// An event is written exactly after it was taken from the queue, and the queue is asked for the
/// next one after every event written and at the start of every round; a round starts on a tick
/// and when the task is told to stop.
pub proof fn law_rounds_of_the_task(phase: LogPhase, event: LogTaskEvent)
    requires
        log_accepts(phase, event),
    ensures
        ({
            let action = log_next(phase, event).1;
            &&& action == LogTaskAction::Record <==> event == LogTaskEvent::Received
            &&& action == LogTaskAction::Receive <==> {
                ||| event == LogTaskEvent::Tick
                ||| event == LogTaskEvent::Stop
                ||| event == LogTaskEvent::Recorded
            }
            &&& action == LogTaskAction::AwaitTick <==> {
                ||| event == LogTaskEvent::Started
                ||| event == LogTaskEvent::QueueEmpty && phase == (LogPhase::Emptying {
                    stopping: false,
                })
            }
            &&& action !is Delay
        }),
{
}

/// Whether an event is what an action waits for.
pub open spec fn log_answers(action: LogTaskAction, event: LogTaskEvent) -> bool {
    match event {
        LogTaskEvent::Started => action is Delay,
        LogTaskEvent::Tick | LogTaskEvent::Stop => action == LogTaskAction::AwaitTick,
        LogTaskEvent::Received | LogTaskEvent::QueueEmpty => action == LogTaskAction::Receive,
        LogTaskEvent::Recorded => action == LogTaskAction::Record,
        LogTaskEvent::Flushed => action == LogTaskAction::Flush,
    }
}

/// The task accepts exactly the events that its last action waits for, and none after its exit.
pub proof fn law_log_task_waits_for_its_answer(
    phase: LogPhase,
    event: LogTaskEvent,
    next: LogTaskEvent,
)
    requires
        log_accepts(phase, event),
    ensures
        log_accepts(log_next(phase, event).0, next) <==> log_answers(
            log_next(phase, event).1,
            next,
        ),
{
}

} // verus!
