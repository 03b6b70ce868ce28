//! Asynchronous buzzer tone control.
//!
//! Callers enqueue commands into a bounded queue and return immediately;
//! a dedicated worker owns the tone hardware and applies the commands
//! strictly in submission order. At most one tone is audible at a time: a
//! start while already sounding retunes in place, a stop silences.

use vstd::prelude::*;

verus! {

/// Command to the tone worker.
#[derive(Clone, Copy, PartialEq, Eq, Structural, Debug)]
pub enum BuzzerCommand {
    StartTone { frequency: u32 },
    StopTone,
}

/// Capacity of the tone command queue.
pub const BUZZER_QUEUE_CAPACITY: usize = 5;

/// Error of a command enqueue: the bounded queue is saturated; the caller
/// may retry or drop the command.
#[derive(Clone, Copy, PartialEq, Eq, Structural, Debug)]
pub enum QueueError {
    Full,
}

/// The audible state after one command: a start retunes to its frequency,
/// a stop silences.
pub open spec fn spec_apply_tone(cmd: BuzzerCommand, state: Option<u32>) -> Option<u32> {
    match cmd {
        BuzzerCommand::StartTone { frequency } => Some(frequency),
        BuzzerCommand::StopTone => None,
    }
}

/// The audible state after a whole sequence of commands, applied in order.
pub open spec fn run_tone(state: Option<u32>, cmds: Seq<BuzzerCommand>) -> Option<u32>
    decreases cmds.len(),
{
    if cmds.len() == 0 {
        state
    } else {
        spec_apply_tone(cmds.last(), run_tone(state, cmds.drop_last()))
    }
}

/// The audible state after each command of a sequence, in order: what a
/// listener hears as the worker drains the queue.
pub open spec fn tone_trace(state: Option<u32>, cmds: Seq<BuzzerCommand>) -> Seq<Option<u32>> {
    Seq::new(cmds.len(), |i: int| run_tone(state, cmds.take(i + 1)))
}

/// Issuing start, start, stop sounds the first frequency, then the second,
/// then silence — never silence before either tone.
pub proof fn lemma_tone_sequence(state: Option<u32>, f1: u32, f2: u32)
    ensures
        tone_trace(
            state,
            seq![
                (BuzzerCommand::StartTone { frequency: f1 }),
                (BuzzerCommand::StartTone { frequency: f2 }),
                BuzzerCommand::StopTone,
            ],
        ) =~= seq![Some(f1), Some(f2), None],
{
    let cmds = seq![
        (BuzzerCommand::StartTone { frequency: f1 }),
        (BuzzerCommand::StartTone { frequency: f2 }),
        BuzzerCommand::StopTone,
    ];
    assert(cmds.take(1) =~= seq![(BuzzerCommand::StartTone { frequency: f1 })]);
    assert(cmds.take(2) =~= seq![
        (BuzzerCommand::StartTone { frequency: f1 }),
        (BuzzerCommand::StartTone { frequency: f2 }),
    ]);
    assert(cmds.take(3) =~= cmds);
    assert(cmds.take(1).drop_last() =~= Seq::<BuzzerCommand>::empty());
    assert(cmds.take(2).drop_last() =~= cmds.take(1));
    assert(cmds.drop_last() =~= cmds.take(2));
}

/// Caller side of the tone driver: the bounded command queue into the
/// worker. Sends never block; a saturated queue is reported to the caller.
pub struct BuzzerDriver {
    queue: Vec<BuzzerCommand>,
}

impl BuzzerDriver {
    /// The commands submitted and not yet taken by the worker, oldest
    /// first.
    pub closed spec fn pending(self) -> Seq<BuzzerCommand> {
        self.queue@
    }

    pub fn new() -> (r: BuzzerDriver)
        ensures
            r.pending() == Seq::<BuzzerCommand>::empty(),
    {
        let r = BuzzerDriver { queue: Vec::new() };
        proof {
            assert(r.queue@ =~= Seq::<BuzzerCommand>::empty());
        }
        r
    }

    fn send(&mut self, cmd: BuzzerCommand) -> (r: Result<(), QueueError>)
        ensures
            old(self).pending().len() < BUZZER_QUEUE_CAPACITY ==> r is Ok && final(self).pending() == old(self).pending().push(cmd),
            old(self).pending().len() >= BUZZER_QUEUE_CAPACITY ==> r is Err && final(self).pending()
                == old(self).pending(),
    {
        if self.queue.len() < BUZZER_QUEUE_CAPACITY {
            self.queue.push(cmd);
            Ok(())
        } else {
            Err(QueueError::Full)
        }
    }

    /// Enqueues a retune to `frequency`; fails exactly when the queue is
    /// saturated, and then leaves it unchanged.
    pub fn start_tone(&mut self, frequency: u32) -> (r: Result<(), QueueError>)
        ensures
            old(self).pending().len() < BUZZER_QUEUE_CAPACITY ==> r is Ok && final(self).pending() == old(self).pending().push(
                (BuzzerCommand::StartTone { frequency }),
            ),
            old(self).pending().len() >= BUZZER_QUEUE_CAPACITY ==> r is Err && final(self).pending()
                == old(self).pending(),
    {
        self.send(BuzzerCommand::StartTone { frequency })
    }

    /// Enqueues a stop; fails exactly when the queue is saturated, and then
    /// leaves it unchanged.
    pub fn stop_tone(&mut self) -> (r: Result<(), QueueError>)
        ensures
            old(self).pending().len() < BUZZER_QUEUE_CAPACITY ==> r is Ok && final(self).pending() == old(self).pending().push(BuzzerCommand::StopTone),
            old(self).pending().len() >= BUZZER_QUEUE_CAPACITY ==> r is Err && final(self).pending()
                == old(self).pending(),
    {
        self.send(BuzzerCommand::StopTone)
    }

    /// Worker side: takes the oldest pending command, preserving the order
    /// of the rest.
    pub fn take_next(&mut self) -> (r: Option<BuzzerCommand>)
        ensures
            old(self).pending().len() == 0 ==> r is None && final(self).pending() == old(self).pending(),
            old(self).pending().len() > 0 ==> r == Some(old(self).pending()[0]) && final(self).pending() == old(self).pending().drop_first(),
    {
        if self.queue.len() > 0 {
            let cmd = self.queue.remove(0);
            proof {
                assert(self.queue@ =~= old(self).queue@.drop_first());
            }
            Some(cmd)
        } else {
            None
        }
    }
}

/// Worker side of the tone driver: owns the tone hardware; at most one
/// tone is audible at a time.
pub struct ToneWorker {
    current: Option<u32>,
}

impl ToneWorker {
    /// The frequency that is audible right now, `None` when silent.
    pub closed spec fn audible(self) -> Option<u32> {
        self.current
    }

    pub fn new() -> (r: ToneWorker)
        ensures
            r.audible() is None,
    {
        ToneWorker { current: None }
    }

    /// Applies one command in submission order and returns the new audible
    /// state, which the worker then asserts on the hardware.
    pub fn apply_command(&mut self, cmd: BuzzerCommand) -> (r: Option<u32>)
        ensures
            final(self).audible() == spec_apply_tone(cmd, old(self).audible()),
            r == final(self).audible(),
    {
        match cmd {
            BuzzerCommand::StartTone { frequency } => {
                self.current = Some(frequency);
            },
            BuzzerCommand::StopTone => {
                self.current = None;
            },
        }
        self.current
    }
}

} // verus!
