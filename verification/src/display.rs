//! Asynchronous draw-command dispatch to the auxiliary graphic display.
//!
//! Callers enqueue commands into a bounded queue and return immediately; a
//! dedicated worker owns the slow display hardware and applies the
//! commands strictly in submission order. Draw effects accumulate on an
//! off-screen canvas; only an update command repaints the physical device,
//! so a batch of draws never shows as a partial frame.

use vstd::prelude::*;

verus! {

/// A position on the graphic display, in pixels from its top-left corner.
#[derive(Clone, Copy, PartialEq, Eq, Structural, Debug)]
pub struct Point {
    pub x: i32,
    pub y: i32,
}

impl Point {
    pub fn new(x: i32, y: i32) -> (r: Point)
        ensures
            r.x == x && r.y == y,
    {
        Point { x, y }
    }
}

/// Command to the graphics worker.
pub enum DisplayCommand {
    Clear,
    DrawImage { image_id: usize, point: Point },
    DrawText { text: String, point: Point },
    Update,
}

/// Capacity of the graphics command queue.
pub const DISPLAY_QUEUE_CAPACITY: usize = 10;

/// A command as the contracts speak of it, with the text as a character
/// sequence.
#[verifier::ext_equal]
pub enum CommandModel {
    Clear,
    DrawImage { image_id: int, x: int, y: int },
    DrawText { text: Seq<char>, x: int, y: int },
    Update,
}

/// The model of a command value.
pub open spec fn cmd_model(cmd: DisplayCommand) -> CommandModel {
    match cmd {
        DisplayCommand::Clear => CommandModel::Clear,
        DisplayCommand::DrawImage { image_id, point } => (CommandModel::DrawImage {
            image_id: image_id as int,
            x: point.x as int,
            y: point.y as int,
        }),
        DisplayCommand::DrawText { text, point } => (CommandModel::DrawText {
            text: text@,
            x: point.x as int,
            y: point.y as int,
        }),
        DisplayCommand::Update => CommandModel::Update,
    }
}

/// The models of a command sequence, in order.
pub open spec fn models(s: Seq<DisplayCommand>) -> Seq<CommandModel> {
    s.map_values(|c: DisplayCommand| cmd_model(c))
}

/// Caller side of the graphics driver: the bounded command queue into the
/// worker. Sends never block; a saturated queue is reported to the caller,
/// who may retry or drop the frame.
pub struct DisplayDriver {
    queue: Vec<DisplayCommand>,
}

impl DisplayDriver {
    /// The commands submitted and not yet taken by the worker, oldest
    /// first.
    pub closed spec fn pending(self) -> Seq<CommandModel> {
        models(self.queue@)
    }

    pub fn new() -> (r: DisplayDriver)
        ensures
            r.pending() == Seq::<CommandModel>::empty(),
    {
        let r = DisplayDriver { queue: Vec::new() };
        proof {
            assert(r.pending() =~= Seq::<CommandModel>::empty());
        }
        r
    }

    fn send(&mut self, cmd: DisplayCommand) -> (r: Result<(), crate::buzzer::QueueError>)
        ensures
            old(self).pending().len() < DISPLAY_QUEUE_CAPACITY ==> r is Ok && final(self).pending()
                == old(self).pending().push(cmd_model(cmd)),
            old(self).pending().len() >= DISPLAY_QUEUE_CAPACITY ==> r is Err && final(self).pending() == old(self).pending(),
    {
        if self.queue.len() < DISPLAY_QUEUE_CAPACITY {
            let ghost prev = self.queue@;
            self.queue.push(cmd);
            proof {
                assert(self.pending() =~= models(prev).push(cmd_model(cmd)));
            }
            Ok(())
        } else {
            Err(crate::buzzer::QueueError::Full)
        }
    }

    /// Enqueues a clear of the off-screen canvas; fails exactly when the
    /// queue is saturated, and then leaves it unchanged.
    pub fn clear(&mut self) -> (r: Result<(), crate::buzzer::QueueError>)
        ensures
            old(self).pending().len() < DISPLAY_QUEUE_CAPACITY ==> r is Ok && final(self).pending()
                == old(self).pending().push(CommandModel::Clear),
            old(self).pending().len() >= DISPLAY_QUEUE_CAPACITY ==> r is Err && final(self).pending() == old(self).pending(),
    {
        self.send(DisplayCommand::Clear)
    }

    /// Enqueues a text draw at `point`; fails exactly when the queue is
    /// saturated, and then leaves it unchanged.
    pub fn draw_text(&mut self, text: String, point: Point) -> (r: Result<
        (),
        crate::buzzer::QueueError,
    >)
        ensures
            old(self).pending().len() < DISPLAY_QUEUE_CAPACITY ==> r is Ok && final(self).pending()
                == old(self).pending().push(
                (CommandModel::DrawText { text: text@, x: point.x as int, y: point.y as int }),
            ),
            old(self).pending().len() >= DISPLAY_QUEUE_CAPACITY ==> r is Err && final(self).pending() == old(self).pending(),
    {
        self.send(DisplayCommand::DrawText { text, point })
    }

    /// Enqueues a bitmap draw at `point`, naming the asset by its index;
    /// fails exactly when the queue is saturated, and then leaves it
    /// unchanged.
    pub fn draw_image(&mut self, image_id: usize, point: Point) -> (r: Result<
        (),
        crate::buzzer::QueueError,
    >)
        ensures
            old(self).pending().len() < DISPLAY_QUEUE_CAPACITY ==> r is Ok && final(self).pending()
                == old(self).pending().push(
                (CommandModel::DrawImage {
                    image_id: image_id as int,
                    x: point.x as int,
                    y: point.y as int,
                }),
            ),
            old(self).pending().len() >= DISPLAY_QUEUE_CAPACITY ==> r is Err && final(self).pending() == old(self).pending(),
    {
        self.send(DisplayCommand::DrawImage { image_id, point })
    }

    /// Enqueues the repaint of the physical device; fails exactly when the
    /// queue is saturated, and then leaves it unchanged.
    pub fn update(&mut self) -> (r: Result<(), crate::buzzer::QueueError>)
        ensures
            old(self).pending().len() < DISPLAY_QUEUE_CAPACITY ==> r is Ok && final(self).pending()
                == old(self).pending().push(CommandModel::Update),
            old(self).pending().len() >= DISPLAY_QUEUE_CAPACITY ==> r is Err && final(self).pending() == old(self).pending(),
    {
        self.send(DisplayCommand::Update)
    }

    /// Whether the queue has room for `n` more commands: a caller that
    /// must enqueue a batch atomically probes before sending.
    pub fn can_accept(&self, n: usize) -> (r: bool)
        requires
            n <= DISPLAY_QUEUE_CAPACITY,
        ensures
            r == (self.pending().len() + n <= DISPLAY_QUEUE_CAPACITY),
    {
        self.queue.len() <= DISPLAY_QUEUE_CAPACITY - n
    }

    /// Worker side: takes the oldest pending command, preserving the order
    /// of the rest.
    pub fn take_next(&mut self) -> (r: Option<DisplayCommand>)
        ensures
            old(self).pending().len() == 0 ==> r is None && final(self).pending() == old(self).pending(),
            old(self).pending().len() > 0 ==> (r matches Some(c) && cmd_model(c) == old(self).pending()[0] && final(self).pending() == old(self).pending().drop_first()),
    {
        if self.queue.len() > 0 {
            let cmd = self.queue.remove(0);
            proof {
                assert(self.pending() =~= old(self).pending().drop_first());
            }
            Some(cmd)
        } else {
            None
        }
    }
}

/// The draw effects a command sequence leaves on the off-screen canvas
/// after the last clear, oldest first (clears drop everything before them;
/// updates leave the canvas as it is).
pub open spec fn run_canvas(canvas: Seq<CommandModel>, cmds: Seq<CommandModel>) -> Seq<
    CommandModel,
>
    decreases cmds.len(),
{
    if cmds.len() == 0 {
        canvas
    } else {
        let rest = run_canvas(canvas, cmds.drop_last());
        match cmds.last() {
            CommandModel::Clear => Seq::<CommandModel>::empty(),
            CommandModel::Update => rest,
            c => rest.push(c),
        }
    }
}

/// Worker side of the graphics driver: the off-screen canvas and what the
/// physical device shows. Only an update repaints the device.
pub struct Screen {
    canvas: Vec<DisplayCommand>,
    shown: Vec<DisplayCommand>,
}

impl Screen {
    /// The draw effects accumulated since the last clear.
    pub closed spec fn canvas(self) -> Seq<CommandModel> {
        models(self.canvas@)
    }

    /// The draw effects the physical device shows right now.
    pub closed spec fn shown(self) -> Seq<CommandModel> {
        models(self.shown@)
    }

    pub fn new() -> (r: Screen)
        ensures
            r.canvas() == Seq::<CommandModel>::empty(),
            r.shown() == Seq::<CommandModel>::empty(),
    {
        let r = Screen { canvas: Vec::new(), shown: Vec::new() };
        proof {
            assert(r.canvas() =~= Seq::<CommandModel>::empty());
            assert(r.shown() =~= Seq::<CommandModel>::empty());
        }
        r
    }

    /// Applies one command in submission order: a clear empties the
    /// canvas, a draw appends to it, and only an update copies the canvas
    /// to the physical device.
    pub fn apply_command(&mut self, cmd: DisplayCommand)
        ensures
            final(self).canvas() == run_canvas(old(self).canvas(), seq![cmd_model(cmd)]),
            cmd_model(cmd) is Update ==> final(self).shown() == old(self).canvas(),
            !(cmd_model(cmd) is Update) ==> final(self).shown() == old(self).shown(),
    {
        proof {
            let step = seq![cmd_model(cmd)];
            assert(step.drop_last() =~= Seq::<CommandModel>::empty());
            assert(step.last() == cmd_model(cmd));
            assert(run_canvas(old(self).canvas(), step.drop_last()) == old(self).canvas());
        }
        match cmd {
            DisplayCommand::Clear => {
                self.canvas = Vec::new();
                proof {
                    assert(self.canvas() =~= Seq::<CommandModel>::empty());
                    assert(run_canvas(old(self).canvas(), seq![cmd_model(cmd)])
                        =~= Seq::<CommandModel>::empty());
                }
            },
            DisplayCommand::Update => {
                let mut copy: Vec<DisplayCommand> = Vec::new();
                let mut i: usize = 0;
                while i < self.canvas.len()
                    invariant
                        i <= self.canvas.len(),
                        models(copy@) =~= models(self.canvas@.take(i as int)),
                    decreases self.canvas.len() - i,
                {
                    let c = clone_command(&self.canvas[i]);
                    let ghost copy_pre = copy@;
                    copy.push(c);
                    proof {
                        assert(copy@ =~= copy_pre.push(c));
                        assert(models(copy_pre) =~= models(self.canvas@.take(i as int)));
                        assert(self.canvas@.take(i as int).len() == i);
                        assert(models(self.canvas@.take(i as int)).len() == i);
                        assert(models(copy_pre).len() == i);
                        assert(copy_pre.len() == i);
                        assert(copy@.len() == copy_pre.len() + 1);
                        assert(models(copy@).len() == i + 1);
                        assert(models(self.canvas@.take(i + 1)).len() == i + 1);
                        assert forall|j: int| 0 <= j < i + 1 implies models(copy@)[j] == models(
                            self.canvas@.take(i + 1),
                        )[j] by {
                            assert(models(copy@)[j] == cmd_model(copy@[j]));
                            assert(models(self.canvas@.take(i + 1))[j] == cmd_model(
                                self.canvas@.take(i + 1)[j],
                            ));
                            assert(self.canvas@.take(i + 1)[j] == self.canvas@[j]);
                            if j < i {
                                assert(copy@[j] == copy_pre[j]);
                                assert(models(copy_pre)[j] == models(self.canvas@.take(i as int))[j]);
                                assert(models(copy_pre)[j] == cmd_model(copy_pre[j]));
                                assert(models(self.canvas@.take(i as int))[j] == cmd_model(
                                    self.canvas@.take(i as int)[j],
                                ));
                                assert(self.canvas@.take(i as int)[j] == self.canvas@[j]);
                            } else {
                                assert(copy@[j] == c);
                                assert(cmd_model(c) == cmd_model(self.canvas@[i as int]));
                            }
                        }
                        assert(models(copy@) =~= models(self.canvas@.take(i + 1)));
                    }
                    i = i + 1;
                }
                proof {
                    assert(self.canvas@.take(self.canvas@.len() as int) =~= self.canvas@);
                    assert(models(copy@) =~= self.canvas());
                }
                self.shown = copy;
            },
            c => {
                let ghost prev = self.canvas();
                self.canvas.push(c);
                proof {
                    assert(self.canvas() =~= prev.push(cmd_model(cmd)));
                }
            },
        }
    }
}

impl Screen {
    /// What the physical device shows, for observers.
    pub fn shown_commands(&self) -> (r: &Vec<DisplayCommand>)
        ensures
            models(r@) == self.shown(),
    {
        &self.shown
    }

    /// The off-screen canvas, for observers.
    pub fn canvas_commands(&self) -> (r: &Vec<DisplayCommand>)
        ensures
            models(r@) == self.canvas(),
    {
        &self.canvas
    }
}

/// A copy of a command with the same model.
fn clone_command(cmd: &DisplayCommand) -> (r: DisplayCommand)
    ensures
        cmd_model(r) == cmd_model(*cmd),
{
    match cmd {
        DisplayCommand::Clear => DisplayCommand::Clear,
        DisplayCommand::Update => DisplayCommand::Update,
        DisplayCommand::DrawImage { image_id, point } => DisplayCommand::DrawImage {
            image_id: *image_id,
            point: *point,
        },
        DisplayCommand::DrawText { text, point } => DisplayCommand::DrawText {
            text: text.clone(),
            point: *point,
        },
    }
}

} // verus!
