//! What one frame does, in order, and how long to wait after it.
//!
//! A frame clears the colour and depth buffers, activates the program, sets
//! the uniforms shared by all shapes, draws each shape, and presents. A
//! uniform that the program does not use is skipped, never set.
use vstd::prelude::*;
use crate::shape::{UniformLocations, NOT_FOUND};

verus! {

/// Frames per second aimed at.
pub const TARGET_FPS: u64 = 60;
/// Nanoseconds that one frame should take.
pub const FRAME_NANOS: u64 = 1_000_000_000 / TARGET_FPS;

/// One step of a frame.
#[derive(Clone, Copy, Debug, PartialEq, Eq)]
pub enum FrameCommand {
    /// Clear colour and depth.
    Clear,
    UseProgram(u32),
    SetColourMode { location: i32, value: u32 },
    SetView { location: i32 },
    SetProjection { location: i32 },
    /// Draw the entry of this index of the frame's draw list
    /// (see [`Scenery::draw_list`](crate::scenery::Scenery::draw_list)):
    /// set its model when the program uses it, bind and draw.
    Draw(usize),
    /// Swap buffers.
    Present,
}

/// `c` when `loc` names a uniform, nothing otherwise.
pub open spec fn when_found(c: FrameCommand, loc: i32) -> Seq<FrameCommand> {
    if loc != NOT_FOUND {
        seq![c]
    } else {
        seq![]
    }
}

/// Clearing, the program and the shared uniforms, before any draw.
pub open spec fn frame_prologue(program: u32, u: UniformLocations, colour_mode: u32) -> Seq<
    FrameCommand,
> {
    seq![FrameCommand::Clear, FrameCommand::UseProgram(program)] + when_found(
        FrameCommand::SetColourMode { location: u.colour_mode, value: colour_mode },
        u.colour_mode,
    ) + when_found(FrameCommand::SetView { location: u.view }, u.view) + when_found(
        FrameCommand::SetProjection { location: u.projection },
        u.projection,
    )
}

/// One draw command for each of the first `n` entries of the draw list, in order.
pub open spec fn draws(n: nat) -> Seq<FrameCommand> {
    Seq::new(n, |k: int| FrameCommand::Draw(k as usize))
}

/// The whole frame.
pub open spec fn frame_plan(
    program: u32,
    u: UniformLocations,
    colour_mode: u32,
    n: nat,
) -> Seq<FrameCommand> {
    frame_prologue(program, u, colour_mode) + draws(n) + seq![FrameCommand::Present]
}

/// The steps of one frame that draws the `count` entries of a draw list
/// with `program`, whose uniforms are at `u`, in colour mode `colour_mode`.
pub fn frame_commands(
    program: u32,
    u: &UniformLocations,
    colour_mode: u32,
    count: usize,
) -> (r: Vec<FrameCommand>)
    ensures
        r@ == frame_plan(program, *u, colour_mode, count as nat),
{
    let mut r: Vec<FrameCommand> = Vec::new();
    r.push(FrameCommand::Clear);
    r.push(FrameCommand::UseProgram(program));
    if u.colour_mode != NOT_FOUND {
        r.push(FrameCommand::SetColourMode { location: u.colour_mode, value: colour_mode });
    }
    if u.view != NOT_FOUND {
        r.push(FrameCommand::SetView { location: u.view });
    }
    if u.projection != NOT_FOUND {
        r.push(FrameCommand::SetProjection { location: u.projection });
    }
    let ghost prologue = r@;
    assert(prologue =~= frame_prologue(program, *u, colour_mode));
    let mut i: usize = 0;
    while i < count
        invariant
            i <= count,
            prologue == frame_prologue(program, *u, colour_mode),
            r@ == prologue + draws(i as nat),
        decreases count - i,
    {
        r.push(FrameCommand::Draw(i));
        i += 1;
        assert(r@ =~= prologue + draws(i as nat));
    }
    r.push(FrameCommand::Present);
    assert(r@ =~= frame_plan(program, *u, colour_mode, count as nat));
    r
}

/// A frame starts by clearing and presents exactly once, as its last step;
/// it draws each entry of the draw list once, in order, after the shared
/// uniforms; and it sets no uniform that the program does not use.
pub proof fn lemma_frame_order(
    program: u32,
    u: UniformLocations,
    colour_mode: u32,
    n: nat,
)
    ensures
        ({
            let f = frame_plan(program, u, colour_mode, n);
            let p = frame_prologue(program, u, colour_mode).len();
            &&& f[0] == FrameCommand::Clear
            &&& f.last() == FrameCommand::Present
            &&& forall|k: int| 0 <= k < f.len() - 1 ==> f[k] != FrameCommand::Present
            &&& f.len() == p + n + 1
            &&& forall|k: int| 0 <= k < n ==> #[trigger] f[p + k] == FrameCommand::Draw(k as usize)
            &&& forall|k: int|
                0 <= k < f.len() ==> match #[trigger] f[k] {
                    FrameCommand::SetColourMode { location, .. } => location != NOT_FOUND,
                    FrameCommand::SetView { location } => location != NOT_FOUND,
                    FrameCommand::SetProjection { location } => location != NOT_FOUND,
                    _ => true,
                }
        }),
{
    let p = frame_prologue(program, u, colour_mode);
    let d = draws(n);
    let f = frame_plan(program, u, colour_mode, n);
    assert(f =~= p + d + seq![FrameCommand::Present]);
    assert forall|k: int| 0 <= k < f.len() - 1 implies f[k] != FrameCommand::Present by {
        if k < p.len() {
            assert(f[k] == p[k]);
        } else {
            assert(f[k] == d[k - p.len()]);
        }
    }
    assert forall|k: int| 0 <= k < n implies #[trigger] f[p.len() + k] == FrameCommand::Draw(
        k as usize,
    ) by {
        assert(f[p.len() + k] == d[k]);
    }
}

/// How long to sleep after a frame whose work took `elapsed` nanoseconds:
/// what is left of the frame's time, or nothing when it is used up.
pub fn frame_sleep(elapsed: u64) -> (r: u64)
    ensures
        r == (if elapsed < FRAME_NANOS { (FRAME_NANOS - elapsed) as u64 } else { 0u64 }),
{
    FRAME_NANOS.saturating_sub(elapsed)
}

} // verus!
