//! What a frame asks the compute shaders to draw.

use vstd::prelude::*;

use crate::backend::renderer::utils::region::placed;
use crate::utils::geometry::{Point, Rectangle, Size};
use crate::utils::geometry::rect;
use crate::utils::rects::{all_valid, all_within, covers};
use crate::utils::transform::{
    rect_transform_moves_pixels, transform_keeps_parts, transform_stays_inside, Transform,
};

verus! {

/// The number of rectangles that one run of the texture shader takes.
pub const TEX_RECTS: usize = 4;

/// The number of rectangles that one run of the color shader takes.
pub const CLEAR_RECTS: usize = 6;

/// The rectangles of one run of a shader.
#[derive(Debug)]
pub struct DamageChunk {
    /// The number of damaged rectangles that the run stands for.
    pub size: u32,
    /// The rectangles on the framebuffer, filled up with empty ones.
    pub rects: Vec<Rectangle>,
}

/// A command of a frame.
#[derive(Debug)]
pub enum Command {
    /// The constants of the next run are set.
    Push(DamageChunk),
    /// The shader runs over the whole framebuffer in groups of pixels.
    Dispatch { x: u32, y: u32 },
    /// The command buffer is complete.
    End,
}

/// A command as a mathematical value.
pub enum CommandModel {
    Push { size: int, rects: Seq<Rectangle> },
    Dispatch { x: int, y: int },
    End,
}

impl Command {
    pub open spec fn model(self) -> CommandModel {
        match self {
            Command::Push(chunk) => CommandModel::Push {
                size: chunk.size as int,
                rects: chunk.rects@,
            },
            Command::Dispatch { x, y } => CommandModel::Dispatch { x: x as int, y: y as int },
            Command::End => CommandModel::End,
        }
    }
}

/// The commands as mathematical values.
pub open spec fn models(commands: Seq<Command>) -> Seq<CommandModel> {
    Seq::new(commands.len(), |i: int| commands[i].model())
}

/// What is recorded for a frame operation.
#[derive(Debug)]
pub struct FramePlan {
    /// The place of the operation, turned like the frame.
    pub dst: Rectangle,
    pub commands: Vec<Command>,
}

/// The part of the damage from `from` on that one run takes.
pub open spec fn part(damage: Seq<Rectangle>, from: int, n: int) -> Seq<Rectangle> {
    damage.subrange(
        from,
        if from + n <= damage.len() {
            from + n
        } else {
            damage.len() as int
        },
    )
}

/// A rectangle of the damage on the framebuffer, if any of it is in its place. The damage is
/// relative to `dst`; both are turned like the frame.
pub open spec fn on_target(
    r: Rectangle,
    dst: Rectangle,
    transform: Transform,
    size: Size,
    fb: Size,
) -> Option<Rectangle> {
    match r.spec_moved(dst.loc).spec_intersection(dst) {
        Some(c) => Some(placed(transform.spec_transform_rect_in(c, size), fb)),
        None => None,
    }
}

/// The rectangles of the damage on the framebuffer, in order.
pub open spec fn all_on_target(
    damage: Seq<Rectangle>,
    dst: Rectangle,
    transform: Transform,
    size: Size,
    fb: Size,
) -> Seq<Rectangle>
    decreases damage.len(),
{
    if damage.len() == 0 {
        Seq::empty()
    } else {
        let before = all_on_target(damage.drop_last(), dst, transform, size, fb);
        match on_target(damage.last(), dst, transform, size, fb) {
            Some(r) => before.push(r),
            None => before,
        }
    }
}

/// `n` rectangles: the given ones, then empty ones.
pub open spec fn padded(rects: Seq<Rectangle>, n: int) -> Seq<Rectangle> {
    Seq::new(
        n as nat,
        |i: int|
            if i < rects.len() {
                rects[i]
            } else {
                rect(0, 0, 0, 0)
            },
    )
}

/// The groups that cover a side of the framebuffer.
pub open spec fn groups(side: u32) -> int {
    (side + 7) / 8
}

/// The commands for the damage from `from` on.
pub open spec fn commands_from(
    frame: VulkanFrame,
    damage: Seq<Rectangle>,
    dst: Rectangle,
    n: int,
    from: int,
) -> Seq<CommandModel>
    decreases damage.len() + n - from,
{
    if from >= damage.len() || n <= 0 {
        Seq::empty()
    } else {
        let chunk = part(damage, from, n);
        let run = seq![
            CommandModel::Push {
                size: chunk.len() as int,
                rects: padded(
                    all_on_target(chunk, dst, frame.transform, frame.size, frame.fb_size()),
                    n,
                ),
            },
            CommandModel::Dispatch { x: groups(frame.fb_width), y: groups(frame.fb_height) },
        ];
        run + commands_from(frame, damage, dst, n, from + n)
    }
}

/// How a frame ends.
#[derive(Clone, Copy, Debug, PartialEq, Eq, Structural)]
pub enum FinishAction {
    /// A point on a timeline of the kernel is handed out.
    DrmSyncPoint { timeline: u64, point: u64 },
    /// The point is waited for, then the frame is done.
    WaitFor(u64),
    /// The frame is done.
    Signaled,
}

/// A frame that is being rendered.
#[derive(Clone, Copy, Debug, PartialEq, Eq, Structural)]
pub struct VulkanFrame {
    pub transform: Transform,
    pub size: Size,
    pub fb_width: u32,
    pub fb_height: u32,
    /// The last submission of the frame.
    pub last_sequence: Option<u64>,
}

impl VulkanFrame {
    /// The size of the framebuffer.
    pub open spec fn fb_size(self) -> Size {
        Size { w: self.fb_width as i32, h: self.fb_height as i32 }
    }

    pub open spec fn valid(self) -> bool {
        &&& self.size.valid()
        &&& self.fb_width <= i32::MAX
        &&& self.fb_height <= i32::MAX
    }

    /// Whether the damage can be placed on the framebuffer.
    pub open spec fn can_draw(self, dst: Rectangle, damage: Seq<Rectangle>) -> bool {
        &&& self.transform.can_transform(dst, self.size)
        &&& forall|i: int| 0 <= i < damage.len() ==> (#[trigger] damage[i]).movable(dst.loc)
    }

    /// A frame on a framebuffer of the given size.
    pub fn new(size: Size, transform: Transform, fb_width: u32, fb_height: u32) -> (frame: Self)
        ensures
            frame == (VulkanFrame { transform, size, fb_width, fb_height, last_sequence: None }),
    {
        VulkanFrame { transform, size, fb_width, fb_height, last_sequence: None }
    }

    fn group_count(side: u32) -> (n: u32)
        ensures
            n == groups(side),
    {
        if side % 8 == 0 {
            side / 8
        } else {
            side / 8 + 1
        }
    }

    /// The rectangles of one run.
    fn chunk(
        &self,
        damage: &Vec<Rectangle>,
        from: usize,
        n: usize,
        dst: Rectangle,
    ) -> (chunk: DamageChunk)
        requires
            self.valid(),
            from < damage@.len(),
            0 < n <= 16,
            self.can_draw(dst, damage@),
        ensures
            chunk.size == part(damage@, from as int, n as int).len(),
            chunk.rects@ == padded(
                all_on_target(
                    part(damage@, from as int, n as int),
                    dst,
                    self.transform,
                    self.size,
                    self.fb_size(),
                ),
                n as int,
            ),
    {
        let end: usize = if n <= damage.len() - from {
            from + n
        } else {
            damage.len()
        };
        let fb = Size { w: self.fb_width as i32, h: self.fb_height as i32 };
        let ghost all = part(damage@, from as int, n as int);
        let mut rects: Vec<Rectangle> = Vec::new();
        assert(all.take(0) =~= Seq::<Rectangle>::empty());
        for i in from..end
            invariant
                self.valid(),
                from <= end <= damage@.len(),
                end - from <= n,
                fb == self.fb_size(),
                fb.valid(),
                all == damage@.subrange(from as int, end as int),
                rects@.len() <= i - from,
                rects@ == all_on_target(
                    all.take(i - from),
                    dst,
                    self.transform,
                    self.size,
                    self.fb_size(),
                ),
                self.can_draw(dst, damage@),
        {
            assert(all.take(i - from + 1).drop_last() =~= all.take(i - from));
            assert(all.take(i - from + 1).last() == damage@[i as int]);
            assert(damage@[i as int].movable(dst.loc));
            let moved = damage[i].moved(dst.loc);
            if let Some(c) = moved.intersection(dst) {
                proof {
                    transform_keeps_parts(self.transform, dst, c, self.size);
                }
                let turned = self.transform.transform_rect_in(c, self.size);
                let loc = turned.loc.constrain(Rectangle { loc: Point { x: 0, y: 0 }, size: fb });
                let size = turned.size.clamp(
                    Size { w: 0, h: 0 },
                    Size { w: fb.w - loc.x, h: fb.h - loc.y },
                );
                rects.push(Rectangle { loc, size });
            }
        }
        assert(all.take(end - from) =~= all);
        let ghost found = rects@;
        let count: usize = rects.len();
        for i in count..n
            invariant
                count == found.len(),
                count <= i <= n,
                rects@.len() == i,
                forall|j: int|
                    0 <= j < i ==> #[trigger] rects@[j] == (if j < found.len() {
                        found[j]
                    } else {
                        rect(0, 0, 0, 0)
                    }),
        {
            rects.push(
                Rectangle { loc: Point { x: 0, y: 0 }, size: Size { w: 0, h: 0 } },
            );
        }
        assert(rects@ =~= padded(found, n as int));
        DamageChunk { size: (end - from) as u32, rects }
    }

    /// The commands for all of the damage, `n` rectangles at a time. The command buffer is
    /// complete after all of them.
    fn record(&self, damage: &Vec<Rectangle>, dst: Rectangle, n: usize) -> (commands: Vec<Command>)
        requires
            self.valid(),
            0 < n <= 16,
            self.can_draw(dst, damage@),
        ensures
            models(commands@) == commands_from(*self, damage@, dst, n as int, 0).push(
                CommandModel::End,
            ),
    {
        let mut commands: Vec<Command> = Vec::new();
        let x: u32 = Self::group_count(self.fb_width);
        let y: u32 = Self::group_count(self.fb_height);
        let mut from: usize = 0;
        let ghost whole = commands_from(*self, damage@, dst, n as int, 0);
        assert(models(commands@) + whole =~= whole);
        while from < damage.len()
            invariant
                self.valid(),
                0 < n <= 16,
                from <= damage@.len(),
                x == groups(self.fb_width),
                y == groups(self.fb_height),
                whole == models(commands@) + commands_from(
                    *self,
                    damage@,
                    dst,
                    n as int,
                    from as int,
                ),
                self.can_draw(dst, damage@),
            decreases damage@.len() + n - from,
        {
            let ghost before = commands@;
            let ghost rest = commands_from(*self, damage@, dst, n as int, from as int + n as int);
            let chunk = self.chunk(damage, from, n, dst);
            let ghost pushed = CommandModel::Push {
                size: chunk.size as int,
                rects: chunk.rects@,
            };
            commands.push(Command::Push(chunk));
            commands.push(Command::Dispatch { x, y });
            proof {
                let run = seq![pushed, CommandModel::Dispatch { x: x as int, y: y as int }];
                assert(models(commands@) =~= models(before) + run);
                assert(models(before) + (run + rest) =~= (models(before) + run) + rest);
            }
            from = if n < damage.len() - from {
                from + n
            } else {
                damage.len()
            };
        }
        assert(models(commands@) + Seq::<CommandModel>::empty() =~= models(commands@));
        commands.push(Command::End);
        assert(models(commands@) =~= whole.push(CommandModel::End));
        commands
    }

    /// Decides what is recorded to render a texture into `dst`; nothing without damage.
    pub fn render_texture_from_to(&self, dst: Rectangle, damage: &Vec<Rectangle>) -> (r: Option<
        FramePlan,
    >)
        requires
            self.valid(),
            self.can_draw(dst, damage@),
        ensures
            r is None <==> damage@.len() == 0,
            r matches Some(plan) ==> {
                &&& plan.dst == self.transform.spec_transform_rect_in(dst, self.size)
                &&& models(plan.commands@) == commands_from(
                    *self,
                    damage@,
                    dst,
                    TEX_RECTS as int,
                    0,
                ).push(CommandModel::End)
            },
    {
        if damage.len() == 0 {
            return None;
        }
        let at = self.transform.transform_rect_in(dst, self.size);
        Some(FramePlan { dst: at, commands: self.record(damage, dst, TEX_RECTS) })
    }

    /// Decides what is recorded to paint a color into `dst`; nothing without damage.
    fn draw_color(&self, dst: Rectangle, damage: &Vec<Rectangle>) -> (r: Option<FramePlan>)
        requires
            self.valid(),
            self.can_draw(dst, damage@),
        ensures
            r is None <==> damage@.len() == 0,
            r matches Some(plan) ==> {
                &&& plan.dst == self.transform.spec_transform_rect_in(dst, self.size)
                &&& models(plan.commands@) == commands_from(
                    *self,
                    damage@,
                    dst,
                    CLEAR_RECTS as int,
                    0,
                ).push(CommandModel::End)
            },
    {
        if damage.len() == 0 {
            return None;
        }
        let at = self.transform.transform_rect_in(dst, self.size);
        Some(FramePlan { dst: at, commands: self.record(damage, dst, CLEAR_RECTS) })
    }

    /// Decides what is recorded to clear some rectangles; the color is not blended.
    pub fn clear(&self, at: &Vec<Rectangle>) -> (r: Option<(FramePlan, bool)>)
        requires
            self.valid(),
            forall|i: int| 0 <= i < at@.len() ==> (#[trigger] at@[i]).valid(),
        ensures
            r is None <==> at@.len() == 0,
            r matches Some((plan, blend)) ==> {
                &&& !blend
                &&& plan.dst == self.transform.spec_transform_rect_in(
                    rect(0, 0, self.size.w as int, self.size.h as int),
                    self.size,
                )
                &&& models(plan.commands@) == commands_from(
                    *self,
                    at@,
                    rect(0, 0, self.size.w as int, self.size.h as int),
                    CLEAR_RECTS as int,
                    0,
                ).push(CommandModel::End)
            },
    {
        let whole = Rectangle::from_size(self.size);
        proof {
            transform_stays_inside(self.transform, whole, self.size);
        }
        match self.draw_color(whole, at) {
            Some(plan) => Some((plan, false)),
            None => None,
        }
    }

    /// Decides what is recorded to paint a color; it is blended.
    pub fn draw_solid(&self, dst: Rectangle, damage: &Vec<Rectangle>) -> (r: Option<
        (FramePlan, bool),
    >)
        requires
            self.valid(),
            self.can_draw(dst, damage@),
        ensures
            r is None <==> damage@.len() == 0,
            r matches Some((plan, blend)) ==> {
                &&& blend
                &&& plan.dst == self.transform.spec_transform_rect_in(dst, self.size)
                &&& models(plan.commands@) == commands_from(
                    *self,
                    damage@,
                    dst,
                    CLEAR_RECTS as int,
                    0,
                ).push(CommandModel::End)
            },
    {
        match self.draw_color(dst, damage) {
            Some(plan) => Some((plan, true)),
            None => None,
        }
    }

    /// The number by which the texture shader knows a transform.
    pub fn shader_transform(transform: Transform) -> (number: u32)
        ensures
            number == transform.spec_quarters() + (if transform.spec_flipped() {
                4int
            } else {
                0
            }),
    {
        match transform {
            Transform::Normal => 0,
            Transform::_90 => 1,
            Transform::_180 => 2,
            Transform::_270 => 3,
            Transform::Flipped => 4,
            Transform::Flipped90 => 5,
            Transform::Flipped180 => 6,
            Transform::Flipped270 => 7,
        }
    }

    /// Takes note of a submission.
    pub fn submitted(&mut self, sequence: u64)
        ensures
            *final(self) == (VulkanFrame { last_sequence: Some(sequence), ..*old(self) }),
    {
        self.last_sequence = Some(sequence);
    }

    /// How the frame ends, given the timeline of the kernel if there is one.
    pub fn finish(self, drm_timeline: Option<u64>) -> (action: FinishAction)
        ensures
            action == (match (self.last_sequence, drm_timeline) {
                (Some(point), Some(timeline)) => FinishAction::DrmSyncPoint { timeline, point },
                (Some(point), None) => FinishAction::WaitFor(point),
                (None, _) => FinishAction::Signaled,
            }),
    {
        match self.last_sequence {
            Some(point) => match drm_timeline {
                Some(timeline) => FinishAction::DrmSyncPoint { timeline, point },
                None => FinishAction::WaitFor(point),
            },
            None => FinishAction::Signaled,
        }
    }

    /// The transform that is applied to this frame.
    pub fn transformation(&self) -> (transform: Transform)
        ensures
            transform == self.transform,
    {
        self.transform
    }
}

/// The result code of a wait that took too long.
pub const VK_TIMEOUT: i32 = 2;

/// Whether a wait is to be repeated: only where it took too long.
pub fn wait_again(result: Result<(), i32>) -> (r: bool)
    ensures
        r == (result == Err::<(), i32>(VK_TIMEOUT)),
{
    match result {
        Err(code) => code == VK_TIMEOUT,
        Ok(_) => false,
    }
}

/// What a shader is told to draw lies on the framebuffer, whatever the damage is.
pub proof fn targets_stay_on_framebuffer(
    damage: Seq<Rectangle>,
    dst: Rectangle,
    transform: Transform,
    size: Size,
    fb: Size,
)
    requires
        fb.valid(),
    ensures
        all_valid(all_on_target(damage, dst, transform, size, fb)),
        all_within(
            all_on_target(damage, dst, transform, size, fb),
            rect(0, 0, fb.w as int, fb.h as int),
        ),
        all_on_target(damage, dst, transform, size, fb).len() <= damage.len(),
    decreases damage.len(),
{
    if damage.len() > 0 {
        targets_stay_on_framebuffer(damage.drop_last(), dst, transform, size, fb);
    }
}

/// On a framebuffer that holds the frame, a shader is told to draw exactly the damaged pixels
/// of a place in the frame, each at the place to which the transform brings it.
pub proof fn targets_are_damage(
    damage: Seq<Rectangle>,
    dst: Rectangle,
    transform: Transform,
    size: Size,
    fb: Size,
    x: int,
    y: int,
)
    requires
        size.valid(),
        dst.valid(),
        rect(0, 0, size.w as int, size.h as int).spec_contains_rect(dst),
        transform.spec_transform_size(size).w <= fb.w,
        transform.spec_transform_size(size).h <= fb.h,
        forall|i: int| 0 <= i < damage.len() ==> (#[trigger] damage[i]).movable(dst.loc),
    ensures
        ({
            let at = transform.pixel(x, y, size);
            covers(all_on_target(damage, dst, transform, size, fb), at.0, at.1) <==> dst.has(x, y)
                && covers(damage, x - dst.loc.x, y - dst.loc.y)
        }),
    decreases damage.len(),
{
    let all = all_on_target(damage, dst, transform, size, fb);
    let at = transform.pixel(x, y, size);
    let (u, v) = (x - dst.loc.x, y - dst.loc.y);
    if damage.len() > 0 {
        let head = damage.drop_last();
        let last = damage.last();
        assert forall|i: int| 0 <= i < head.len() implies (#[trigger] head[i]).movable(dst.loc) by {
            assert(damage[i].movable(dst.loc));
        }
        assert(damage[damage.len() - 1].movable(dst.loc));
        targets_are_damage(head, dst, transform, size, fb, x, y);
        let before = all_on_target(head, dst, transform, size, fb);
        let hit = last.spec_moved(dst.loc).spec_intersection(dst);
        if let Some(c) = hit {
            transform_stays_inside(transform, c, size);
            rect_transform_moves_pixels(transform, c, size, x, y);
            assert(placed(transform.spec_transform_rect_in(c, size), fb)
                == transform.spec_transform_rect_in(c, size));
            assert(all == before.push(transform.spec_transform_rect_in(c, size)));
            assert(all[all.len() - 1].has(at.0, at.1) <==> dst.has(x, y) && last.has(u, v));
        }
        if covers(all, at.0, at.1) {
            let i = choose|i: int| 0 <= i < all.len() && (#[trigger] all[i]).has(at.0, at.1);
            if i < before.len() {
                assert(before[i].has(at.0, at.1));
                let j = choose|j: int| 0 <= j < head.len() && (#[trigger] head[j]).has(u, v);
                assert(damage[j].has(u, v));
            } else {
                assert(damage[damage.len() - 1].has(u, v));
            }
        }
        if dst.has(x, y) && covers(damage, u, v) {
            let j = choose|j: int| 0 <= j < damage.len() && (#[trigger] damage[j]).has(u, v);
            if j < head.len() {
                assert(head[j].has(u, v));
                let i = choose|i: int|
                    0 <= i < before.len() && (#[trigger] before[i]).has(at.0, at.1);
                assert(all[i].has(at.0, at.1));
            } else {
                assert(last.spec_moved(dst.loc).has(x, y));
                assert(all[all.len() - 1].has(at.0, at.1));
            }
        }
    }
}

/// The number of runs: none without damage, else as many as are needed.
pub proof fn runs_cover_damage(
    frame: VulkanFrame,
    damage: Seq<Rectangle>,
    dst: Rectangle,
    n: int,
    from: int,
)
    requires
        n > 0,
        0 <= from,
    ensures
        commands_from(frame, damage, dst, n, from).len() == 2 * (if from >= damage.len() {
            0
        } else {
            (damage.len() - from + n - 1) / n
        }),
    decreases damage.len() + n - from,
{
    if from < damage.len() {
        runs_cover_damage(frame, damage, dst, n, from + n);
        let left = damage.len() - from;
        if left <= n {
            assert((left + n - 1) / n == 1) by (nonlinear_arith)
                requires
                    0 < left <= n,
            ;
        } else {
            assert((left + n - 1) / n == (left - n + n - 1) / n + 1) by (nonlinear_arith)
                requires
                    n > 0,
                    left > n,
            ;
        }
    }
}

/// The groups cover every pixel of the framebuffer, and no group is superfluous.
pub proof fn groups_cover_side(side: u32)
    ensures
        groups(side) * 8 >= side,
        side > 0 ==> (groups(side) - 1) * 8 < side,
{
}

} // verus!
