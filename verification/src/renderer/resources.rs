//! The queue of render commands and its dispatch.

use crate::assets::AssetCollection;
use crate::geometry::{Color, Point};
use crate::renderer::assets::{Font, Image};
use crate::renderer::draw_order::{
    draw_order, draws_before, has_turn, is_draw_order, lemma_draw_order,
    lemma_draw_order_is_unique, order_of,
};
use vstd::prelude::*;

verus! {

/// The images of a game.
pub type Images = AssetCollection<Image>;

/// The fonts of a game.
pub type Fonts = AssetCollection<Font>;

/// What a render command draws.
#[derive(Clone, Copy, Debug, PartialEq, Eq)]
pub enum RenderVariant {
    /// The texture at this index.
    Texture(usize),
    /// The texture at this index, mirrored horizontally, vertically, or both.
    TextureEx(usize, bool, bool),
    /// The outline of a rectangle of this width and height.
    Rect(u32, u32),
    /// A filled rectangle of this width and height.
    RectFill(u32, u32),
    /// A line to this point.
    Line(Point),
    /// A single pixel.
    Point,
}

/// One queued request to draw.
#[derive(Clone, Copy, Debug, PartialEq, Eq)]
pub struct RenderCommand {
    /// Commands on lower layers are drawn first.
    pub layer: usize,
    pub color: Color,
    /// Where to draw: the corner at which a texture or rectangle is anchored,
    /// the start of a line, the pixel of a point.
    pub position: Point,
    pub variant: RenderVariant,
}

/// One thing asked of the rasterizer.
#[derive(Clone, Copy, Debug, PartialEq, Eq)]
pub enum DrawCall {
    /// Copy a texture to `position`, mirrored as the flags say.
    Texture {
        color: Color,
        texture_index: usize,
        position: Point,
        flip_horizontal: bool,
        flip_vertical: bool,
    },
    /// Outline the rectangle of this size whose corner is `position`.
    Rect { color: Color, position: Point, width: u32, height: u32 },
    /// Fill the rectangle of this size whose corner is `position`.
    RectFill { color: Color, position: Point, width: u32, height: u32 },
    /// Draw the segment from `from` to `to`.
    Line { color: Color, from: Point, to: Point },
    /// Set the pixel at `position`.
    Point { color: Color, position: Point },
}

impl RenderCommand {
    /// What the command asks of the rasterizer.
    pub open spec fn draw(self) -> DrawCall {
        match self.variant {
            RenderVariant::Texture(texture_index) => DrawCall::Texture {
                color: self.color,
                texture_index,
                position: self.position,
                flip_horizontal: false,
                flip_vertical: false,
            },
            RenderVariant::TextureEx(texture_index, flip_horizontal, flip_vertical) => {
                DrawCall::Texture {
                    color: self.color,
                    texture_index,
                    position: self.position,
                    flip_horizontal,
                    flip_vertical,
                }
            },
            RenderVariant::Rect(width, height) => DrawCall::Rect {
                color: self.color,
                position: self.position,
                width,
                height,
            },
            RenderVariant::RectFill(width, height) => DrawCall::RectFill {
                color: self.color,
                position: self.position,
                width,
                height,
            },
            RenderVariant::Line(to) => DrawCall::Line {
                color: self.color,
                from: self.position,
                to,
            },
            RenderVariant::Point => DrawCall::Point { color: self.color, position: self.position },
        }
    }

    /// What the command asks of the rasterizer.
    pub fn draw_call(&self) -> (call: DrawCall)
        ensures
            call == self.draw(),
    {
        match self.variant {
            RenderVariant::Texture(texture_index) => DrawCall::Texture {
                color: self.color,
                texture_index,
                position: self.position,
                flip_horizontal: false,
                flip_vertical: false,
            },
            RenderVariant::TextureEx(texture_index, flip_horizontal, flip_vertical) => {
                DrawCall::Texture {
                    color: self.color,
                    texture_index,
                    position: self.position,
                    flip_horizontal,
                    flip_vertical,
                }
            },
            RenderVariant::Rect(width, height) => DrawCall::Rect {
                color: self.color,
                position: self.position,
                width,
                height,
            },
            RenderVariant::RectFill(width, height) => DrawCall::RectFill {
                color: self.color,
                position: self.position,
                width,
                height,
            },
            RenderVariant::Line(to) => DrawCall::Line {
                color: self.color,
                from: self.position,
                to,
            },
            RenderVariant::Point => DrawCall::Point { color: self.color, position: self.position },
        }
    }
}

/// The layer of each command, in the order of the queue.
pub open spec fn layers_of(commands: Seq<RenderCommand>) -> Seq<usize> {
    commands.map_values(|command: RenderCommand| command.layer)
}

/// The commands as they are drawn: lower layers first, the commands of one
/// layer in the order of the queue.
pub open spec fn in_draw_order(commands: Seq<RenderCommand>) -> Seq<RenderCommand> {
    draw_order(layers_of(commands)).map_values(|queued: usize| commands[queued as int])
}

/// The calls that dispatching `commands` issues, first call first.
pub open spec fn draw_calls(commands: Seq<RenderCommand>) -> Seq<DrawCall> {
    in_draw_order(commands).map_values(|command: RenderCommand| command.draw())
}

/// The commands queued in the current frame, in the order in which they were
/// queued.
pub struct RenderCommands {
    pub commands: Vec<RenderCommand>,
}

impl Default for RenderCommands {
    fn default() -> (queue: RenderCommands)
        ensures
            queue.commands@ == Seq::<RenderCommand>::empty(),
    {
        RenderCommands { commands: Vec::new() }
    }
}

impl RenderCommands {
    /// An empty queue.
    pub fn new() -> (queue: RenderCommands)
        ensures
            queue.commands@ == Seq::<RenderCommand>::empty(),
    {
        RenderCommands { commands: Vec::new() }
    }

    /// Empties the queue.
    pub fn clear(&mut self)
        ensures
            final(self).commands@ == Seq::<RenderCommand>::empty(),
    {
        self.commands.clear();
    }

    /// How many commands are queued.
    pub fn len(&self) -> (len: usize)
        ensures
            len == self.commands@.len(),
    {
        self.commands.len()
    }

    /// Queues the drawing of a texture.
    pub fn add_texture(
        &mut self,
        layer: usize,
        color: Color,
        position: Point,
        texture_index: usize,
    )
        ensures
            final(self).commands@ == old(self).commands@.push(
                RenderCommand {
                    layer,
                    color,
                    position,
                    variant: RenderVariant::Texture(texture_index),
                },
            ),
    {
        self.commands.push(
            RenderCommand {
                layer,
                color,
                position,
                variant: RenderVariant::Texture(texture_index),
            },
        )
    }

    /// Queues the drawing of a texture that may be mirrored.
    pub fn add_texture_ex(
        &mut self,
        layer: usize,
        color: Color,
        position: Point,
        texture_index: usize,
        flip_horizontal: bool,
        flip_vertical: bool,
    )
        ensures
            final(self).commands@ == old(self).commands@.push(
                RenderCommand {
                    layer,
                    color,
                    position,
                    variant: RenderVariant::TextureEx(
                        texture_index,
                        flip_horizontal,
                        flip_vertical,
                    ),
                },
            ),
    {
        self.commands.push(
            RenderCommand {
                layer,
                color,
                position,
                variant: RenderVariant::TextureEx(texture_index, flip_horizontal, flip_vertical),
            },
        )
    }

    /// Queues the drawing of the outline of a rectangle.
    pub fn add_rect(
        &mut self,
        layer: usize,
        color: Color,
        position: Point,
        width: u32,
        height: u32,
    )
        ensures
            final(self).commands@ == old(self).commands@.push(
                RenderCommand {
                    layer,
                    color,
                    position,
                    variant: RenderVariant::Rect(width, height),
                },
            ),
    {
        self.commands.push(
            RenderCommand {
                layer,
                color,
                position,
                variant: RenderVariant::Rect(width, height),
            },
        )
    }

    /// Queues the drawing of a filled rectangle.
    pub fn add_rect_fill(
        &mut self,
        layer: usize,
        color: Color,
        position: Point,
        width: u32,
        height: u32,
    )
        ensures
            final(self).commands@ == old(self).commands@.push(
                RenderCommand {
                    layer,
                    color,
                    position,
                    variant: RenderVariant::RectFill(width, height),
                },
            ),
    {
        self.commands.push(
            RenderCommand {
                layer,
                color,
                position,
                variant: RenderVariant::RectFill(width, height),
            },
        )
    }

    /// Queues the drawing of a line from `position` to `to`.
    pub fn add_line(&mut self, layer: usize, color: Color, position: Point, to: Point)
        ensures
            final(self).commands@ == old(self).commands@.push(
                RenderCommand {
                    layer,
                    color,
                    position,
                    variant: RenderVariant::Line(to),
                },
            ),
    {
        self.commands.push(
            RenderCommand {
                layer,
                color,
                position,
                variant: RenderVariant::Line(to),
            },
        )
    }

    /// Queues the drawing of a single pixel.
    pub fn add_point(&mut self, layer: usize, color: Color, position: Point)
        ensures
            final(self).commands@ == old(self).commands@.push(
                RenderCommand {
                    layer,
                    color,
                    position,
                    variant: RenderVariant::Point,
                },
            ),
    {
        self.commands.push(
            RenderCommand {
                layer,
                color,
                position,
                variant: RenderVariant::Point,
            },
        )
    }

    /// The order in which the queued commands are drawn: entry `k` is the
    /// place in the queue of the command that is drawn as number `k`.
    pub fn draw_order(&self) -> (order: Vec<usize>)
        ensures
            order@ == draw_order(layers_of(self.commands@)),
            is_draw_order(layers_of(self.commands@), order@),
    {
        let mut layers: Vec<usize> = Vec::new();
        let mut queued: usize = 0;
        while queued < self.commands.len()
            invariant
                queued <= self.commands@.len(),
                layers@ == layers_of(self.commands@).take(queued as int),
            decreases self.commands@.len() - queued,
        {
            layers.push(self.commands[queued].layer);
            proof {
                assert(layers@ =~= layers_of(self.commands@).take(queued as int + 1));
            }
            queued += 1;
        }
        proof {
            assert(layers@ =~= layers_of(self.commands@));
        }
        order_of(&layers)
    }

    /// Puts the queue in draw order.
    pub fn sort(&mut self)
        ensures
            final(self).commands@ == in_draw_order(old(self).commands@),
    {
        let order = self.draw_order();
        let mut sorted: Vec<RenderCommand> = Vec::new();
        let mut turn: usize = 0;
        while turn < order.len()
            invariant
                turn <= order.len(),
                is_draw_order(layers_of(self.commands@), order@),
                order@ == draw_order(layers_of(self.commands@)),
                sorted@ == in_draw_order(self.commands@).take(turn as int),
            decreases order.len() - turn,
        {
            sorted.push(self.commands[order[turn]]);
            proof {
                assert(sorted@ =~= in_draw_order(self.commands@).take(turn as int + 1));
            }
            turn += 1;
        }
        proof {
            assert(sorted@ =~= in_draw_order(self.commands@));
        }
        self.commands = sorted;
    }

    /// Ends the frame: returns one call per queued command, in draw order, and
    /// empties the queue.
    ///
    /// The calls are to be issued in the order given.
    pub fn dispatch(&mut self) -> (calls: Vec<DrawCall>)
        ensures
            calls@ == draw_calls(old(self).commands@),
            calls@.len() == old(self).commands@.len(),
            final(self).commands@ == Seq::<RenderCommand>::empty(),
    {
        let order = self.draw_order();
        let mut calls: Vec<DrawCall> = Vec::new();
        let mut turn: usize = 0;
        while turn < order.len()
            invariant
                turn <= order.len(),
                is_draw_order(layers_of(self.commands@), order@),
                order@ == draw_order(layers_of(self.commands@)),
                calls@ == draw_calls(self.commands@).take(turn as int),
            decreases order.len() - turn,
        {
            calls.push(self.commands[order[turn]].draw_call());
            proof {
                assert(calls@ =~= draw_calls(self.commands@).take(turn as int + 1));
            }
            turn += 1;
        }
        proof {
            assert(calls@ =~= draw_calls(self.commands@));
        }
        self.commands.clear();
        calls
    }
}

/// Dispatch issues one call for each queued command, and the call issued as
/// number `turn` is that of the command whose turn it is by the draw order:
/// lower layers before higher ones, and one layer in the order of queueing.
pub proof fn lemma_calls_follow_draw_order(commands: Seq<RenderCommand>, turn: int)
    requires
        commands.len() <= usize::MAX,
        0 <= turn < commands.len(),
    ensures
        is_draw_order(layers_of(commands), draw_order(layers_of(commands))),
        draw_calls(commands).len() == commands.len(),
        draw_calls(commands)[turn]
            == commands[draw_order(layers_of(commands))[turn] as int].draw(),
{
    lemma_draw_order(layers_of(commands));
}

/// Commands that are in draw order already are drawn as they stand.
pub proof fn lemma_sorted_stays(commands: Seq<RenderCommand>)
    requires
        commands.len() <= usize::MAX,
    ensures
        in_draw_order(in_draw_order(commands)) == in_draw_order(commands),
        draw_calls(in_draw_order(commands)) == draw_calls(commands),
{
    let layers = layers_of(commands);
    let order = draw_order(layers);
    let sorted = in_draw_order(commands);
    let as_queued = Seq::new(sorted.len(), |k: int| k as usize);
    lemma_draw_order(layers);
    let sorted_layers = layers_of(sorted);
    assert forall|j: int, k: int| 0 <= j < k < as_queued.len() implies
        draws_before(sorted_layers, #[trigger] as_queued[j] as int, #[trigger] as_queued[k] as int)
    by {
        assert(draws_before(layers, order[j] as int, order[k] as int));
    }
    assert forall|i: int| 0 <= i < sorted.len() implies #[trigger] has_turn(as_queued, i) by {
        assert(as_queued[i] == i);
    }
    lemma_draw_order_is_unique(layers_of(sorted), as_queued);
    assert(in_draw_order(sorted) =~= sorted);
}

/// A queue that was just cleared dispatches nothing.
pub proof fn lemma_nothing_queued_nothing_drawn()
    ensures
        draw_calls(Seq::<RenderCommand>::empty()) == Seq::<DrawCall>::empty(),
{
    assert(layers_of(Seq::<RenderCommand>::empty()) =~= Seq::<usize>::empty());
    assert(draw_calls(Seq::<RenderCommand>::empty()) =~= Seq::<DrawCall>::empty());
}

} // verus!
