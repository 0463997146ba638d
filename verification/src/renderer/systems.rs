//! The system that turns sprites into render commands.

use crate::components::{Sprite, Transform};
use crate::engine::EngineState;
use crate::geometry::{Color, Point};
use crate::registry::{Handle, Registry};
use crate::renderer::assets::Image;
use crate::renderer::resources::{
    draw_calls, in_draw_order, lemma_sorted_stays, DrawCall, Images, RenderCommand,
    RenderCommands, RenderVariant,
};
use vstd::prelude::*;

verus! {

/// Whether the transform and the image of every sprite are stored.
pub open spec fn sprites_resolve(
    transforms: Seq<Transform>,
    sprites: Seq<Sprite>,
    images: Seq<(Seq<char>, Image)>,
) -> bool {
    forall|i: int|
        0 <= i < sprites.len() ==> (#[trigger] sprites[i]).transform@ < transforms.len()
            && sprites[i].image@ < images.len()
}

/// The command that draws `sprite`: its image, untinted, on the sprite's
/// layer, with the centre of the image at the place of the sprite's entity.
pub open spec fn sprite_command(
    transforms: Seq<Transform>,
    images: Seq<(Seq<char>, Image)>,
    sprite: Sprite,
) -> RenderCommand {
    let position = transforms[sprite.transform@ as int].position;
    let image = images[sprite.image@ as int].1;
    RenderCommand {
        layer: sprite.layer,
        color: Color::untinted(),
        position: Point::clamped(position.x as int, position.y as int).seen_from(image.center),
        variant: RenderVariant::Texture(image.index),
    }
}

/// The commands that draw `sprites`, one for each, in their order.
pub open spec fn sprite_commands(
    transforms: Seq<Transform>,
    sprites: Seq<Sprite>,
    images: Seq<(Seq<char>, Image)>,
) -> Seq<RenderCommand> {
    sprites.map_values(|sprite: Sprite| sprite_command(transforms, images, sprite))
}

/// Draws the sprites of a game.
pub struct RenderSystem {}

impl RenderSystem {
    /// Whether the transform and the image of every sprite are stored, which
    /// is what [`RenderSystem::run`] asks for.
    pub fn can_run(
        transforms: &Registry<Transform>,
        sprites: &Registry<Sprite>,
        images: &Images,
    ) -> (ready: bool)
        ensures
            ready == sprites_resolve(transforms@, sprites@, images@),
    {
        let mut at: usize = 0;
        while at < sprites.len()
            invariant
                at <= sprites@.len(),
                forall|i: int|
                    0 <= i < at ==> (#[trigger] sprites@[i]).transform@ < transforms@.len()
                        && sprites@[i].image@ < images@.len(),
            decreases sprites@.len() - at,
        {
            let sprite = sprites.get(Handle::from_index(at));
            if !transforms.contains(sprite.transform) || !images.contains(sprite.image) {
                return false;
            }
            at += 1;
        }
        true
    }

    /// Refills the queue for a frame: drops what is queued, queues one
    /// command for each sprite and puts the queue in draw order.
    pub fn run(
        &mut self,
        transforms: &Registry<Transform>,
        sprites: &Registry<Sprite>,
        images: &Images,
        commands: &mut RenderCommands,
    )
        requires
            sprites_resolve(transforms@, sprites@, images@),
        ensures
            final(commands).commands@
                == in_draw_order(sprite_commands(transforms@, sprites@, images@)),
    {
        commands.clear();
        let mut at: usize = 0;
        while at < sprites.len()
            invariant
                at <= sprites@.len(),
                sprites_resolve(transforms@, sprites@, images@),
                commands.commands@
                    == sprite_commands(transforms@, sprites@, images@).take(at as int),
            decreases sprites@.len() - at,
        {
            let sprite = sprites.get(Handle::from_index(at));
            let transform = transforms.get(sprite.transform);
            let image = images.get(sprite.image);
            let place = Point::new(transform.position.x, transform.position.y);
            let position = place.relative_to(image.center);
            commands.add_texture(sprite.layer, Color::white(), position, image.index);
            proof {
                assert(commands.commands@
                    =~= sprite_commands(transforms@, sprites@, images@).take(at as int + 1));
            }
            at += 1;
        }
        proof {
            assert(commands.commands@ =~= sprite_commands(transforms@, sprites@, images@));
        }
        commands.sort();
    }

    /// Draws one frame: returns the calls that draw every sprite of `state`,
    /// lower layers first and the sprites of one layer in the order in which
    /// they were added.
    pub fn update(state: &EngineState) -> (calls: Vec<DrawCall>)
        requires
            sprites_resolve(state.transforms@, state.sprites@, state.image_resources@),
        ensures
            calls@ == draw_calls(
                sprite_commands(state.transforms@, state.sprites@, state.image_resources@),
            ),
    {
        let mut system = RenderSystem {};
        let mut commands = RenderCommands::new();
        system.run(&state.transforms, &state.sprites, &state.image_resources, &mut commands);
        proof {
            state.sprites.lemma_len_fits();
            lemma_sorted_stays(
                sprite_commands(state.transforms@, state.sprites@, state.image_resources@),
            );
        }
        commands.dispatch()
    }
}

} // verus!
