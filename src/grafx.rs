//! The renderer's registries and the plan of one frame.
//!
//! The GPU objects are opaque here: the host creates them and carries out
//! each plan, and the renderer decides what each frame does.
use vstd::prelude::*;
use crate::registry::Registry;
use crate::sprite::{QuadGeometry, Sprite};
use crate::texture::AssetError;

verus! {

/// One step of a frame, carried out in order by the host.
#[derive(Debug)]
pub enum FrameCommand {
    /// Open the render pass, clearing the frame to the background color.
    BeginPass,
    /// Bind the render pipeline.
    SetPipeline,
    /// Bind the named sprite's texture and buffers and draw its indices.
    Draw(String),
    /// Submit the recorded commands to the queue.
    Submit,
    /// Hand the frame to the compositor.
    Present,
}

/// A frame in which sprites were attempted and none could be drawn.
#[derive(Clone, Copy, Debug, PartialEq, Eq, Structural)]
pub enum RenderError {
    EmptyFrame,
}

/// What one frame does, and what went missing.
#[derive(Debug)]
pub struct FramePlan {
    pub commands: Vec<FrameCommand>,
    /// The texture key of each visible sprite that was skipped, in order.
    pub missing_textures: Vec<String>,
    pub result: Result<(), RenderError>,
}

/// The keys of the strings in `v`.
pub open spec fn keys_of(v: Seq<String>) -> Seq<Seq<char>> {
    v.map_values(|s: String| s@)
}

/// Over the visible sprite keys, in order: the sprites drawn, the texture keys
/// found missing, and how many sprites were attempted. A key with no sprite is
/// passed over; a sprite whose texture is registered is drawn; one whose
/// texture is not is skipped and its texture key reported.
pub open spec fn frame_spec<G>(
    sprites: Map<Seq<char>, Sprite<G>>,
    textures: Set<Seq<char>>,
    visible: Seq<Seq<char>>,
) -> (Seq<Seq<char>>, Seq<Seq<char>>, nat)
    decreases visible.len(),
{
    if visible.len() == 0 {
        (Seq::empty(), Seq::empty(), 0)
    } else {
        let p = frame_spec(sprites, textures, visible.drop_last());
        let k = visible.last();
        if !sprites.contains_key(k) {
            p
        } else if textures.contains(sprites[k].texture_key@) {
            (p.0.push(k), p.1, p.2 + 1)
        } else {
            (p.0, p.1.push(sprites[k].texture_key@), p.2 + 1)
        }
    }
}

/// The renderer's registries: texture bindings and sprites, each by name.
pub struct Grafx<B, G> {
    pub bindings: Registry<B>,
    pub sprites: Registry<Sprite<G>>,
}

impl<B, G> Grafx<B, G> {
    pub open spec fn wf(&self) -> bool {
        self.bindings.wf() && self.sprites.wf()
    }

    /// A renderer with nothing registered.
    pub fn new() -> (r: Grafx<B, G>)
        ensures
            r.wf(),
            r.bindings@ == Map::<Seq<char>, B>::empty(),
            r.sprites@ == Map::<Seq<char>, Sprite<G>>::empty(),
    {
        Grafx { bindings: Registry::new(), sprites: Registry::new() }
    }

    /// Registers a texture binding under `key`, replacing any earlier one.
    pub fn add_texture(&mut self, key: String, binding: B)
        requires
            old(self).wf(),
        ensures
            final(self).wf(),
            final(self).bindings@ == old(self).bindings@.insert(key@, binding),
            final(self).sprites@ == old(self).sprites@,
    {
        let _ = self.bindings.insert(key, binding);
    }

    /// Registers a sprite under `key`, replacing any earlier one.
    pub fn add_sprite(&mut self, key: String, sprite: Sprite<G>)
        requires
            old(self).wf(),
        ensures
            final(self).wf(),
            final(self).sprites@ == old(self).sprites@.insert(key@, sprite),
            final(self).bindings@ == old(self).bindings@,
    {
        let _ = self.sprites.insert(key, sprite);
    }

    /// Registers an asset under `key` when it loaded: its texture binding, and
    /// a sprite that draws `geometry` from `buffers` with that texture. When it
    /// did not load, nothing is registered and its error is returned.
    pub fn register_asset(
        &mut self,
        key: String,
        loaded: Result<(B, G), AssetError>,
        geometry: &QuadGeometry,
    ) -> (r: Result<(), AssetError>)
        requires
            old(self).wf(),
            geometry.indices@.len() <= u32::MAX,
        ensures
            final(self).wf(),
            match loaded {
                Err(e) => {
                    &&& r == Err::<(), AssetError>(e)
                    &&& final(self).bindings@ == old(self).bindings@
                    &&& final(self).sprites@ == old(self).sprites@
                },
                Ok((binding, buffers)) => {
                    let sprite = final(self).sprites@[key@];
                    &&& r is Ok
                    &&& final(self).bindings@ == old(self).bindings@.insert(key@, binding)
                    &&& final(self).sprites@ == old(self).sprites@.insert(key@, sprite)
                    &&& sprite.texture_key@ == key@
                    &&& sprite.num_indices == geometry.indices@.len()
                    &&& sprite.buffers == buffers
                },
            },
    {
        match loaded {
            Err(e) => Err(e),
            Ok((binding, buffers)) => {
                let sprite = Sprite::new(key.clone(), geometry, buffers);
                self.add_texture(key.clone(), binding);
                self.add_sprite(key, sprite);
                Ok(())
            },
        }
    }

    /// Plans one frame over the sprites marked visible: clear, bind the
    /// pipeline, draw each visible sprite whose texture is registered (skipping
    /// and reporting the others), submit and present. The frame fails with
    /// `EmptyFrame` exactly when some sprite was attempted and none drawn; it
    /// is submitted and presented either way.
    pub fn render(&self, visible: &Vec<String>) -> (r: FramePlan)
        requires
            self.wf(),
        ensures
            ({
                let (drawn, missing, attempted) = frame_spec(
                    self.sprites@,
                    self.bindings@.dom(),
                    keys_of(visible@),
                );
                &&& r.commands@.len() == drawn.len() + 4
                &&& r.commands@[0] is BeginPass
                &&& r.commands@[1] is SetPipeline
                &&& forall|i: int|
                    0 <= i < drawn.len() ==> (#[trigger] r.commands@[i + 2] matches FrameCommand::Draw(k)
                        && k@ == drawn[i])
                &&& r.commands@[drawn.len() + 2int] is Submit
                &&& r.commands@[drawn.len() + 3int] is Present
                &&& keys_of(r.missing_textures@) == missing
                &&& (r.result is Err <==> attempted > 0 && drawn.len() == 0)
            }),
    {
        let ghost vis = keys_of(visible@);
        let mut drawn: Vec<String> = Vec::new();
        let mut missing: Vec<String> = Vec::new();
        let mut attempted: usize = 0;
        let mut i: usize = 0;
        while i < visible.len()
            invariant
                self.wf(),
                vis == keys_of(visible@),
                0 <= i <= visible@.len(),
                attempted <= i,
                (keys_of(drawn@), keys_of(missing@), attempted as nat) == frame_spec(
                    self.sprites@,
                    self.bindings@.dom(),
                    vis.take(i as int),
                ),
            decreases visible@.len() - i,
        {
            proof {
                assert(vis.take(i + 1).drop_last() =~= vis.take(i as int));
            }
            let key = &visible[i];
            match self.sprites.get(key) {
                None => {},
                Some(sprite) => {
                    if self.bindings.contains_key(&sprite.texture_key) {
                        drawn.push(key.clone());
                    } else {
                        missing.push(sprite.texture_key.clone());
                    }
                    attempted = attempted + 1;
                },
            }
            proof {
                assert(keys_of(drawn@) =~= frame_spec(self.sprites@, self.bindings@.dom(), vis.take(i + 1)).0);
                assert(keys_of(missing@) =~= frame_spec(self.sprites@, self.bindings@.dom(), vis.take(i + 1)).1);
            }
            i = i + 1;
        }
        proof {
            assert(vis.take(visible@.len() as int) =~= vis);
        }
        let mut commands: Vec<FrameCommand> = Vec::new();
        commands.push(FrameCommand::BeginPass);
        commands.push(FrameCommand::SetPipeline);
        let mut j: usize = 0;
        while j < drawn.len()
            invariant
                0 <= j <= drawn@.len(),
                commands@.len() == j + 2,
                commands@[0] is BeginPass,
                commands@[1] is SetPipeline,
                forall|m: int|
                    0 <= m < j ==> (#[trigger] commands@[m + 2] matches FrameCommand::Draw(k) && k@
                        == drawn@[m]@),
            decreases drawn@.len() - j,
        {
            commands.push(FrameCommand::Draw(drawn[j].clone()));
            proof {
                assert(commands@[j + 2] matches FrameCommand::Draw(k) && k@ == drawn@[j as int]@);
            }
            j = j + 1;
        }
        commands.push(FrameCommand::Submit);
        commands.push(FrameCommand::Present);
        let result = if attempted > 0 && drawn.len() == 0 {
            Err(RenderError::EmptyFrame)
        } else {
            Ok(())
        };
        FramePlan { commands, missing_textures: missing, result }
    }
}

/// A sprite whose texture is registered is drawn: a frame over that sprite
/// alone draws it, reports nothing missing, and succeeds.
pub proof fn lemma_registered_pair_draws<G>(
    sprites: Map<Seq<char>, Sprite<G>>,
    textures: Set<Seq<char>>,
    key: Seq<char>,
)
    requires
        sprites.contains_key(key),
        textures.contains(sprites[key].texture_key@),
    ensures
        frame_spec(sprites, textures, seq![key]) == (seq![key], Seq::<Seq<char>>::empty(), 1nat),
{
    let v = seq![key];
    assert(v.drop_last() =~= Seq::<Seq<char>>::empty());
    assert(frame_spec(sprites, textures, v.drop_last()) == (
        Seq::<Seq<char>>::empty(),
        Seq::<Seq<char>>::empty(),
        0nat,
    ));
    assert(Seq::<Seq<char>>::empty().push(key) =~= v);
}

} // verus!
