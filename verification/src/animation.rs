use vstd::prelude::*;
use crate::character::{CharacterState, Facing, spec_direction_index};

verus! {

/// The animations a character sheet provides.
#[derive(Clone, Copy, Debug, PartialEq, Eq, Structural, Hash)]
pub enum AnimationType {
    Walk,
    Run,
    Jump,
}

impl Default for AnimationType {
    fn default() -> (kind: AnimationType)
        ensures
            kind == AnimationType::Walk,
    {
        AnimationType::Walk
    }
}

/// Where an animation sits in a sprite sheet: its first row, its number of
/// frames, and whether it has one row per facing (up, left, down, right).
#[derive(Clone, Copy, Debug, PartialEq, Eq, Structural)]
pub struct AnimationDef {
    pub start_row: usize,
    pub frame_count: usize,
    pub directional: bool,
}

/// The animations of a character sheet, by kind; a kind may be missing.
#[derive(Clone, Copy, Debug, PartialEq, Eq, Structural)]
pub struct AnimationTable {
    pub walk: Option<AnimationDef>,
    pub run: Option<AnimationDef>,
    pub jump: Option<AnimationDef>,
}

impl AnimationTable {
    /// The definition of animation `kind`, if the sheet has one.
    pub open spec fn spec_get(self, kind: AnimationType) -> Option<AnimationDef> {
        match kind {
            AnimationType::Walk => self.walk,
            AnimationType::Run => self.run,
            AnimationType::Jump => self.jump,
        }
    }

    /// The definition of animation `kind`, if the sheet has one.
    pub fn get(&self, kind: AnimationType) -> (def: Option<AnimationDef>)
        ensures
            def == self.spec_get(kind),
    {
        match kind {
            AnimationType::Walk => self.walk,
            AnimationType::Run => self.run,
            AnimationType::Jump => self.jump,
        }
    }
}

/// First and last atlas index of a clip (both included).
pub struct ClipModel {
    pub first: int,
    pub last: int,
}

/// A run of consecutive frames of a texture atlas, played in a loop.
#[derive(Clone, Copy)]
pub struct AnimationClip {
    first: usize,
    last: usize,
}

impl View for AnimationClip {
    type V = ClipModel;

    closed spec fn view(&self) -> ClipModel {
        ClipModel { first: self.first as int, last: self.last as int }
    }
}

/// Whether a clip of `frame_count` frames starting on `row` of an atlas with
/// `atlas_columns` columns has atlas indices that fit in a `usize`.
pub open spec fn clip_fits(row: int, frame_count: int, atlas_columns: int) -> bool {
    &&& row * atlas_columns <= usize::MAX
    &&& 1 <= row * atlas_columns + frame_count <= usize::MAX
}

/// The frame that follows atlas index `index` in a clip: one further, and
/// back to the first frame after the last.
pub open spec fn spec_next(clip: ClipModel, index: int) -> int {
    if index >= clip.last { clip.first } else { index + 1 }
}

/// The index reached from `index` after `steps` frames.
pub open spec fn spec_advance(clip: ClipModel, index: int, steps: nat) -> int
    decreases steps,
{
    if steps == 0 { index } else { spec_advance(clip, spec_next(clip, index), (steps - 1) as nat) }
}

impl AnimationClip {
    /// The clip of `frame_count` frames starting on row `row` of an atlas with
    /// `atlas_columns` columns.
    pub fn new(row: usize, frame_count: usize, atlas_columns: usize) -> (clip: AnimationClip)
        requires
            clip_fits(row as int, frame_count as int, atlas_columns as int),
        ensures
            clip@.first == row * atlas_columns,
            clip@.last == row * atlas_columns + frame_count - 1,
    {
        let first = row * atlas_columns;
        AnimationClip { first, last: first + frame_count - 1 }
    }

    /// Atlas index of the first frame.
    pub fn start(&self) -> (first: usize)
        ensures
            first == self@.first,
    {
        self.first
    }

    /// Whether atlas index `index` belongs to the clip.
    pub fn contains(&self, index: usize) -> (inside: bool)
        ensures
            inside == (self@.first <= index <= self@.last),
    {
        self.first <= index && index <= self.last
    }

    /// The frame shown after `index`: the next one, or the first after the last.
    pub fn next(&self, index: usize) -> (following: usize)
        ensures
            following == spec_next(self@, index as int),
    {
        if index >= self.last {
            self.first
        } else {
            index + 1
        }
    }

    /// Whether a one-shot animation has played out: its last frame is shown
    /// and that frame's time is up.
    pub fn is_complete(self, current_index: usize, timer_finished: bool) -> (done: bool)
        ensures
            done == (current_index >= self@.last && timer_finished),
    {
        current_index >= self.last && timer_finished
    }

    /// The frame to continue from: the current one if it belongs to the clip,
    /// else the clip's first frame, together with whether the frame timer has
    /// to restart because of the jump.
    pub fn realign(&self, index: usize) -> (resumed: (usize, bool))
        ensures
            (self@.first <= index <= self@.last) ==> resumed == (index, false),
            !(self@.first <= index <= self@.last) ==> resumed.0 == self@.first && resumed.1,
    {
        if self.contains(index) {
            (index, false)
        } else {
            (self.first, true)
        }
    }
}

/// Row of the sheet on which an animation is shown for `facing`.
pub open spec fn clip_row(def: AnimationDef, facing: Facing) -> int {
    if def.directional {
        def.start_row + spec_direction_index(facing)
    } else {
        def.start_row as int
    }
}

/// Whether the atlas indices of `def` shown towards `facing` fit in a `usize`.
pub open spec fn def_fits(def: AnimationDef, atlas_columns: usize, facing: Facing) -> bool {
    &&& clip_row(def, facing) <= usize::MAX
    &&& clip_fits(clip_row(def, facing), def.frame_count as int, atlas_columns as int)
}

/// A directional sheet holds one row per facing, in the order up, left,
/// down, right, starting at its first row; a sheet without directions shows
/// its first row whatever the facing.
pub proof fn lemma_facing_rows(def: AnimationDef, facing: Facing)
    ensures
        def.directional ==> clip_row(def, Facing::Up) == def.start_row,
        def.directional ==> clip_row(def, Facing::Left) == def.start_row + 1,
        def.directional ==> clip_row(def, Facing::Down) == def.start_row + 2,
        def.directional ==> clip_row(def, Facing::Right) == def.start_row + 3,
        !def.directional ==> clip_row(def, facing) == def.start_row,
{
}

/// Animation a movement state plays: idling shows the walk cycle's first frame.
pub open spec fn spec_animation_for_state(state: CharacterState) -> AnimationType {
    match state {
        CharacterState::Idle | CharacterState::Walking => AnimationType::Walk,
        CharacterState::Running => AnimationType::Run,
        CharacterState::Jumping => AnimationType::Jump,
    }
}

/// Idling and walking show the walk cycle, running the run cycle and
/// jumping the jump animation.
pub proof fn lemma_state_animations()
    ensures
        spec_animation_for_state(CharacterState::Idle) == AnimationType::Walk,
        spec_animation_for_state(CharacterState::Walking) == AnimationType::Walk,
        spec_animation_for_state(CharacterState::Running) == AnimationType::Run,
        spec_animation_for_state(CharacterState::Jumping) == AnimationType::Jump,
{
}

/// Animation that a character in `state` plays.
pub fn animation_for_state(state: CharacterState) -> (kind: AnimationType)
    ensures
        kind == spec_animation_for_state(state),
{
    match state {
        CharacterState::Idle | CharacterState::Walking => AnimationType::Walk,
        CharacterState::Running => AnimationType::Run,
        CharacterState::Jumping => AnimationType::Jump,
    }
}

/// Which animation a character currently plays.
pub struct AnimationController {
    pub current_animation: AnimationType,
}

impl Default for AnimationController {
    fn default() -> (controller: AnimationController)
        ensures
            controller.current_animation == AnimationType::Walk,
    {
        AnimationController { current_animation: AnimationType::Walk }
    }
}

impl AnimationController {
    /// The clip of the current animation for a character facing `facing`,
    /// or `None` if the sheet lacks that animation.
    pub fn get_clip(&self, animations: &AnimationTable, atlas_columns: usize, facing: Facing) -> (clip: Option<AnimationClip>)
        requires
            animations.spec_get(self.current_animation) matches Some(def) ==> def_fits(def, atlas_columns, facing),
        ensures
            match animations.spec_get(self.current_animation) {
                None => clip is None,
                Some(def) => clip matches Some(c)
                    && c@.first == clip_row(def, facing) * atlas_columns
                    && c@.last == clip_row(def, facing) * atlas_columns + def.frame_count - 1,
            },
    {
        let def = match animations.get(self.current_animation) {
            Some(def) => def,
            None => return None,
        };
        let row = if def.directional {
            def.start_row + facing.direction_index()
        } else {
            def.start_row
        };
        Some(AnimationClip::new(row, def.frame_count, atlas_columns))
    }

    /// Switches to the animation of `state`; reports whether it changed, in
    /// which case the frame timer restarts.
    pub fn update_for_state(&mut self, state: CharacterState) -> (changed: bool)
        ensures
            final(self).current_animation == spec_animation_for_state(state),
            changed == (old(self).current_animation != spec_animation_for_state(state)),
    {
        let new_animation = animation_for_state(state);
        if self.current_animation != new_animation {
            self.current_animation = new_animation;
            true
        } else {
            false
        }
    }
}

/// State of a jumping player after a frame: the jump ends (back to idle) once
/// its animation has played out; any other state is left as it is. The frame
/// index is `None` when the sprite has no atlas, the clip `None` when the
/// sheet lacks the current animation.
pub fn state_after_jump_frame(
    state: CharacterState,
    clip: Option<AnimationClip>,
    frame: Option<usize>,
    timer_finished: bool,
) -> (next: CharacterState)
    ensures
        next == (if state == CharacterState::Jumping && (clip matches Some(c) && frame matches Some(i)
            && i >= c@.last && timer_finished) {
            CharacterState::Idle
        } else {
            state
        }),
{
    if state != CharacterState::Jumping {
        return state;
    }
    match (clip, frame) {
        (Some(c), Some(i)) => {
            if c.is_complete(i, timer_finished) {
                CharacterState::Idle
            } else {
                state
            }
        },
        _ => state,
    }
}

/// Playing a clip never leaves it: from a frame of the clip the next frame is
/// again in the clip, the last frame wraps to the first, and starting on the
/// first frame the loop comes back to it after exactly as many steps as the
/// clip has frames, showing each frame once on the way.
pub proof fn lemma_clip_cycle(clip: ClipModel, index: int, k: nat)
    requires
        clip.first <= clip.last,
    ensures
        clip.first <= index <= clip.last ==> clip.first <= spec_next(clip, index) <= clip.last,
        spec_next(clip, clip.last) == clip.first,
        k <= clip.last - clip.first ==> spec_advance(clip, clip.first, k) == clip.first + k,
        spec_advance(clip, clip.first, (clip.last - clip.first + 1) as nat) == clip.first,
{
    lemma_advance_from_first(clip, k);
    lemma_advance_from_first(clip, (clip.last - clip.first) as nat);
    lemma_advance_split(clip, clip.first, (clip.last - clip.first) as nat);
}

proof fn lemma_advance_from_first(clip: ClipModel, k: nat)
    requires
        clip.first <= clip.last,
    ensures
        k <= clip.last - clip.first ==> spec_advance(clip, clip.first, k) == clip.first + k,
    decreases k,
{
    if k > 0 && k <= clip.last - clip.first {
        lemma_advance_from_first(clip, (k - 1) as nat);
        lemma_advance_split(clip, clip.first, (k - 1) as nat);
    }
}

proof fn lemma_advance_split(clip: ClipModel, index: int, k: nat)
    ensures
        spec_advance(clip, index, k + 1) == spec_next(clip, spec_advance(clip, index, k)),
    decreases k,
{
    assert(spec_advance(clip, index, k + 1) == spec_advance(clip, spec_next(clip, index), k));
    if k > 0 {
        lemma_advance_split(clip, spec_next(clip, index), (k - 1) as nat);
        assert(spec_advance(clip, index, k) == spec_advance(clip, spec_next(clip, index), (k - 1) as nat));
    } else {
        assert(spec_advance(clip, spec_next(clip, index), 0) == spec_next(clip, index));
    }
}

} // verus!
