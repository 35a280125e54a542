use vstd::prelude::*;

verus! {

/// Movement state of a character; it selects the animation that plays.
#[derive(Clone, Copy, Debug, PartialEq, Eq, Structural)]
pub enum CharacterState {
    Idle,
    Walking,
    Running,
    Jumping,
}

impl Default for CharacterState {
    fn default() -> (state: CharacterState)
        ensures
            state == CharacterState::Idle,
    {
        CharacterState::Idle
    }
}

/// Whether a character in `state` stands on the ground.
pub open spec fn spec_is_grounded(state: CharacterState) -> bool {
    state != CharacterState::Jumping
}

impl CharacterState {
    /// Whether the character stands on the ground (it is not mid-jump).
    pub fn is_grounded(&self) -> (grounded: bool)
        ensures
            grounded == spec_is_grounded(*self),
    {
        match self {
            CharacterState::Idle | CharacterState::Walking | CharacterState::Running => true,
            CharacterState::Jumping => false,
        }
    }
}

/// Direction a character looks at.
#[derive(Clone, Copy, Debug, PartialEq, Eq, Structural)]
pub enum Facing {
    Up,
    Left,
    Down,
    Right,
}

impl Default for Facing {
    fn default() -> (facing: Facing)
        ensures
            facing == Facing::Down,
    {
        Facing::Down
    }
}

/// Row offset of a facing inside a directional animation: up, left, down, right.
pub open spec fn spec_direction_index(facing: Facing) -> nat {
    match facing {
        Facing::Up => 0,
        Facing::Left => 1,
        Facing::Down => 2,
        Facing::Right => 3,
    }
}

impl Facing {
    /// Row offset of this facing inside a directional animation.
    pub fn direction_index(self) -> (index: usize)
        ensures
            index == spec_direction_index(self),
            index < 4,
    {
        match self {
            Facing::Up => 0,
            Facing::Left => 1,
            Facing::Down => 2,
            Facing::Right => 3,
        }
    }

    /// Facing of a movement: along the dominant axis, towards its sign.
    /// `horizontal` tells whether the horizontal component is the larger one
    /// in magnitude; `positive` whether that component is positive.
    pub fn from_dominant_axis(horizontal: bool, positive: bool) -> (facing: Facing)
        ensures
            facing == (if horizontal {
                if positive { Facing::Right } else { Facing::Left }
            } else {
                if positive { Facing::Up } else { Facing::Down }
            }),
    {
        if horizontal {
            if positive { Facing::Right } else { Facing::Left }
        } else {
            if positive { Facing::Up } else { Facing::Down }
        }
    }
}

/// The state a character enters given its current state and this frame's input.
pub open spec fn spec_next_state(current: CharacterState, moving: bool, is_running: bool, wants_jump: bool) -> CharacterState {
    if current == CharacterState::Jumping {
        CharacterState::Jumping
    } else if wants_jump && spec_is_grounded(current) {
        CharacterState::Jumping
    } else if moving {
        if is_running { CharacterState::Running } else { CharacterState::Walking }
    } else {
        CharacterState::Idle
    }
}

/// Next movement state of the player: a jump lasts until its animation ends,
/// a jump starts only from the ground, otherwise the character runs, walks
/// or idles depending on whether it moves and whether shift is held.
/// `moving` tells whether the movement input is non-zero.
pub fn determine_new_state(current: CharacterState, moving: bool, is_running: bool, wants_jump: bool) -> (next: CharacterState)
    ensures
        next == spec_next_state(current, moving, is_running, wants_jump),
{
    match current {
        CharacterState::Jumping => CharacterState::Jumping,
        _ => {
            if wants_jump && current.is_grounded() {
                CharacterState::Jumping
            } else if moving {
                if is_running {
                    CharacterState::Running
                } else {
                    CharacterState::Walking
                }
            } else {
                CharacterState::Idle
            }
        }
    }
}

/// Movement direction from the arrow keys held down, as unit steps on each
/// axis: right minus left, up minus down.
pub fn movement_axes(up: bool, left: bool, down: bool, right: bool) -> (axes: (i8, i8))
    ensures
        axes.0 == (if right { 1int } else { 0 }) - (if left { 1int } else { 0 }),
        axes.1 == (if up { 1int } else { 0 }) - (if down { 1int } else { 0 }),
{
    let mut x: i8 = 0;
    let mut y: i8 = 0;
    if up {
        y = y + 1;
    }
    if left {
        x = x - 1;
    }
    if down {
        y = y - 1;
    }
    if right {
        x = x + 1;
    }
    (x, y)
}

/// Index of the first pressed key among the character-selection keys, if it
/// names a character of a list of `count`; otherwise no switch happens.
pub fn selected_character(pressed: &[bool], count: usize) -> (choice: Option<usize>)
    ensures
        match choice {
            Some(i) => i < pressed@.len() && i < count && pressed@[i as int]
                && forall|j: int| 0 <= j < i ==> !pressed@[j],
            None => forall|i: int| 0 <= i < pressed@.len() && pressed@[i]
                ==> (i >= count || exists|j: int| 0 <= j < i && pressed@[j]),
        },
{
    let mut i: usize = 0;
    while i < pressed.len()
        invariant
            i <= pressed@.len(),
            forall|j: int| 0 <= j < i ==> !pressed@[j],
        decreases pressed@.len() - i,
    {
        if pressed[i] {
            if i >= count {
                return None;
            }
            return Some(i);
        }
        i = i + 1;
    }
    None
}

/// Character index restored from a save, limited to the last character of a
/// list of `count`.
pub fn clamp_character_index(index: usize, count: usize) -> (clamped: usize)
    requires
        count >= 1,
    ensures
        clamped == (if index < count { index as int } else { count - 1 }),
{
    if index < count - 1 { index } else { count - 1 }
}

/// Position of the first character whose name is `name`.
pub fn find_character(names: &Vec<String>, name: &str) -> (found: Option<usize>)
    ensures
        match found {
            Some(i) => i < names@.len() && names@[i as int]@ == name@
                && forall|j: int| 0 <= j < i ==> names@[j]@ != name@,
            None => forall|j: int| 0 <= j < names@.len() ==> names@[j]@ != name@,
        },
{
    let target = String::from_str(name);
    let mut i: usize = 0;
    while i < names.len()
        invariant
            i <= names@.len(),
            target@ == name@,
            forall|j: int| 0 <= j < i ==> names@[j]@ != name@,
        decreases names@.len() - i,
    {
        if names[i] == target {
            return Some(i);
        }
        i = i + 1;
    }
    None
}

/// Where to put a character that wants to appear at `desired`: there if that
/// spot is clear, else at the nearest clear spot found, else at `desired`
/// all the same.
pub fn choose_spawn_position<P: Copy>(desired: P, desired_clear: bool, nearest_clear: Option<P>) -> (position: P)
    ensures
        position == (if desired_clear {
            desired
        } else {
            match nearest_clear {
                Some(p) => p,
                None => desired,
            }
        }),
{
    if desired_clear {
        return desired;
    }
    match nearest_clear {
        Some(p) => p,
        None => desired,
    }
}

/// The frame's input decides the next state: a character on the ground that
/// wants to jump jumps, moving or not; otherwise a moving character runs
/// while shift is held and walks without it, and a still one idles.
pub proof fn lemma_next_state_from_input(current: CharacterState, moving: bool, is_running: bool, wants_jump: bool)
    ensures
        current != CharacterState::Jumping && wants_jump
            ==> spec_next_state(current, moving, is_running, wants_jump) == CharacterState::Jumping,
        current != CharacterState::Jumping && !wants_jump && moving && is_running
            ==> spec_next_state(current, moving, is_running, wants_jump) == CharacterState::Running,
        current != CharacterState::Jumping && !wants_jump && moving && !is_running
            ==> spec_next_state(current, moving, is_running, wants_jump) == CharacterState::Walking,
        current != CharacterState::Jumping && !wants_jump && !moving
            ==> spec_next_state(current, moving, is_running, wants_jump) == CharacterState::Idle,
{
}

/// A jump, once started, is never interrupted by input, and a jump can only
/// start from the ground.
pub proof fn lemma_jump_rules(current: CharacterState, moving: bool, is_running: bool, wants_jump: bool)
    ensures
        current == CharacterState::Jumping ==> spec_next_state(current, moving, is_running, wants_jump)
            == CharacterState::Jumping,
        spec_next_state(current, moving, is_running, wants_jump) == CharacterState::Jumping
            ==> (current == CharacterState::Jumping || wants_jump),
        !wants_jump && !moving && spec_is_grounded(current) ==> spec_next_state(current, moving, is_running, wants_jump)
            == CharacterState::Idle,
{
}

} // verus!
