//! The whole state of the game, and the two configurations that a state is
//! replaced with: the title screen and a level.

use crate::grid::{coord, Cell, Cells, Size};
use crate::motion::Motion;
use rand::{SeedableRng, StdRng};
use vstd::prelude::*;

verus! {

/// `rand::StdRng`, the generator that a state carries. Nothing in this
/// library looks inside one.
#[verifier::external_type_specification]
#[verifier::external_body]
pub struct ExStdRng(rand::StdRng);

/// The generator that `rand` builds from the seed words `seed`.
pub uninterp spec fn seeded_generator(seed: Seq<usize>) -> StdRng;

/// Calls `rand`'s `SeedableRng::from_seed` for `StdRng` on a slice of seed
/// words. The generator that comes back is determined by the words alone:
/// `rand` copies them into a zeroed state and mixes it, reading nothing else.
/// The contract gives that generator its name and claims no more of it.
#[verifier::external_body]
fn generator_from_seed(seed: &[usize]) -> (rng: StdRng)
    ensures
        rng == seeded_generator(seed@),
{
    SeedableRng::from_seed(seed)
}

/// The one seed word that every generator of a state starts from.
pub const SEED: usize = 42;

/// Where the player stands when a level begins. On the title screen, the
/// tile that starts the game.
pub const START_POS: (i32, i32) = (7, 3);

/// Where the player stands on the title screen.
pub const TITLE_POS: (i32, i32) = (5, 3);

/// The state of the game between two ticks.
pub struct State {
    pub player_pos: (i32, i32),
    pub cells: Cells,
    pub rng: StdRng,
    pub title_screen: bool,
    pub frame_count: u32,
    pub motion: Motion,
}

/// The mathematical model of a [`State`].
pub struct World {
    pub player_pos: (int, int),
    pub cells: Map<(int, int), Cell>,
    pub rng: StdRng,
    pub title_screen: bool,
    pub frame_count: u32,
    pub motion: Motion,
}

impl View for State {
    type V = World;

    open spec fn view(&self) -> World {
        World {
            player_pos: coord(self.player_pos),
            cells: self.cells@,
            rng: self.rng,
            title_screen: self.title_screen,
            frame_count: self.frame_count,
            motion: self.motion,
        }
    }
}

/// The walls of the title screen: two to each side of the start tile's row,
/// above and below.
pub open spec fn title_layout() -> Map<(int, int), Cell> {
    Map::<(int, int), Cell>::empty().insert((5, 2), Cell::Wall).insert((4, 3), Cell::Wall).insert(
        (6, 3),
        Cell::Wall,
    ).insert((4, 6), Cell::Wall).insert((5, 7), Cell::Wall).insert((10, 7), Cell::Wall).insert(
        (11, 6),
        Cell::Wall,
    ).insert((11, 3), Cell::Wall).insert((10, 2), Cell::Wall)
}

/// The cells of a level: a lone goal in the corner.
pub open spec fn level_layout() -> Map<(int, int), Cell> {
    Map::<(int, int), Cell>::empty().insert((0, 0), Cell::Goal)
}

/// The title screen, with the generator `rng`.
pub open spec fn title_world(rng: StdRng) -> World {
    World {
        player_pos: coord(TITLE_POS),
        cells: title_layout(),
        rng,
        title_screen: true,
        frame_count: 0,
        motion: Motion::Stopped,
    }
}

/// The start of a level, with the generator `rng`.
pub open spec fn level_world(rng: StdRng) -> World {
    World {
        player_pos: coord(START_POS),
        cells: level_layout(),
        rng,
        title_screen: false,
        frame_count: 0,
        motion: Motion::Stopped,
    }
}

/// The state that a game begins with: a freshly seeded generator, and the
/// title screen unless `skip_title` asks for the first level at once.
pub open spec fn initial_world(skip_title: bool) -> World {
    if skip_title {
        level_world(seeded_generator(seq![SEED]))
    } else {
        title_world(seeded_generator(seq![SEED]))
    }
}

/// Builds the state that a game begins with. The extent of the play surface
/// has no part in it.
pub fn new_state(size: Size, skip_title: bool) -> (state: State)
    ensures
        state@ == initial_world(skip_title),
{
    let seed: [usize; 1] = [SEED];
    let words = seed.as_slice();
    assert(words@ =~= seq![SEED]);
    let rng = generator_from_seed(words);
    if skip_title {
        return next_level(size, rng);
    }
    let mut cells = Cells::new();

    cells.insert((5, 2), Cell::Wall);
    cells.insert((4, 3), Cell::Wall);
    cells.insert((6, 3), Cell::Wall);

    cells.insert((4, 6), Cell::Wall);
    cells.insert((5, 7), Cell::Wall);

    cells.insert((10, 7), Cell::Wall);
    cells.insert((11, 6), Cell::Wall);

    cells.insert((11, 3), Cell::Wall);
    cells.insert((10, 2), Cell::Wall);

    State {
        player_pos: TITLE_POS,
        cells,
        rng,
        title_screen: true,
        frame_count: 0,
        motion: Motion::Stopped,
    }
}

/// Builds the start of a level around the generator `rng`. The extent of the
/// play surface has no part in it.
pub fn next_level(size: Size, rng: StdRng) -> (state: State)
    ensures
        state@ == level_world(rng),
{
    let mut cells = Cells::new();

    cells.insert((0, 0), Cell::Goal);

    State {
        player_pos: START_POS,
        cells,
        rng,
        title_screen: false,
        frame_count: 0,
        motion: Motion::Stopped,
    }
}

} // verus!
