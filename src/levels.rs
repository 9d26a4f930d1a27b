use vstd::prelude::*;
use crate::fixed::{UNIT, MAX_CELLS};
use crate::grid::{grid_wf, cell, materials_within};
use crate::sprites::Sprite;
use crate::portal::Portal;

verus! {

/// What happens when a player acts somewhere in a level.
#[derive(Clone, Copy, Debug, PartialEq, Eq, Structural)]
pub enum LevelAction {
    /// Acting does nothing.
    Nothing,
    /// Acting in the lever's cell opens or closes a door: the mark in the
    /// decoration layer shows the state (`closed` or `open`), and the door
    /// cell of the grid becomes empty when opened and `wall` when closed.
    ToggleDoor {
        lever_x: usize,
        lever_y: usize,
        mark_x: usize,
        mark_y: usize,
        closed: u8,
        open: u8,
        door_x: usize,
        door_y: usize,
        wall: u8,
    },
}

/// A level: where its textures come from, its grid, a decoration layer of
/// the same shape, the floor and ceiling texture slots, its props, its
/// portals and what acting does.
pub struct Level {
    pub url: String,
    pub world_map: Vec<Vec<u8>>,
    pub world_layer: Vec<Vec<u8>>,
    pub floor_texture: usize,
    pub ceiling_texture: usize,
    pub sprites: Vec<Sprite>,
    pub portals: Vec<Portal>,
    pub action: LevelAction,
}

impl Level {
    pub open spec fn wf(&self) -> bool {
        &&& grid_wf(self.world_map@)
        &&& grid_wf(self.world_layer@)
        &&& forall|i: int| 0 <= i < self.sprites@.len() ==> (#[trigger] self.sprites@[i]).wf()
        &&& forall|i: int| 0 <= i < self.portals@.len() ==> (#[trigger] self.portals@[i]).wf()
    }
}

/// `g` with cell `(x, y)` set to `v`, when that cell exists.
pub open spec fn with_cell(g: Seq<Vec<u8>>, x: int, y: int, v: u8) -> Seq<Seq<u8>> {
    Seq::new(g.len(), |i: int| if i == x && 0 <= y < g[i]@.len() { g[i]@.update(y, v) } else { g[i]@ })
}

pub open spec fn rows_of(g: Seq<Vec<u8>>) -> Seq<Seq<u8>> {
    Seq::new(g.len(), |i: int| g[i]@)
}

pub open spec fn has_cell(g: Seq<Vec<u8>>, x: int, y: int) -> bool {
    0 <= x < g.len() && 0 <= y < g[x]@.len()
}

fn set_cell(g: &mut Vec<Vec<u8>>, x: usize, y: usize, v: u8)
    requires
        has_cell(old(g)@, x as int, y as int),
    ensures
        rows_of(final(g)@) == with_cell(old(g)@, x as int, y as int, v),
        final(g)@.len() == old(g)@.len(),
{
    let mut row = g[x].clone();
    assert(row@ =~= old(g)@[x as int]@);
    row.set(y, v);
    g.set(x, row);
    assert(rows_of(g@) =~= with_cell(old(g)@, x as int, y as int, v));
}

/// A player acts at position `(x, y)` (fixed point): applies the level's
/// action to its grid and decoration layer.
pub fn apply_action(level: &mut Level, x: i64, y: i64)
    ensures
        match old(level).action {
            LevelAction::ToggleDoor { lever_x, lever_y, mark_x, mark_y, closed, open, door_x, door_y, wall } => if 0
                <= x && 0 <= y && x / UNIT == lever_x && y / UNIT == lever_y && has_cell(old(level).world_layer@, mark_x as int, mark_y as int)
                && has_cell(old(level).world_map@, door_x as int, door_y as int) {
                let opening = old(level).world_layer@[mark_x as int]@[mark_y as int] == closed;
                &&& rows_of(final(level).world_layer@) == with_cell(old(level).world_layer@, mark_x as int, mark_y as int, if opening { open } else { closed })
                &&& rows_of(final(level).world_map@) == with_cell(old(level).world_map@, door_x as int, door_y as int, if opening { 0 } else { wall })
            } else {
                &&& final(level).world_layer@ == old(level).world_layer@
                &&& final(level).world_map@ == old(level).world_map@
            },
            LevelAction::Nothing => {
                &&& final(level).world_layer@ == old(level).world_layer@
                &&& final(level).world_map@ == old(level).world_map@
            },
        },
        final(level).action == old(level).action,
        final(level).url@ == old(level).url@,
        final(level).sprites@ == old(level).sprites@,
        final(level).portals@ == old(level).portals@,
        final(level).floor_texture == old(level).floor_texture,
        final(level).ceiling_texture == old(level).ceiling_texture,
        final(level).world_layer@.len() == old(level).world_layer@.len(),
        final(level).world_map@.len() == old(level).world_map@.len(),
{
    let action = level.action;
    match action {
        LevelAction::Nothing => {},
        LevelAction::ToggleDoor { lever_x, lever_y, mark_x, mark_y, closed, open, door_x, door_y, wall } => {
            if x < 0 || y < 0 || (x / UNIT) as u64 != lever_x as u64 || (y / UNIT) as u64 != lever_y as u64 {
                return;
            }
            if mark_x >= level.world_layer.len() || mark_y >= level.world_layer[mark_x].len() {
                return;
            }
            if door_x >= level.world_map.len() || door_y >= level.world_map[door_x].len() {
                return;
            }
            if level.world_layer[mark_x][mark_y] == closed {
                set_cell(&mut level.world_layer, mark_x, mark_y, open);
                set_cell(&mut level.world_map, door_x, door_y, 0);
            } else {
                set_cell(&mut level.world_layer, mark_x, mark_y, closed);
                set_cell(&mut level.world_map, door_x, door_y, wall);
            }
        },
    }
}

/// A closed `n` by `n` grid: every border cell is a wall.
pub open spec fn closed_square(g: Seq<Vec<u8>>, n: int) -> bool {
    &&& g.len() == n
    &&& forall|x: int| 0 <= x < n ==> (#[trigger] g[x])@.len() == n
    &&& forall|y: int| 0 <= y < n ==> g[0]@[y] > 0 && g[n - 1]@[y] > 0
    &&& forall|x: int| 0 <= x < n ==> (#[trigger] g[x])@[0] > 0 && g[x]@[n - 1] > 0
}

/// Every border cell of the `n` by `n` grid is `v`.
pub open spec fn border_of(g: Seq<Vec<u8>>, n: int, v: u8) -> bool {
    &&& forall|y: int| 0 <= y < n ==> g[0]@[y] == v && g[n - 1]@[y] == v
    &&& forall|x: int| 0 <= x < n ==> (#[trigger] g[x])@[0] == v && g[x]@[n - 1] == v
}

/// Every portal, and every portal's destination, is on an empty cell.
pub open spec fn portals_on_floor(g: Seq<Vec<u8>>, portals: Seq<Portal>) -> bool {
    forall|i: int| 0 <= i < portals.len() ==> {
        &&& cell(g, (#[trigger] portals[i]).x / UNIT, portals[i].y / UNIT) == 0
        &&& cell(g, portals[i].dest_x / UNIT, portals[i].dest_y / UNIT) == 0
    }
}

/// The metro station level: a closed 24 by 24 grid with a decoration layer
/// of the same shape, floor texture 3 and ceiling texture 6, two lights and
/// four other props, two portals leading to each other's corner, and a
/// lever at cell (21, 3) that opens and closes the door at cell (22, 4).
pub fn metro() -> (level: Level)
    ensures
        level.wf(),
        closed_square(level.world_map@, 24),
        materials_within(level.world_map@, 16),
        portals_on_floor(level.world_map@, level.portals@),
        level.world_layer@.len() == 24,
        forall|x: int| 0 <= x < 24 ==> (#[trigger] level.world_layer@[x])@.len() == 24,
        level.world_map@[1]@[1] == 0,
        level.world_map@[20]@[20] == 0,
        level.world_map@[22]@[4] == 4,
        level.world_layer@[22]@[3] == 20,
        level.floor_texture == 3,
        level.ceiling_texture == 6,
        level.url@ == "metro/metro.zip"@,
        level.sprites@ == seq![
            Sprite { x: 17536, y: 6016, texture: 13 },
            Sprite { x: 7552, y: 8533, texture: 13 },
            Sprite { x: 3200, y: 18731, texture: 13 },
            Sprite { x: 17237, y: 21205, texture: 13 },
            Sprite { x: 18261, y: 21205, texture: 14 },
            Sprite { x: 4224, y: 12587, texture: 14 },
        ],
        level.portals@ == seq![
            Portal { x: 1536, y: 1536, texture: 0, dest_x: 20992, dest_y: 20582 },
            Portal { x: 20992, y: 20992, texture: 1, dest_x: 1536, dest_y: 1536 },
        ],
        level.action == (LevelAction::ToggleDoor {
            lever_x: 21,
            lever_y: 3,
            mark_x: 22,
            mark_y: 3,
            closed: 20,
            open: 21,
            door_x: 22,
            door_y: 4,
            wall: 4,
        }),
{
    let world_map: Vec<Vec<u8>> = vec![
        vec![4, 4, 4, 4, 4, 4, 4, 4, 4, 4, 4, 4, 4, 4, 16, 4, 4, 4, 4, 4, 4, 4, 4, 4],
        vec![4, 0, 0, 0, 0, 0, 0, 0, 0, 0, 0, 0, 0, 0, 0, 0, 0, 0, 0, 0, 0, 0, 0, 4],
        vec![4, 0, 0, 0, 0, 0, 0, 0, 0, 0, 0, 0, 0, 0, 0, 0, 0, 0, 0, 0, 0, 0, 0, 4],
        vec![4, 0, 0, 0, 0, 0, 0, 0, 0, 0, 0, 0, 0, 0, 0, 0, 0, 0, 0, 0, 0, 0, 0, 4],
        vec![4, 0, 0, 0, 0, 0, 5, 0, 0, 0, 0, 0, 0, 0, 0, 0, 0, 0, 0, 0, 0, 0, 0, 16],
        vec![4, 0, 0, 0, 0, 0, 5, 0, 0, 0, 0, 0, 0, 0, 0, 0, 0, 0, 0, 0, 0, 0, 0, 4],
        vec![4, 0, 0, 0, 0, 0, 0, 0, 0, 0, 0, 0, 0, 0, 0, 0, 0, 0, 0, 0, 0, 0, 0, 4],
        vec![4, 0, 0, 0, 0, 0, 0, 0, 0, 0, 0, 0, 0, 13, 0, 0, 0, 0, 0, 0, 0, 0, 0, 4],
        vec![4, 0, 0, 0, 0, 0, 0, 0, 0, 0, 0, 0, 0, 0, 0, 0, 0, 0, 0, 0, 0, 0, 0, 4],
        vec![4, 0, 0, 0, 0, 0, 0, 0, 0, 0, 0, 0, 0, 0, 0, 0, 0, 0, 0, 0, 6, 6, 6, 4],
        vec![4, 0, 0, 0, 0, 0, 0, 0, 0, 0, 0, 0, 0, 0, 0, 0, 0, 0, 0, 0, 0, 0, 0, 9],
        vec![4, 0, 12, 1, 8, 1, 2, 1, 1, 2, 8, 1, 3, 1, 8, 3, 1, 2, 1, 8, 1, 3, 1, 4],
        vec![4, 0, 0, 0, 0, 0, 0, 0, 0, 0, 0, 0, 0, 0, 0, 0, 0, 0, 0, 0, 0, 0, 0, 10],
        vec![4, 0, 0, 0, 0, 0, 0, 0, 0, 0, 0, 0, 0, 0, 0, 0, 0, 0, 0, 0, 6, 6, 6, 4],
        vec![4, 0, 0, 0, 0, 0, 0, 0, 0, 0, 0, 0, 0, 0, 0, 0, 0, 0, 0, 0, 0, 0, 0, 4],
        vec![4, 0, 0, 0, 0, 0, 0, 11, 11, 0, 11, 11, 0, 0, 0, 0, 0, 0, 0, 0, 0, 0, 0, 4],
        vec![4, 0, 0, 0, 0, 0, 0, 0, 0, 0, 0, 0, 0, 0, 0, 0, 0, 0, 0, 0, 0, 0, 0, 4],
        vec![4, 0, 0, 0, 0, 0, 5, 5, 0, 11, 11, 0, 11, 0, 0, 0, 0, 0, 13, 0, 0, 0, 0, 16],
        vec![4, 0, 0, 0, 0, 0, 0, 0, 0, 0, 0, 0, 11, 0, 0, 0, 0, 0, 0, 0, 0, 0, 0, 4],
        vec![4, 0, 0, 0, 0, 0, 11, 11, 12, 11, 11, 0, 0, 0, 0, 0, 0, 0, 0, 0, 0, 0, 0, 4],
        vec![4, 0, 0, 0, 0, 0, 0, 0, 0, 0, 0, 0, 13, 0, 0, 0, 0, 0, 0, 0, 0, 0, 0, 4],
        vec![4, 0, 0, 0, 0, 0, 0, 0, 0, 0, 0, 0, 0, 0, 0, 0, 0, 0, 0, 0, 0, 0, 0, 4],
        vec![4, 0, 0, 4, 4, 4, 0, 0, 0, 0, 0, 0, 0, 0, 0, 0, 0, 0, 0, 0, 0, 0, 0, 4],
        vec![4, 4, 4, 4, 4, 4, 4, 4, 4, 4, 4, 4, 4, 4, 4, 16, 4, 4, 4, 4, 4, 4, 4, 4],
    ];
    let world_layer: Vec<Vec<u8>> = vec![
        vec![0, 0, 0, 0, 0, 0, 0, 0, 0, 0, 0, 0, 0, 0, 0, 0, 0, 0, 0, 0, 0, 0, 0, 0],
        vec![0, 0, 0, 0, 0, 0, 0, 0, 0, 0, 0, 0, 0, 0, 0, 0, 0, 0, 0, 0, 0, 0, 0, 0],
        vec![0, 0, 0, 0, 0, 0, 0, 0, 0, 0, 0, 0, 0, 0, 0, 0, 0, 0, 0, 0, 0, 0, 0, 0],
        vec![0, 0, 0, 0, 0, 0, 0, 0, 0, 0, 0, 0, 0, 0, 0, 0, 0, 0, 0, 0, 0, 0, 0, 0],
        vec![0, 0, 0, 0, 0, 0, 0, 0, 0, 0, 0, 0, 0, 0, 0, 0, 0, 0, 0, 0, 0, 0, 0, 0],
        vec![0, 0, 0, 0, 0, 0, 0, 0, 0, 0, 0, 0, 0, 0, 0, 0, 0, 0, 0, 0, 0, 0, 0, 17],
        vec![18, 0, 0, 0, 0, 0, 0, 0, 0, 0, 0, 0, 0, 0, 0, 0, 0, 0, 0, 0, 0, 0, 0, 0],
        vec![0, 0, 0, 0, 0, 0, 0, 0, 19, 0, 0, 0, 0, 0, 0, 0, 0, 0, 0, 0, 0, 0, 0, 0],
        vec![0, 0, 0, 0, 0, 0, 0, 0, 0, 0, 0, 0, 0, 0, 0, 0, 0, 0, 0, 0, 0, 0, 0, 0],
        vec![0, 0, 0, 0, 0, 0, 0, 0, 0, 0, 0, 0, 0, 0, 0, 0, 0, 0, 0, 0, 0, 0, 0, 18],
        vec![0, 0, 0, 0, 0, 0, 0, 0, 0, 0, 0, 0, 0, 0, 0, 0, 0, 0, 0, 0, 0, 0, 0, 0],
        vec![0, 0, 0, 0, 0, 0, 0, 0, 0, 0, 0, 0, 0, 0, 0, 0, 18, 0, 17, 0, 0, 0, 0, 0],
        vec![17, 0, 0, 0, 0, 0, 0, 0, 0, 0, 0, 0, 0, 0, 0, 0, 0, 0, 0, 0, 0, 0, 0, 0],
        vec![0, 0, 0, 0, 0, 0, 0, 0, 0, 0, 0, 0, 0, 0, 0, 0, 0, 0, 0, 0, 0, 0, 0, 0],
        vec![0, 0, 0, 0, 0, 0, 0, 0, 0, 0, 0, 0, 0, 0, 0, 0, 0, 0, 0, 0, 0, 0, 0, 0],
        vec![0, 0, 0, 0, 0, 0, 0, 0, 0, 0, 0, 0, 0, 0, 0, 0, 0, 0, 0, 0, 0, 0, 0, 0],
        vec![0, 0, 0, 0, 0, 0, 0, 0, 0, 0, 0, 0, 0, 0, 0, 0, 0, 0, 0, 0, 0, 0, 0, 0],
        vec![0, 0, 0, 0, 0, 0, 0, 0, 0, 0, 0, 0, 0, 0, 0, 0, 0, 0, 0, 0, 0, 0, 0, 0],
        vec![18, 0, 0, 0, 0, 0, 0, 0, 0, 0, 0, 0, 0, 0, 0, 0, 0, 0, 0, 0, 0, 0, 0, 0],
        vec![0, 0, 0, 0, 0, 0, 0, 0, 0, 0, 0, 0, 0, 0, 0, 0, 0, 0, 0, 0, 0, 0, 0, 0],
        vec![0, 0, 0, 0, 0, 0, 0, 0, 0, 0, 0, 0, 0, 0, 0, 0, 0, 0, 0, 0, 0, 0, 0, 0],
        vec![0, 0, 0, 0, 0, 0, 0, 0, 0, 0, 0, 0, 0, 0, 0, 0, 0, 0, 0, 0, 0, 0, 0, 0],
        vec![0, 0, 0, 20, 0, 0, 0, 0, 0, 0, 0, 0, 0, 0, 0, 0, 0, 0, 0, 0, 0, 0, 0, 0],
        vec![0, 0, 0, 0, 0, 0, 0, 0, 0, 17, 0, 0, 0, 0, 0, 0, 0, 0, 0, 0, 0, 0, 17, 0],
    ];
    let sprites: Vec<Sprite> = vec![
        Sprite { x: 17536, y: 6016, texture: 13 },
        Sprite { x: 7552, y: 8533, texture: 13 },
        Sprite { x: 3200, y: 18731, texture: 13 },
        Sprite { x: 17237, y: 21205, texture: 13 },
        Sprite { x: 18261, y: 21205, texture: 14 },
        Sprite { x: 4224, y: 12587, texture: 14 },
    ];
    let portals: Vec<Portal> = vec![
        Portal { x: 1536, y: 1536, texture: 0, dest_x: 20992, dest_y: 20582 },
        Portal { x: 20992, y: 20992, texture: 1, dest_x: 1536, dest_y: 1536 },
    ];
    proof {
        reveal_strlit("metro/metro.zip");
        assert(sprites@ =~= seq![
            Sprite { x: 17536, y: 6016, texture: 13 },
            Sprite { x: 7552, y: 8533, texture: 13 },
            Sprite { x: 3200, y: 18731, texture: 13 },
            Sprite { x: 17237, y: 21205, texture: 13 },
            Sprite { x: 18261, y: 21205, texture: 14 },
            Sprite { x: 4224, y: 12587, texture: 14 },
        ]);
        assert(portals@ =~= seq![
            Portal { x: 1536, y: 1536, texture: 0, dest_x: 20992, dest_y: 20582 },
            Portal { x: 20992, y: 20992, texture: 1, dest_x: 1536, dest_y: 1536 },
        ]);
    }
    Level {
        url: "metro/metro.zip".to_owned(),
        world_map,
        world_layer,
        floor_texture: 3,
        ceiling_texture: 6,
        sprites,
        portals,
        action: LevelAction::ToggleDoor {
            lever_x: 21,
            lever_y: 3,
            mark_x: 22,
            mark_y: 3,
            closed: 20,
            open: 21,
            door_x: 22,
            door_y: 4,
            wall: 4,
        },
    }
}

/// The first level: rooms of stone, wood and brick round a courtyard, with lights and pillars, and two portals leading to each other.
pub fn first() -> (level: Level)
    ensures
        level.wf(),
        closed_square(level.world_map@, 24),
        materials_within(level.world_map@, 8),
        portals_on_floor(level.world_map@, level.portals@),
        level.world_layer@.len() == 24,
        forall|x: int| 0 <= x < 24 ==> (#[trigger] level.world_layer@[x])@.len() == 24,
        level.floor_texture == 3,
        level.ceiling_texture == 6,
        level.url@ == "https://srv-file10.gofile.io/download/GrF7ZN/wolfenstein_textures.zip"@,
        level.sprites@ == seq![
            Sprite { x: 20992, y: 11776, texture: 10 },
            Sprite { x: 18944, y: 4608, texture: 10 },
            Sprite { x: 10240, y: 4608, texture: 10 },
            Sprite { x: 10240, y: 12800, texture: 10 },
            Sprite { x: 3584, y: 6656, texture: 10 },
            Sprite { x: 3584, y: 20992, texture: 10 },
            Sprite { x: 3584, y: 14848, texture: 10 },
            Sprite { x: 14848, y: 20992, texture: 10 },
            Sprite { x: 18944, y: 10752, texture: 9 },
            Sprite { x: 18944, y: 11776, texture: 9 },
            Sprite { x: 18944, y: 12800, texture: 9 },
            Sprite { x: 22016, y: 1536, texture: 8 },
            Sprite { x: 15872, y: 1536, texture: 8 },
            Sprite { x: 16384, y: 1843, texture: 8 },
            Sprite { x: 16589, y: 1229, texture: 8 },
            Sprite { x: 3584, y: 2560, texture: 8 },
            Sprite { x: 9728, y: 15872, texture: 8 },
            Sprite { x: 10240, y: 15462, texture: 8 },
            Sprite { x: 10752, y: 16179, texture: 8 },
        ],
        level.portals@ == seq![
            Portal { x: 20992, y: 10342, texture: 0, dest_x: 10240, dest_y: 10240 },
            Portal { x: 10240, y: 10240, texture: 1, dest_x: 20992, dest_y: 10342 },
        ],
        level.action == LevelAction::Nothing,
{
    let world_map: Vec<Vec<u8>> = vec![
        vec![8, 8, 8, 8, 8, 8, 8, 8, 8, 8, 8, 4, 4, 6, 4, 4, 6, 4, 6, 4, 4, 4, 6, 4],
        vec![8, 0, 0, 0, 0, 0, 0, 0, 0, 0, 8, 4, 0, 0, 0, 0, 0, 0, 0, 0, 0, 0, 0, 4],
        vec![8, 0, 3, 3, 0, 0, 0, 0, 0, 8, 8, 4, 0, 0, 0, 0, 0, 0, 0, 0, 0, 0, 0, 6],
        vec![8, 0, 0, 3, 0, 0, 0, 0, 0, 0, 0, 0, 0, 0, 0, 0, 0, 0, 0, 0, 0, 0, 0, 6],
        vec![8, 0, 3, 3, 0, 0, 0, 0, 0, 8, 8, 4, 0, 0, 0, 0, 0, 0, 0, 0, 0, 0, 0, 4],
        vec![8, 0, 0, 0, 0, 0, 0, 0, 0, 0, 8, 4, 0, 0, 0, 0, 0, 6, 6, 6, 0, 6, 4, 6],
        vec![8, 8, 8, 8, 0, 8, 8, 8, 8, 8, 8, 4, 4, 4, 4, 4, 4, 6, 0, 0, 0, 0, 0, 6],
        vec![7, 7, 7, 7, 0, 7, 7, 7, 7, 0, 8, 0, 8, 0, 8, 0, 8, 4, 0, 4, 0, 6, 0, 6],
        vec![7, 7, 0, 0, 0, 0, 0, 0, 7, 8, 0, 8, 0, 8, 0, 8, 8, 6, 0, 0, 0, 0, 0, 6],
        vec![7, 0, 0, 0, 0, 0, 0, 0, 0, 0, 0, 0, 0, 0, 0, 0, 8, 6, 0, 0, 0, 0, 0, 4],
        vec![7, 0, 0, 0, 0, 0, 0, 0, 0, 0, 0, 0, 0, 0, 0, 0, 8, 6, 0, 6, 0, 6, 0, 6],
        vec![7, 7, 0, 0, 0, 0, 0, 0, 7, 8, 0, 8, 0, 8, 0, 8, 8, 6, 4, 6, 0, 6, 6, 6],
        vec![7, 7, 7, 7, 0, 7, 7, 7, 7, 8, 8, 4, 0, 6, 8, 4, 8, 3, 3, 3, 0, 3, 3, 3],
        vec![2, 2, 2, 2, 0, 2, 2, 2, 2, 4, 6, 4, 0, 0, 6, 0, 6, 3, 0, 0, 0, 0, 0, 3],
        vec![2, 2, 0, 0, 0, 0, 0, 2, 2, 4, 0, 0, 0, 0, 0, 0, 4, 3, 0, 0, 0, 0, 0, 3],
        vec![2, 0, 0, 0, 0, 0, 0, 0, 2, 4, 0, 0, 0, 0, 0, 0, 4, 3, 0, 0, 0, 0, 0, 3],
        vec![1, 0, 0, 0, 0, 0, 0, 0, 1, 4, 4, 4, 4, 4, 6, 0, 6, 3, 3, 0, 0, 0, 3, 3],
        vec![2, 0, 0, 0, 0, 0, 0, 0, 2, 2, 2, 1, 2, 2, 2, 6, 6, 0, 0, 5, 0, 5, 5, 5],
        vec![2, 2, 0, 0, 0, 0, 0, 2, 2, 2, 0, 0, 0, 2, 2, 5, 5, 0, 5, 0, 0, 0, 5, 5],
        vec![2, 0, 0, 0, 0, 0, 0, 0, 2, 0, 0, 0, 0, 0, 2, 5, 0, 5, 0, 5, 0, 5, 0, 5],
        vec![1, 0, 0, 0, 0, 0, 0, 0, 0, 0, 0, 0, 0, 0, 0, 0, 0, 0, 0, 0, 0, 0, 0, 5],
        vec![2, 0, 0, 0, 0, 0, 0, 0, 2, 0, 0, 0, 0, 0, 2, 5, 0, 5, 0, 5, 0, 5, 0, 5],
        vec![2, 2, 0, 0, 0, 0, 0, 2, 2, 2, 0, 0, 0, 2, 2, 5, 5, 5, 5, 0, 0, 0, 5, 5],
        vec![2, 2, 2, 2, 1, 2, 2, 2, 2, 2, 2, 1, 2, 2, 2, 5, 5, 5, 5, 5, 5, 5, 5, 5],
    ];
    let world_layer: Vec<Vec<u8>> = vec![
        vec![0, 0, 0, 0, 0, 0, 0, 0, 0, 0, 0, 0, 0, 0, 0, 0, 0, 0, 0, 0, 0, 0, 0, 0],
        vec![0, 0, 0, 0, 0, 0, 0, 0, 0, 0, 0, 0, 0, 0, 0, 0, 0, 0, 0, 0, 0, 0, 0, 0],
        vec![0, 0, 0, 0, 0, 0, 0, 0, 0, 0, 0, 0, 0, 0, 0, 0, 0, 0, 0, 0, 0, 0, 0, 0],
        vec![0, 0, 0, 0, 0, 0, 0, 0, 0, 0, 0, 0, 0, 0, 0, 0, 0, 0, 0, 0, 0, 0, 0, 0],
        vec![0, 0, 0, 0, 0, 0, 0, 0, 0, 0, 0, 0, 0, 0, 0, 0, 0, 0, 0, 0, 0, 0, 0, 0],
        vec![0, 0, 0, 0, 0, 0, 0, 0, 0, 0, 0, 0, 0, 0, 0, 0, 0, 0, 0, 0, 0, 0, 0, 0],
        vec![0, 0, 0, 0, 0, 0, 0, 0, 0, 0, 0, 0, 0, 0, 0, 0, 0, 0, 0, 0, 0, 0, 0, 0],
        vec![0, 0, 0, 0, 0, 0, 0, 0, 0, 0, 0, 0, 0, 0, 0, 0, 0, 0, 0, 0, 0, 0, 0, 0],
        vec![0, 0, 0, 0, 0, 0, 0, 0, 0, 0, 0, 0, 0, 0, 0, 0, 0, 0, 0, 0, 0, 0, 0, 0],
        vec![0, 0, 0, 0, 0, 0, 0, 0, 0, 0, 0, 0, 0, 0, 0, 0, 0, 0, 0, 0, 0, 0, 0, 0],
        vec![0, 0, 0, 0, 0, 0, 0, 0, 0, 0, 0, 0, 0, 0, 0, 0, 0, 0, 0, 0, 0, 0, 0, 0],
        vec![0, 0, 0, 0, 0, 0, 0, 0, 0, 0, 0, 0, 0, 0, 0, 0, 0, 0, 0, 0, 0, 0, 0, 0],
        vec![0, 0, 0, 0, 0, 0, 0, 0, 0, 0, 0, 0, 0, 0, 0, 0, 0, 0, 0, 0, 0, 0, 0, 0],
        vec![0, 0, 0, 0, 0, 0, 0, 0, 0, 0, 0, 0, 0, 0, 0, 0, 0, 0, 0, 0, 0, 0, 0, 0],
        vec![0, 0, 0, 0, 0, 0, 0, 0, 0, 0, 0, 0, 0, 0, 0, 0, 0, 0, 0, 0, 0, 0, 0, 0],
        vec![0, 0, 0, 0, 0, 0, 0, 0, 0, 0, 0, 0, 0, 0, 0, 0, 0, 0, 0, 0, 0, 0, 0, 0],
        vec![0, 0, 0, 0, 0, 0, 0, 0, 0, 0, 0, 0, 0, 0, 0, 0, 0, 0, 0, 0, 0, 0, 0, 0],
        vec![0, 0, 0, 0, 0, 0, 0, 0, 0, 0, 0, 0, 0, 0, 0, 0, 0, 0, 0, 0, 0, 0, 0, 0],
        vec![0, 0, 0, 0, 0, 0, 0, 0, 0, 0, 0, 0, 0, 0, 0, 0, 0, 0, 0, 0, 0, 0, 0, 0],
        vec![0, 0, 0, 0, 0, 0, 0, 0, 0, 0, 0, 0, 0, 0, 0, 0, 0, 0, 0, 0, 0, 0, 0, 0],
        vec![0, 0, 0, 0, 0, 0, 0, 0, 0, 0, 0, 0, 0, 0, 0, 0, 0, 0, 0, 0, 0, 0, 0, 0],
        vec![0, 0, 0, 0, 0, 0, 0, 0, 0, 0, 0, 0, 0, 0, 0, 0, 0, 0, 0, 0, 0, 0, 0, 0],
        vec![0, 0, 0, 0, 0, 0, 0, 0, 0, 0, 0, 0, 0, 0, 0, 0, 0, 0, 0, 0, 0, 0, 0, 0],
        vec![0, 0, 0, 0, 0, 0, 0, 0, 0, 0, 0, 0, 0, 0, 0, 0, 0, 0, 0, 0, 0, 0, 0, 0],
    ];
    let sprites: Vec<Sprite> = vec![
        Sprite { x: 20992, y: 11776, texture: 10 },
        Sprite { x: 18944, y: 4608, texture: 10 },
        Sprite { x: 10240, y: 4608, texture: 10 },
        Sprite { x: 10240, y: 12800, texture: 10 },
        Sprite { x: 3584, y: 6656, texture: 10 },
        Sprite { x: 3584, y: 20992, texture: 10 },
        Sprite { x: 3584, y: 14848, texture: 10 },
        Sprite { x: 14848, y: 20992, texture: 10 },
        Sprite { x: 18944, y: 10752, texture: 9 },
        Sprite { x: 18944, y: 11776, texture: 9 },
        Sprite { x: 18944, y: 12800, texture: 9 },
        Sprite { x: 22016, y: 1536, texture: 8 },
        Sprite { x: 15872, y: 1536, texture: 8 },
        Sprite { x: 16384, y: 1843, texture: 8 },
        Sprite { x: 16589, y: 1229, texture: 8 },
        Sprite { x: 3584, y: 2560, texture: 8 },
        Sprite { x: 9728, y: 15872, texture: 8 },
        Sprite { x: 10240, y: 15462, texture: 8 },
        Sprite { x: 10752, y: 16179, texture: 8 },
    ];
    let portals: Vec<Portal> = vec![
        Portal { x: 20992, y: 10342, texture: 0, dest_x: 10240, dest_y: 10240 },
        Portal { x: 10240, y: 10240, texture: 1, dest_x: 20992, dest_y: 10342 },
    ];
    proof {
        reveal_strlit("https://srv-file10.gofile.io/download/GrF7ZN/wolfenstein_textures.zip");
        assert(sprites@ =~= seq![
            Sprite { x: 20992, y: 11776, texture: 10 },
            Sprite { x: 18944, y: 4608, texture: 10 },
            Sprite { x: 10240, y: 4608, texture: 10 },
            Sprite { x: 10240, y: 12800, texture: 10 },
            Sprite { x: 3584, y: 6656, texture: 10 },
            Sprite { x: 3584, y: 20992, texture: 10 },
            Sprite { x: 3584, y: 14848, texture: 10 },
            Sprite { x: 14848, y: 20992, texture: 10 },
            Sprite { x: 18944, y: 10752, texture: 9 },
            Sprite { x: 18944, y: 11776, texture: 9 },
            Sprite { x: 18944, y: 12800, texture: 9 },
            Sprite { x: 22016, y: 1536, texture: 8 },
            Sprite { x: 15872, y: 1536, texture: 8 },
            Sprite { x: 16384, y: 1843, texture: 8 },
            Sprite { x: 16589, y: 1229, texture: 8 },
            Sprite { x: 3584, y: 2560, texture: 8 },
            Sprite { x: 9728, y: 15872, texture: 8 },
            Sprite { x: 10240, y: 15462, texture: 8 },
            Sprite { x: 10752, y: 16179, texture: 8 },
        ]);
        assert(portals@ =~= seq![
            Portal { x: 20992, y: 10342, texture: 0, dest_x: 10240, dest_y: 10240 },
            Portal { x: 10240, y: 10240, texture: 1, dest_x: 20992, dest_y: 10342 },
        ]);
    }
    Level {
        url: "https://srv-file10.gofile.io/download/GrF7ZN/wolfenstein_textures.zip".to_owned(),
        world_map,
        world_layer,
        floor_texture: 3,
        ceiling_texture: 6,
        sprites,
        portals,
        action: LevelAction::Nothing,
    }
}

/// The rat race level: nested rings of corridors, with no portals.
pub fn rat_race() -> (level: Level)
    ensures
        level.wf(),
        closed_square(level.world_map@, 24),
        materials_within(level.world_map@, 7),
        border_of(level.world_map@, 24, 4),
        level.world_layer@.len() == 24,
        forall|x: int| 0 <= x < 24 ==> (#[trigger] level.world_layer@[x])@.len() == 24,
        level.floor_texture == 3,
        level.ceiling_texture == 6,
        level.url@ == "https://srv-file10.gofile.io/download/GrF7ZN/wolfenstein_textures.zip"@,
        level.sprites@ == seq![
            Sprite { x: 14080, y: 10539, texture: 9 },
            Sprite { x: 10453, y: 10539, texture: 9 },
            Sprite { x: 1408, y: 1451, texture: 8 },
            Sprite { x: 23296, y: 1536, texture: 8 },
            Sprite { x: 1451, y: 21120, texture: 8 },
            Sprite { x: 4523, y: 19840, texture: 8 },
            Sprite { x: 1579, y: 11691, texture: 10 },
            Sprite { x: 22997, y: 11648, texture: 10 },
            Sprite { x: 12288, y: 11904, texture: 10 },
            Sprite { x: 7723, y: 11776, texture: 10 },
            Sprite { x: 16896, y: 11733, texture: 10 },
            Sprite { x: 12757, y: 18560, texture: 10 },
            Sprite { x: 11648, y: 6016, texture: 10 },
            Sprite { x: 23253, y: 20651, texture: 8 },
            Sprite { x: 7851, y: 1109, texture: 9 },
            Sprite { x: 17408, y: 1195, texture: 9 },
            Sprite { x: 7765, y: 4309, texture: 9 },
            Sprite { x: 17067, y: 4437, texture: 9 },
        ],
        level.portals@.len() == 0,
        level.action == LevelAction::Nothing,
{
    let world_map: Vec<Vec<u8>> = vec![
        vec![4, 4, 4, 4, 4, 4, 4, 4, 4, 4, 4, 4, 4, 4, 4, 4, 4, 4, 4, 4, 4, 4, 4, 4],
        vec![4, 0, 0, 0, 0, 0, 0, 0, 0, 0, 0, 0, 0, 0, 0, 0, 0, 0, 0, 0, 0, 0, 0, 4],
        vec![4, 0, 4, 4, 4, 4, 4, 4, 4, 4, 4, 4, 4, 4, 4, 4, 4, 4, 4, 4, 4, 4, 0, 4],
        vec![4, 0, 4, 7, 7, 7, 7, 7, 7, 7, 7, 7, 7, 7, 7, 7, 7, 7, 7, 7, 7, 4, 0, 4],
        vec![4, 0, 4, 7, 0, 0, 0, 0, 0, 0, 0, 0, 0, 0, 0, 0, 0, 0, 0, 0, 7, 4, 0, 4],
        vec![4, 0, 4, 7, 0, 7, 7, 7, 7, 7, 7, 0, 7, 7, 7, 7, 7, 7, 7, 0, 7, 4, 0, 4],
        vec![4, 0, 4, 7, 0, 7, 6, 6, 6, 6, 6, 0, 6, 6, 6, 6, 6, 6, 7, 0, 7, 4, 0, 4],
        vec![4, 0, 4, 7, 0, 7, 6, 0, 0, 0, 0, 0, 0, 0, 0, 0, 0, 6, 7, 0, 7, 4, 0, 4],
        vec![4, 0, 4, 7, 0, 7, 6, 0, 6, 6, 6, 6, 6, 6, 6, 6, 0, 6, 7, 0, 7, 4, 0, 4],
        vec![4, 0, 4, 7, 0, 7, 6, 0, 6, 2, 2, 1, 2, 2, 2, 6, 0, 6, 7, 0, 7, 4, 0, 4],
        vec![4, 0, 4, 7, 0, 7, 6, 0, 6, 2, 0, 0, 0, 0, 2, 6, 0, 6, 7, 0, 7, 4, 0, 4],
        vec![4, 0, 0, 0, 0, 7, 6, 0, 0, 0, 0, 0, 0, 0, 0, 0, 0, 6, 7, 0, 0, 0, 0, 4],
        vec![4, 0, 4, 7, 0, 7, 6, 0, 6, 2, 0, 2, 2, 0, 2, 6, 0, 6, 7, 0, 7, 4, 0, 4],
        vec![4, 0, 4, 7, 0, 7, 6, 0, 6, 2, 0, 0, 0, 0, 2, 6, 0, 6, 7, 0, 7, 4, 0, 4],
        vec![4, 0, 4, 7, 0, 7, 6, 0, 6, 2, 2, 1, 2, 2, 2, 6, 0, 6, 7, 0, 7, 4, 0, 4],
        vec![4, 0, 4, 7, 0, 7, 6, 0, 6, 6, 6, 6, 6, 6, 6, 6, 0, 6, 7, 0, 7, 4, 0, 4],
        vec![4, 0, 4, 7, 0, 7, 6, 0, 0, 0, 0, 0, 0, 0, 0, 0, 0, 6, 7, 0, 7, 4, 0, 4],
        vec![4, 0, 4, 7, 0, 7, 6, 6, 6, 6, 6, 6, 0, 6, 6, 6, 6, 6, 7, 0, 7, 4, 0, 4],
        vec![4, 0, 4, 7, 0, 7, 7, 7, 7, 7, 7, 7, 0, 7, 7, 7, 7, 7, 7, 0, 7, 4, 0, 4],
        vec![4, 0, 4, 7, 0, 0, 0, 0, 0, 0, 0, 0, 0, 0, 0, 0, 0, 0, 0, 0, 7, 4, 0, 4],
        vec![4, 0, 4, 7, 7, 7, 7, 7, 7, 7, 7, 7, 7, 7, 7, 7, 7, 7, 7, 7, 7, 4, 0, 4],
        vec![4, 0, 4, 4, 4, 4, 4, 4, 4, 4, 4, 4, 4, 4, 4, 4, 4, 4, 4, 4, 4, 4, 0, 4],
        vec![4, 0, 0, 0, 0, 0, 0, 0, 0, 0, 0, 0, 0, 0, 0, 0, 0, 0, 0, 0, 0, 0, 0, 4],
        vec![4, 4, 4, 4, 4, 4, 4, 4, 4, 4, 4, 4, 4, 4, 4, 4, 4, 4, 4, 4, 4, 4, 4, 4],
    ];
    let world_layer: Vec<Vec<u8>> = vec![
        vec![0, 0, 0, 0, 0, 0, 0, 0, 0, 0, 0, 0, 0, 0, 0, 0, 0, 0, 0, 0, 0, 0, 0, 0],
        vec![0, 0, 0, 0, 0, 0, 0, 0, 0, 0, 0, 0, 0, 0, 0, 0, 0, 0, 0, 0, 0, 0, 0, 0],
        vec![0, 0, 0, 0, 0, 0, 0, 0, 0, 0, 0, 0, 0, 0, 0, 0, 0, 0, 0, 0, 0, 0, 0, 0],
        vec![0, 0, 0, 0, 0, 0, 0, 0, 0, 0, 0, 0, 0, 0, 0, 0, 0, 0, 0, 0, 0, 0, 0, 0],
        vec![0, 0, 0, 0, 0, 0, 0, 0, 0, 0, 0, 0, 0, 0, 0, 0, 0, 0, 0, 0, 0, 0, 0, 0],
        vec![0, 0, 0, 0, 0, 0, 0, 0, 0, 0, 0, 0, 0, 0, 0, 0, 0, 0, 0, 0, 0, 0, 0, 0],
        vec![0, 0, 0, 0, 0, 0, 0, 0, 0, 0, 0, 0, 0, 0, 0, 0, 0, 0, 0, 0, 0, 0, 0, 0],
        vec![0, 0, 0, 0, 0, 0, 0, 0, 0, 0, 0, 0, 0, 0, 0, 0, 0, 0, 0, 0, 0, 0, 0, 0],
        vec![0, 0, 0, 0, 0, 0, 0, 0, 0, 0, 0, 0, 0, 0, 0, 0, 0, 0, 0, 0, 0, 0, 0, 0],
        vec![0, 0, 0, 0, 0, 0, 0, 0, 0, 0, 0, 0, 0, 0, 0, 0, 0, 0, 0, 0, 0, 0, 0, 0],
        vec![0, 0, 0, 0, 0, 0, 0, 0, 0, 0, 0, 0, 0, 0, 0, 0, 0, 0, 0, 0, 0, 0, 0, 0],
        vec![0, 0, 0, 0, 0, 0, 0, 0, 0, 0, 0, 0, 0, 0, 0, 0, 0, 0, 0, 0, 0, 0, 0, 0],
        vec![0, 0, 0, 0, 0, 0, 0, 0, 0, 0, 0, 0, 0, 0, 0, 0, 0, 0, 0, 0, 0, 0, 0, 0],
        vec![0, 0, 0, 0, 0, 0, 0, 0, 0, 0, 0, 0, 0, 0, 0, 0, 0, 0, 0, 0, 0, 0, 0, 0],
        vec![0, 0, 0, 0, 0, 0, 0, 0, 0, 0, 0, 0, 0, 0, 0, 0, 0, 0, 0, 0, 0, 0, 0, 0],
        vec![0, 0, 0, 0, 0, 0, 0, 0, 0, 0, 0, 0, 0, 0, 0, 0, 0, 0, 0, 0, 0, 0, 0, 0],
        vec![0, 0, 0, 0, 0, 0, 0, 0, 0, 0, 0, 0, 0, 0, 0, 0, 0, 0, 0, 0, 0, 0, 0, 0],
        vec![0, 0, 0, 0, 0, 0, 0, 0, 0, 0, 0, 0, 0, 0, 0, 0, 0, 0, 0, 0, 0, 0, 0, 0],
        vec![0, 0, 0, 0, 0, 0, 0, 0, 0, 0, 0, 0, 0, 0, 0, 0, 0, 0, 0, 0, 0, 0, 0, 0],
        vec![0, 0, 0, 0, 0, 0, 0, 0, 0, 0, 0, 0, 0, 0, 0, 0, 0, 0, 0, 0, 0, 0, 0, 0],
        vec![0, 0, 0, 0, 0, 0, 0, 0, 0, 0, 0, 0, 0, 0, 0, 0, 0, 0, 0, 0, 0, 0, 0, 0],
        vec![0, 0, 0, 0, 0, 0, 0, 0, 0, 0, 0, 0, 0, 0, 0, 0, 0, 0, 0, 0, 0, 0, 0, 0],
        vec![0, 0, 0, 0, 0, 0, 0, 0, 0, 0, 0, 0, 0, 0, 0, 0, 0, 0, 0, 0, 0, 0, 0, 0],
        vec![0, 0, 0, 0, 0, 0, 0, 0, 0, 0, 0, 0, 0, 0, 0, 0, 0, 0, 0, 0, 0, 0, 0, 0],
    ];
    let sprites: Vec<Sprite> = vec![
        Sprite { x: 14080, y: 10539, texture: 9 },
        Sprite { x: 10453, y: 10539, texture: 9 },
        Sprite { x: 1408, y: 1451, texture: 8 },
        Sprite { x: 23296, y: 1536, texture: 8 },
        Sprite { x: 1451, y: 21120, texture: 8 },
        Sprite { x: 4523, y: 19840, texture: 8 },
        Sprite { x: 1579, y: 11691, texture: 10 },
        Sprite { x: 22997, y: 11648, texture: 10 },
        Sprite { x: 12288, y: 11904, texture: 10 },
        Sprite { x: 7723, y: 11776, texture: 10 },
        Sprite { x: 16896, y: 11733, texture: 10 },
        Sprite { x: 12757, y: 18560, texture: 10 },
        Sprite { x: 11648, y: 6016, texture: 10 },
        Sprite { x: 23253, y: 20651, texture: 8 },
        Sprite { x: 7851, y: 1109, texture: 9 },
        Sprite { x: 17408, y: 1195, texture: 9 },
        Sprite { x: 7765, y: 4309, texture: 9 },
        Sprite { x: 17067, y: 4437, texture: 9 },
    ];
    let portals: Vec<Portal> = Vec::new();
    proof {
        reveal_strlit("https://srv-file10.gofile.io/download/GrF7ZN/wolfenstein_textures.zip");
        assert(sprites@ =~= seq![
            Sprite { x: 14080, y: 10539, texture: 9 },
            Sprite { x: 10453, y: 10539, texture: 9 },
            Sprite { x: 1408, y: 1451, texture: 8 },
            Sprite { x: 23296, y: 1536, texture: 8 },
            Sprite { x: 1451, y: 21120, texture: 8 },
            Sprite { x: 4523, y: 19840, texture: 8 },
            Sprite { x: 1579, y: 11691, texture: 10 },
            Sprite { x: 22997, y: 11648, texture: 10 },
            Sprite { x: 12288, y: 11904, texture: 10 },
            Sprite { x: 7723, y: 11776, texture: 10 },
            Sprite { x: 16896, y: 11733, texture: 10 },
            Sprite { x: 12757, y: 18560, texture: 10 },
            Sprite { x: 11648, y: 6016, texture: 10 },
            Sprite { x: 23253, y: 20651, texture: 8 },
            Sprite { x: 7851, y: 1109, texture: 9 },
            Sprite { x: 17408, y: 1195, texture: 9 },
            Sprite { x: 7765, y: 4309, texture: 9 },
            Sprite { x: 17067, y: 4437, texture: 9 },
        ]);
    }
    Level {
        url: "https://srv-file10.gofile.io/download/GrF7ZN/wolfenstein_textures.zip".to_owned(),
        world_map,
        world_layer,
        floor_texture: 3,
        ceiling_texture: 6,
        sprites,
        portals,
        action: LevelAction::Nothing,
    }
}

/// The spiral level: a spiral of walls with a portal at its mouth and one at its centre.
pub fn spyral() -> (level: Level)
    ensures
        level.wf(),
        closed_square(level.world_map@, 24),
        materials_within(level.world_map@, 6),
        portals_on_floor(level.world_map@, level.portals@),
        level.world_layer@.len() == 24,
        forall|x: int| 0 <= x < 24 ==> (#[trigger] level.world_layer@[x])@.len() == 24,
        level.floor_texture == 3,
        level.ceiling_texture == 6,
        level.url@ == "https://srv-file10.gofile.io/download/GrF7ZN/wolfenstein_textures.zip"@,
        level.sprites@ == seq![
            Sprite { x: 5504, y: 1579, texture: 10 },
            Sprite { x: 13099, y: 1536, texture: 10 },
            Sprite { x: 22997, y: 7125, texture: 10 },
            Sprite { x: 22997, y: 16469, texture: 10 },
            Sprite { x: 1493, y: 14507, texture: 10 },
            Sprite { x: 3541, y: 17621, texture: 10 },
            Sprite { x: 3499, y: 11435, texture: 10 },
            Sprite { x: 5717, y: 10965, texture: 10 },
            Sprite { x: 7637, y: 14251, texture: 10 },
            Sprite { x: 16768, y: 12160, texture: 10 },
            Sprite { x: 19072, y: 9685, texture: 10 },
            Sprite { x: 19157, y: 15872, texture: 10 },
            Sprite { x: 20907, y: 12288, texture: 10 },
            Sprite { x: 1451, y: 3413, texture: 9 },
            Sprite { x: 21205, y: 3371, texture: 9 },
            Sprite { x: 9515, y: 14976, texture: 9 },
            Sprite { x: 9472, y: 11691, texture: 9 },
            Sprite { x: 11819, y: 11776, texture: 8 },
            Sprite { x: 12715, y: 12885, texture: 8 },
            Sprite { x: 16683, y: 16896, texture: 8 },
            Sprite { x: 5547, y: 19029, texture: 8 },
            Sprite { x: 3541, y: 20992, texture: 8 },
            Sprite { x: 3755, y: 5632, texture: 8 },
            Sprite { x: 10581, y: 3285, texture: 8 },
            Sprite { x: 21077, y: 20651, texture: 8 },
            Sprite { x: 23253, y: 1365, texture: 8 },
        ],
        level.portals@ == seq![
            Portal { x: 1536, y: 1536, texture: 0, dest_x: 11776, dest_y: 11776 },
            Portal { x: 11776, y: 11776, texture: 1, dest_x: 1536, dest_y: 10342 },
        ],
        level.action == LevelAction::Nothing,
{
    let world_map: Vec<Vec<u8>> = vec![
        vec![2, 2, 1, 2, 2, 2, 2, 2, 1, 2, 2, 2, 2, 2, 2, 1, 2, 2, 2, 2, 2, 2, 2, 2],
        vec![2, 0, 0, 0, 0, 0, 0, 0, 0, 0, 0, 0, 0, 0, 0, 0, 0, 0, 0, 0, 0, 0, 0, 2],
        vec![2, 2, 2, 2, 2, 2, 2, 2, 2, 2, 2, 2, 2, 2, 2, 2, 2, 2, 2, 2, 2, 2, 0, 1],
        vec![2, 0, 0, 0, 0, 0, 0, 0, 0, 0, 0, 0, 0, 0, 0, 0, 0, 0, 0, 0, 0, 2, 0, 2],
        vec![2, 0, 2, 2, 2, 2, 2, 2, 2, 2, 2, 2, 2, 2, 2, 2, 2, 2, 2, 2, 0, 2, 0, 2],
        vec![2, 0, 2, 0, 0, 0, 0, 0, 0, 0, 0, 0, 0, 0, 0, 0, 0, 0, 0, 2, 0, 2, 0, 2],
        vec![1, 0, 2, 0, 4, 4, 4, 4, 4, 4, 4, 4, 4, 4, 4, 4, 4, 4, 0, 2, 0, 2, 0, 2],
        vec![2, 0, 2, 0, 4, 0, 0, 0, 0, 0, 0, 0, 0, 0, 0, 0, 0, 4, 0, 2, 0, 2, 0, 1],
        vec![2, 0, 2, 0, 4, 0, 4, 4, 4, 4, 4, 4, 4, 4, 4, 4, 0, 4, 0, 2, 0, 2, 0, 2],
        vec![2, 0, 2, 0, 4, 0, 4, 0, 0, 0, 0, 0, 0, 0, 0, 4, 0, 4, 0, 2, 0, 2, 0, 2],
        vec![2, 0, 2, 0, 4, 0, 4, 0, 5, 5, 5, 5, 5, 5, 0, 4, 0, 4, 0, 2, 0, 2, 0, 2],
        vec![1, 0, 2, 0, 4, 0, 4, 0, 5, 0, 0, 0, 0, 5, 0, 4, 0, 4, 0, 2, 0, 2, 0, 2],
        vec![2, 0, 2, 0, 4, 0, 4, 0, 5, 0, 0, 6, 0, 5, 0, 4, 0, 4, 0, 2, 0, 2, 0, 1],
        vec![2, 0, 2, 0, 4, 0, 4, 0, 5, 0, 5, 5, 5, 5, 0, 4, 0, 4, 0, 2, 0, 2, 0, 2],
        vec![2, 0, 2, 0, 4, 0, 4, 0, 5, 0, 0, 0, 0, 0, 0, 4, 0, 4, 0, 2, 0, 2, 0, 2],
        vec![2, 0, 2, 0, 4, 0, 4, 0, 5, 5, 5, 5, 5, 5, 5, 4, 0, 4, 0, 2, 0, 2, 0, 2],
        vec![1, 0, 2, 0, 4, 0, 4, 0, 0, 0, 0, 0, 0, 0, 0, 0, 0, 4, 0, 2, 0, 2, 0, 2],
        vec![2, 0, 2, 0, 4, 0, 4, 4, 4, 4, 4, 4, 4, 4, 4, 4, 4, 4, 0, 2, 0, 2, 0, 2],
        vec![2, 0, 2, 0, 4, 0, 0, 0, 0, 0, 0, 0, 0, 0, 0, 0, 0, 0, 0, 2, 0, 2, 0, 1],
        vec![2, 0, 2, 0, 4, 4, 4, 4, 4, 4, 4, 4, 4, 4, 4, 4, 4, 4, 4, 2, 0, 2, 0, 2],
        vec![2, 0, 2, 0, 0, 0, 0, 0, 0, 0, 0, 0, 0, 0, 0, 0, 0, 0, 0, 0, 0, 2, 0, 2],
        vec![2, 0, 2, 2, 2, 2, 2, 2, 2, 2, 2, 2, 2, 2, 2, 2, 2, 2, 2, 2, 2, 2, 0, 2],
        vec![2, 0, 0, 0, 0, 0, 0, 0, 0, 0, 0, 0, 0, 0, 0, 0, 0, 0, 0, 0, 0, 0, 0, 2],
        vec![2, 1, 2, 2, 2, 2, 2, 1, 2, 2, 2, 2, 2, 1, 2, 2, 2, 2, 2, 1, 2, 2, 2, 2],
    ];
    let world_layer: Vec<Vec<u8>> = vec![
        vec![0, 0, 0, 0, 0, 0, 0, 0, 0, 0, 0, 0, 0, 0, 0, 0, 0, 0, 0, 0, 0, 0, 0, 0],
        vec![0, 0, 0, 0, 0, 0, 0, 0, 0, 0, 0, 0, 0, 0, 0, 0, 0, 0, 0, 0, 0, 0, 0, 0],
        vec![0, 0, 0, 0, 0, 0, 0, 0, 0, 0, 0, 0, 0, 0, 0, 0, 0, 0, 0, 0, 0, 0, 0, 0],
        vec![0, 0, 0, 0, 0, 0, 0, 0, 0, 0, 0, 0, 0, 0, 0, 0, 0, 0, 0, 0, 0, 0, 0, 0],
        vec![0, 0, 0, 0, 0, 0, 0, 0, 0, 0, 0, 0, 0, 0, 0, 0, 0, 0, 0, 0, 0, 0, 0, 0],
        vec![0, 0, 0, 0, 0, 0, 0, 0, 0, 0, 0, 0, 0, 0, 0, 0, 0, 0, 0, 0, 0, 0, 0, 0],
        vec![0, 0, 0, 0, 0, 0, 0, 0, 0, 0, 0, 0, 0, 0, 0, 0, 0, 0, 0, 0, 0, 0, 0, 0],
        vec![0, 0, 0, 0, 0, 0, 0, 0, 0, 0, 0, 0, 0, 0, 0, 0, 0, 0, 0, 0, 0, 0, 0, 0],
        vec![0, 0, 0, 0, 0, 0, 0, 0, 0, 0, 0, 0, 0, 0, 0, 0, 0, 0, 0, 0, 0, 0, 0, 0],
        vec![0, 0, 0, 0, 0, 0, 0, 0, 0, 0, 0, 0, 0, 0, 0, 0, 0, 0, 0, 0, 0, 0, 0, 0],
        vec![0, 0, 0, 0, 0, 0, 0, 0, 0, 0, 0, 0, 0, 0, 0, 0, 0, 0, 0, 0, 0, 0, 0, 0],
        vec![0, 0, 0, 0, 0, 0, 0, 0, 0, 0, 0, 0, 0, 0, 0, 0, 0, 0, 0, 0, 0, 0, 0, 0],
        vec![0, 0, 0, 0, 0, 0, 0, 0, 0, 0, 0, 0, 0, 0, 0, 0, 0, 0, 0, 0, 0, 0, 0, 0],
        vec![0, 0, 0, 0, 0, 0, 0, 0, 0, 0, 0, 0, 0, 0, 0, 0, 0, 0, 0, 0, 0, 0, 0, 0],
        vec![0, 0, 0, 0, 0, 0, 0, 0, 0, 0, 0, 0, 0, 0, 0, 0, 0, 0, 0, 0, 0, 0, 0, 0],
        vec![0, 0, 0, 0, 0, 0, 0, 0, 0, 0, 0, 0, 0, 0, 0, 0, 0, 0, 0, 0, 0, 0, 0, 0],
        vec![0, 0, 0, 0, 0, 0, 0, 0, 0, 0, 0, 0, 0, 0, 0, 0, 0, 0, 0, 0, 0, 0, 0, 0],
        vec![0, 0, 0, 0, 0, 0, 0, 0, 0, 0, 0, 0, 0, 0, 0, 0, 0, 0, 0, 0, 0, 0, 0, 0],
        vec![0, 0, 0, 0, 0, 0, 0, 0, 0, 0, 0, 0, 0, 0, 0, 0, 0, 0, 0, 0, 0, 0, 0, 0],
        vec![0, 0, 0, 0, 0, 0, 0, 0, 0, 0, 0, 0, 0, 0, 0, 0, 0, 0, 0, 0, 0, 0, 0, 0],
        vec![0, 0, 0, 0, 0, 0, 0, 0, 0, 0, 0, 0, 0, 0, 0, 0, 0, 0, 0, 0, 0, 0, 0, 0],
        vec![0, 0, 0, 0, 0, 0, 0, 0, 0, 0, 0, 0, 0, 0, 0, 0, 0, 0, 0, 0, 0, 0, 0, 0],
        vec![0, 0, 0, 0, 0, 0, 0, 0, 0, 0, 0, 0, 0, 0, 0, 0, 0, 0, 0, 0, 0, 0, 0, 0],
        vec![0, 0, 0, 0, 0, 0, 0, 0, 0, 0, 0, 0, 0, 0, 0, 0, 0, 0, 0, 0, 0, 0, 0, 0],
    ];
    let sprites: Vec<Sprite> = vec![
        Sprite { x: 5504, y: 1579, texture: 10 },
        Sprite { x: 13099, y: 1536, texture: 10 },
        Sprite { x: 22997, y: 7125, texture: 10 },
        Sprite { x: 22997, y: 16469, texture: 10 },
        Sprite { x: 1493, y: 14507, texture: 10 },
        Sprite { x: 3541, y: 17621, texture: 10 },
        Sprite { x: 3499, y: 11435, texture: 10 },
        Sprite { x: 5717, y: 10965, texture: 10 },
        Sprite { x: 7637, y: 14251, texture: 10 },
        Sprite { x: 16768, y: 12160, texture: 10 },
        Sprite { x: 19072, y: 9685, texture: 10 },
        Sprite { x: 19157, y: 15872, texture: 10 },
        Sprite { x: 20907, y: 12288, texture: 10 },
        Sprite { x: 1451, y: 3413, texture: 9 },
        Sprite { x: 21205, y: 3371, texture: 9 },
        Sprite { x: 9515, y: 14976, texture: 9 },
        Sprite { x: 9472, y: 11691, texture: 9 },
        Sprite { x: 11819, y: 11776, texture: 8 },
        Sprite { x: 12715, y: 12885, texture: 8 },
        Sprite { x: 16683, y: 16896, texture: 8 },
        Sprite { x: 5547, y: 19029, texture: 8 },
        Sprite { x: 3541, y: 20992, texture: 8 },
        Sprite { x: 3755, y: 5632, texture: 8 },
        Sprite { x: 10581, y: 3285, texture: 8 },
        Sprite { x: 21077, y: 20651, texture: 8 },
        Sprite { x: 23253, y: 1365, texture: 8 },
    ];
    let portals: Vec<Portal> = vec![
        Portal { x: 1536, y: 1536, texture: 0, dest_x: 11776, dest_y: 11776 },
        Portal { x: 11776, y: 11776, texture: 1, dest_x: 1536, dest_y: 10342 },
    ];
    proof {
        reveal_strlit("https://srv-file10.gofile.io/download/GrF7ZN/wolfenstein_textures.zip");
        assert(sprites@ =~= seq![
            Sprite { x: 5504, y: 1579, texture: 10 },
            Sprite { x: 13099, y: 1536, texture: 10 },
            Sprite { x: 22997, y: 7125, texture: 10 },
            Sprite { x: 22997, y: 16469, texture: 10 },
            Sprite { x: 1493, y: 14507, texture: 10 },
            Sprite { x: 3541, y: 17621, texture: 10 },
            Sprite { x: 3499, y: 11435, texture: 10 },
            Sprite { x: 5717, y: 10965, texture: 10 },
            Sprite { x: 7637, y: 14251, texture: 10 },
            Sprite { x: 16768, y: 12160, texture: 10 },
            Sprite { x: 19072, y: 9685, texture: 10 },
            Sprite { x: 19157, y: 15872, texture: 10 },
            Sprite { x: 20907, y: 12288, texture: 10 },
            Sprite { x: 1451, y: 3413, texture: 9 },
            Sprite { x: 21205, y: 3371, texture: 9 },
            Sprite { x: 9515, y: 14976, texture: 9 },
            Sprite { x: 9472, y: 11691, texture: 9 },
            Sprite { x: 11819, y: 11776, texture: 8 },
            Sprite { x: 12715, y: 12885, texture: 8 },
            Sprite { x: 16683, y: 16896, texture: 8 },
            Sprite { x: 5547, y: 19029, texture: 8 },
            Sprite { x: 3541, y: 20992, texture: 8 },
            Sprite { x: 3755, y: 5632, texture: 8 },
            Sprite { x: 10581, y: 3285, texture: 8 },
            Sprite { x: 21077, y: 20651, texture: 8 },
            Sprite { x: 23253, y: 1365, texture: 8 },
        ]);
        assert(portals@ =~= seq![
            Portal { x: 1536, y: 1536, texture: 0, dest_x: 11776, dest_y: 11776 },
            Portal { x: 11776, y: 11776, texture: 1, dest_x: 1536, dest_y: 10342 },
        ]);
    }
    Level {
        url: "https://srv-file10.gofile.io/download/GrF7ZN/wolfenstein_textures.zip".to_owned(),
        world_map,
        world_layer,
        floor_texture: 3,
        ceiling_texture: 6,
        sprites,
        portals,
        action: LevelAction::Nothing,
    }
}

/// The trapped level: walled-off chambers joined by two portals leading to each other's corner.
pub fn trapped() -> (level: Level)
    ensures
        level.wf(),
        closed_square(level.world_map@, 24),
        materials_within(level.world_map@, 7),
        border_of(level.world_map@, 24, 7),
        portals_on_floor(level.world_map@, level.portals@),
        level.world_layer@.len() == 24,
        forall|x: int| 0 <= x < 24 ==> (#[trigger] level.world_layer@[x])@.len() == 24,
        level.floor_texture == 3,
        level.ceiling_texture == 6,
        level.url@ == "https://srv-file10.gofile.io/download/GrF7ZN/wolfenstein_textures.zip"@,
        level.sprites@ == seq![
            Sprite { x: 18389, y: 18261, texture: 10 },
            Sprite { x: 18304, y: 5888, texture: 10 },
            Sprite { x: 6571, y: 5931, texture: 10 },
            Sprite { x: 6528, y: 18901, texture: 10 },
            Sprite { x: 1365, y: 1365, texture: 8 },
            Sprite { x: 11989, y: 1323, texture: 8 },
            Sprite { x: 13781, y: 2261, texture: 8 },
            Sprite { x: 14208, y: 1621, texture: 8 },
            Sprite { x: 23125, y: 9728, texture: 8 },
            Sprite { x: 22699, y: 17792, texture: 8 },
            Sprite { x: 13739, y: 13909, texture: 8 },
            Sprite { x: 11819, y: 19755, texture: 8 },
            Sprite { x: 11904, y: 19285, texture: 8 },
            Sprite { x: 1323, y: 13739, texture: 9 },
            Sprite { x: 1280, y: 11819, texture: 9 },
            Sprite { x: 13653, y: 11776, texture: 9 },
            Sprite { x: 23168, y: 11691, texture: 9 },
            Sprite { x: 22997, y: 13909, texture: 9 },
            Sprite { x: 13525, y: 18773, texture: 9 },
        ],
        level.portals@ == seq![
            Portal { x: 1536, y: 1536, texture: 0, dest_x: 20992, dest_y: 20582 },
            Portal { x: 20992, y: 20992, texture: 1, dest_x: 1536, dest_y: 1536 },
        ],
        level.action == LevelAction::Nothing,
{
    let world_map: Vec<Vec<u8>> = vec![
        vec![7, 7, 7, 7, 7, 7, 7, 7, 7, 7, 7, 7, 7, 7, 7, 7, 7, 7, 7, 7, 7, 7, 7, 7],
        vec![7, 0, 0, 0, 0, 0, 0, 0, 0, 0, 0, 0, 7, 0, 0, 0, 0, 0, 0, 0, 0, 0, 0, 7],
        vec![7, 0, 0, 0, 0, 0, 0, 0, 0, 0, 0, 0, 7, 0, 0, 0, 0, 0, 0, 0, 0, 0, 0, 7],
        vec![7, 0, 0, 0, 0, 0, 0, 0, 0, 0, 0, 0, 7, 0, 0, 0, 0, 0, 0, 0, 0, 0, 0, 7],
        vec![7, 0, 0, 0, 0, 0, 0, 0, 0, 0, 0, 0, 7, 0, 0, 0, 0, 0, 0, 0, 0, 0, 0, 7],
        vec![7, 0, 0, 0, 0, 0, 0, 0, 0, 0, 0, 0, 7, 0, 0, 0, 0, 0, 0, 0, 0, 0, 0, 7],
        vec![7, 0, 0, 0, 0, 0, 0, 0, 0, 0, 0, 0, 7, 0, 0, 0, 0, 0, 0, 0, 0, 0, 0, 7],
        vec![7, 0, 0, 0, 0, 0, 0, 0, 0, 0, 0, 0, 7, 0, 0, 0, 0, 0, 0, 0, 0, 0, 0, 7],
        vec![7, 0, 0, 0, 0, 0, 0, 0, 0, 0, 0, 0, 7, 0, 0, 0, 0, 0, 0, 0, 0, 0, 0, 7],
        vec![7, 0, 0, 0, 0, 0, 0, 0, 0, 0, 0, 0, 7, 0, 0, 0, 0, 0, 0, 0, 0, 0, 0, 7],
        vec![7, 0, 0, 0, 0, 0, 0, 0, 0, 0, 0, 0, 7, 0, 0, 0, 0, 0, 0, 0, 0, 0, 0, 7],
        vec![7, 0, 0, 0, 0, 0, 0, 0, 0, 0, 0, 0, 7, 0, 0, 0, 0, 0, 0, 0, 0, 0, 0, 7],
        vec![7, 7, 7, 7, 7, 7, 7, 7, 7, 7, 7, 7, 7, 0, 7, 7, 7, 7, 7, 7, 7, 7, 7, 7],
        vec![7, 0, 0, 0, 0, 0, 0, 0, 0, 0, 0, 0, 7, 0, 0, 0, 0, 0, 0, 0, 0, 0, 0, 7],
        vec![7, 0, 0, 0, 0, 0, 0, 0, 0, 0, 0, 0, 7, 0, 0, 0, 0, 0, 0, 0, 0, 0, 0, 7],
        vec![7, 0, 0, 0, 0, 0, 0, 0, 0, 0, 0, 0, 7, 0, 0, 0, 0, 0, 0, 0, 0, 0, 0, 7],
        vec![7, 0, 0, 0, 0, 0, 0, 0, 0, 0, 0, 0, 7, 0, 0, 0, 0, 0, 0, 0, 0, 0, 0, 7],
        vec![7, 0, 0, 0, 0, 0, 0, 0, 0, 0, 0, 0, 7, 0, 0, 0, 0, 0, 0, 0, 0, 0, 0, 7],
        vec![7, 0, 0, 0, 0, 0, 0, 0, 0, 0, 0, 0, 7, 0, 0, 0, 0, 0, 0, 0, 0, 0, 0, 7],
        vec![7, 0, 0, 0, 0, 0, 0, 0, 0, 0, 0, 0, 7, 0, 0, 0, 0, 0, 0, 0, 0, 0, 0, 7],
        vec![7, 0, 0, 0, 0, 0, 0, 0, 0, 0, 0, 0, 7, 0, 0, 0, 0, 0, 0, 0, 0, 0, 0, 7],
        vec![7, 0, 0, 0, 0, 0, 0, 0, 0, 0, 0, 0, 7, 0, 0, 0, 0, 0, 0, 0, 0, 0, 0, 7],
        vec![7, 0, 0, 0, 0, 0, 0, 0, 0, 0, 0, 0, 0, 0, 0, 0, 0, 0, 0, 0, 0, 0, 0, 7],
        vec![7, 7, 7, 7, 7, 7, 7, 7, 7, 7, 7, 7, 7, 7, 7, 7, 7, 7, 7, 7, 7, 7, 7, 7],
    ];
    let world_layer: Vec<Vec<u8>> = vec![
        vec![0, 0, 0, 0, 0, 0, 0, 0, 0, 0, 0, 0, 0, 0, 0, 0, 0, 0, 0, 0, 0, 0, 0, 0],
        vec![0, 0, 0, 0, 0, 0, 0, 0, 0, 0, 0, 0, 0, 0, 0, 0, 0, 0, 0, 0, 0, 0, 0, 0],
        vec![0, 0, 0, 0, 0, 0, 0, 0, 0, 0, 0, 0, 0, 0, 0, 0, 0, 0, 0, 0, 0, 0, 0, 0],
        vec![0, 0, 0, 0, 0, 0, 0, 0, 0, 0, 0, 0, 0, 0, 0, 0, 0, 0, 0, 0, 0, 0, 0, 0],
        vec![0, 0, 0, 0, 0, 0, 0, 0, 0, 0, 0, 0, 0, 0, 0, 0, 0, 0, 0, 0, 0, 0, 0, 0],
        vec![0, 0, 0, 0, 0, 0, 0, 0, 0, 0, 0, 0, 0, 0, 0, 0, 0, 0, 0, 0, 0, 0, 0, 0],
        vec![0, 0, 0, 0, 0, 0, 0, 0, 0, 0, 0, 0, 0, 0, 0, 0, 0, 0, 0, 0, 0, 0, 0, 0],
        vec![0, 0, 0, 0, 0, 0, 0, 0, 0, 0, 0, 0, 0, 0, 0, 0, 0, 0, 0, 0, 0, 0, 0, 0],
        vec![0, 0, 0, 0, 0, 0, 0, 0, 0, 0, 0, 0, 0, 0, 0, 0, 0, 0, 0, 0, 0, 0, 0, 0],
        vec![0, 0, 0, 0, 0, 0, 0, 0, 0, 0, 0, 0, 0, 0, 0, 0, 0, 0, 0, 0, 0, 0, 0, 0],
        vec![0, 0, 0, 0, 0, 0, 0, 0, 0, 0, 0, 0, 0, 0, 0, 0, 0, 0, 0, 0, 0, 0, 0, 0],
        vec![0, 0, 0, 0, 0, 0, 0, 0, 0, 0, 0, 0, 0, 0, 0, 0, 0, 0, 0, 0, 0, 0, 0, 0],
        vec![0, 0, 0, 0, 0, 0, 0, 0, 0, 0, 0, 0, 0, 0, 0, 0, 0, 0, 0, 0, 0, 0, 0, 0],
        vec![0, 0, 0, 0, 0, 0, 0, 0, 0, 0, 0, 0, 0, 0, 0, 0, 0, 0, 0, 0, 0, 0, 0, 0],
        vec![0, 0, 0, 0, 0, 0, 0, 0, 0, 0, 0, 0, 0, 0, 0, 0, 0, 0, 0, 0, 0, 0, 0, 0],
        vec![0, 0, 0, 0, 0, 0, 0, 0, 0, 0, 0, 0, 0, 0, 0, 0, 0, 0, 0, 0, 0, 0, 0, 0],
        vec![0, 0, 0, 0, 0, 0, 0, 0, 0, 0, 0, 0, 0, 0, 0, 0, 0, 0, 0, 0, 0, 0, 0, 0],
        vec![0, 0, 0, 0, 0, 0, 0, 0, 0, 0, 0, 0, 0, 0, 0, 0, 0, 0, 0, 0, 0, 0, 0, 0],
        vec![0, 0, 0, 0, 0, 0, 0, 0, 0, 0, 0, 0, 0, 0, 0, 0, 0, 0, 0, 0, 0, 0, 0, 0],
        vec![0, 0, 0, 0, 0, 0, 0, 0, 0, 0, 0, 0, 0, 0, 0, 0, 0, 0, 0, 0, 0, 0, 0, 0],
        vec![0, 0, 0, 0, 0, 0, 0, 0, 0, 0, 0, 0, 0, 0, 0, 0, 0, 0, 0, 0, 0, 0, 0, 0],
        vec![0, 0, 0, 0, 0, 0, 0, 0, 0, 0, 0, 0, 0, 0, 0, 0, 0, 0, 0, 0, 0, 0, 0, 0],
        vec![0, 0, 0, 0, 0, 0, 0, 0, 0, 0, 0, 0, 0, 0, 0, 0, 0, 0, 0, 0, 0, 0, 0, 0],
        vec![0, 0, 0, 0, 0, 0, 0, 0, 0, 0, 0, 0, 0, 0, 0, 0, 0, 0, 0, 0, 0, 0, 0, 0],
    ];
    let sprites: Vec<Sprite> = vec![
        Sprite { x: 18389, y: 18261, texture: 10 },
        Sprite { x: 18304, y: 5888, texture: 10 },
        Sprite { x: 6571, y: 5931, texture: 10 },
        Sprite { x: 6528, y: 18901, texture: 10 },
        Sprite { x: 1365, y: 1365, texture: 8 },
        Sprite { x: 11989, y: 1323, texture: 8 },
        Sprite { x: 13781, y: 2261, texture: 8 },
        Sprite { x: 14208, y: 1621, texture: 8 },
        Sprite { x: 23125, y: 9728, texture: 8 },
        Sprite { x: 22699, y: 17792, texture: 8 },
        Sprite { x: 13739, y: 13909, texture: 8 },
        Sprite { x: 11819, y: 19755, texture: 8 },
        Sprite { x: 11904, y: 19285, texture: 8 },
        Sprite { x: 1323, y: 13739, texture: 9 },
        Sprite { x: 1280, y: 11819, texture: 9 },
        Sprite { x: 13653, y: 11776, texture: 9 },
        Sprite { x: 23168, y: 11691, texture: 9 },
        Sprite { x: 22997, y: 13909, texture: 9 },
        Sprite { x: 13525, y: 18773, texture: 9 },
    ];
    let portals: Vec<Portal> = vec![
        Portal { x: 1536, y: 1536, texture: 0, dest_x: 20992, dest_y: 20582 },
        Portal { x: 20992, y: 20992, texture: 1, dest_x: 1536, dest_y: 1536 },
    ];
    proof {
        reveal_strlit("https://srv-file10.gofile.io/download/GrF7ZN/wolfenstein_textures.zip");
        assert(sprites@ =~= seq![
            Sprite { x: 18389, y: 18261, texture: 10 },
            Sprite { x: 18304, y: 5888, texture: 10 },
            Sprite { x: 6571, y: 5931, texture: 10 },
            Sprite { x: 6528, y: 18901, texture: 10 },
            Sprite { x: 1365, y: 1365, texture: 8 },
            Sprite { x: 11989, y: 1323, texture: 8 },
            Sprite { x: 13781, y: 2261, texture: 8 },
            Sprite { x: 14208, y: 1621, texture: 8 },
            Sprite { x: 23125, y: 9728, texture: 8 },
            Sprite { x: 22699, y: 17792, texture: 8 },
            Sprite { x: 13739, y: 13909, texture: 8 },
            Sprite { x: 11819, y: 19755, texture: 8 },
            Sprite { x: 11904, y: 19285, texture: 8 },
            Sprite { x: 1323, y: 13739, texture: 9 },
            Sprite { x: 1280, y: 11819, texture: 9 },
            Sprite { x: 13653, y: 11776, texture: 9 },
            Sprite { x: 23168, y: 11691, texture: 9 },
            Sprite { x: 22997, y: 13909, texture: 9 },
            Sprite { x: 13525, y: 18773, texture: 9 },
        ]);
        assert(portals@ =~= seq![
            Portal { x: 1536, y: 1536, texture: 0, dest_x: 20992, dest_y: 20582 },
            Portal { x: 20992, y: 20992, texture: 1, dest_x: 1536, dest_y: 1536 },
        ]);
    }
    Level {
        url: "https://srv-file10.gofile.io/download/GrF7ZN/wolfenstein_textures.zip".to_owned(),
        world_map,
        world_layer,
        floor_texture: 3,
        ceiling_texture: 6,
        sprites,
        portals,
        action: LevelAction::Nothing,
    }
}

} // verus!
