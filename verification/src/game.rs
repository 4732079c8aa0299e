//! The game session and its command interpreter.
//!
//! [`GameModel`] is the mathematical state: the room sequence, the player's
//! inventory, and the index of the current room. [`spec_step`] is the full
//! meaning of one command: the next state, the lines to print, and whether
//! the session ends. The executable [`Game::step`] is proved to agree with
//! it exactly.

use crate::parse::{Command, CommandModel, Direction};
use crate::render::{
    drop_message, inventory_lines, lines_view, no_exit_message, not_carrying_message,
    not_found_message, render_inventory, render_room, room_lines, take_message, unknown_message,
    join3,
};
use crate::text::str_eq;
use crate::world::{
    initial_rooms, load_rooms, rooms_view, world_valid, Exit, ExitModel, Item, ItemModel, Player,
    Room, RoomModel,
};
use vstd::prelude::*;
use vstd::string::StringExecFns;

verus! {

/// Mathematical state of a session.
#[verifier::ext_equal]
pub ghost struct GameModel {
    pub rooms: Seq<RoomModel>,
    pub inventory: Seq<ItemModel>,
    pub cur: int,
}

impl GameModel {
    /// Well-formedness: the current room exists and no exit dangles.
    pub open spec fn wf(self) -> bool {
        &&& 0 <= self.cur < self.rooms.len()
        &&& world_valid(self.rooms)
    }
}

/// What one command produces: the next state, the lines printed, and whether
/// the session ends.
#[verifier::ext_equal]
pub ghost struct StepModel {
    pub state: GameModel,
    pub lines: Seq<Seq<char>>,
    pub quit: bool,
}

/// The index of the first item named `name` at or after `i`, or the length
/// of `items` if there is none.
pub open spec fn find_from(items: Seq<ItemModel>, name: Seq<char>, i: int) -> int
    decreases items.len() - i,
{
    if 0 <= i < items.len() {
        if items[i].name == name {
            i
        } else {
            find_from(items, name, i + 1)
        }
    } else {
        items.len() as int
    }
}

/// The index of the first item named `name`, or the length of `items`.
pub open spec fn find_item(items: Seq<ItemModel>, name: Seq<char>) -> int {
    find_from(items, name, 0)
}

/// The container holds an item of that name.
pub open spec fn has_item(items: Seq<ItemModel>, name: Seq<char>) -> bool {
    find_item(items, name) < items.len()
}

pub proof fn lemma_find_from_props(items: Seq<ItemModel>, name: Seq<char>, i: int)
    requires
        0 <= i <= items.len(),
    ensures
        i <= find_from(items, name, i) <= items.len(),
        find_from(items, name, i) < items.len() ==> items[find_from(items, name, i)].name
            == name,
        forall|k: int| i <= k < find_from(items, name, i) ==> #[trigger] items[k].name != name,
    decreases items.len() - i,
{
    if i < items.len() && items[i].name != name {
        lemma_find_from_props(items, name, i + 1);
    }
}

/// The index of the first exit in `exits` named `dir` at or after `i`, or
/// the length of `exits` if there is none.
pub open spec fn find_exit_from(exits: Seq<ExitModel>, dir: Seq<char>, i: int) -> int
    decreases exits.len() - i,
{
    if 0 <= i < exits.len() {
        if exits[i].direction == dir {
            i
        } else {
            find_exit_from(exits, dir, i + 1)
        }
    } else {
        exits.len() as int
    }
}

/// The index of the first exit named `dir`, or the length of `exits`.
pub open spec fn find_exit(exits: Seq<ExitModel>, dir: Seq<char>) -> int {
    find_exit_from(exits, dir, 0)
}

/// The room has an exit in that direction.
pub open spec fn has_exit(exits: Seq<ExitModel>, dir: Seq<char>) -> bool {
    find_exit(exits, dir) < exits.len()
}

pub proof fn lemma_find_exit_from_props(exits: Seq<ExitModel>, dir: Seq<char>, i: int)
    requires
        0 <= i <= exits.len(),
    ensures
        i <= find_exit_from(exits, dir, i) <= exits.len(),
        find_exit_from(exits, dir, i) < exits.len() ==> exits[find_exit_from(
            exits,
            dir,
            i,
        )].direction == dir,
        forall|k: int|
            i <= k < find_exit_from(exits, dir, i) ==> #[trigger] exits[k].direction != dir,
    decreases exits.len() - i,
{
    if i < exits.len() && exits[i].direction != dir {
        lemma_find_exit_from_props(exits, dir, i + 1);
    }
}

/// Meaning of `take <name>`: the first item of that name in the current
/// room moves to the end of the inventory; if there is none, nothing
/// changes and the not-found message is the only output.
pub open spec fn spec_take(s: GameModel, name: Seq<char>) -> StepModel
    recommends
        s.wf(),
{
    let room = s.rooms[s.cur];
    let i = find_item(room.items, name);
    if i < room.items.len() {
        let it = room.items[i];
        let room2 = RoomModel {
            title: room.title,
            description: room.description,
            items: room.items.remove(i),
            exits: room.exits,
        };
        StepModel {
            state: GameModel {
                rooms: s.rooms.update(s.cur, room2),
                inventory: s.inventory.push(it),
                cur: s.cur,
            },
            lines: seq![take_message(it.description)],
            quit: false,
        }
    } else {
        StepModel { state: s, lines: seq![not_found_message(name)], quit: false }
    }
}

/// Meaning of `drop <name>`: the first item of that name in the inventory
/// moves to the end of the current room's item list; if there is none,
/// nothing changes and the not-carrying message is the only output.
pub open spec fn spec_drop(s: GameModel, name: Seq<char>) -> StepModel
    recommends
        s.wf(),
{
    let room = s.rooms[s.cur];
    let i = find_item(s.inventory, name);
    if i < s.inventory.len() {
        let it = s.inventory[i];
        let room2 = RoomModel {
            title: room.title,
            description: room.description,
            items: room.items.push(it),
            exits: room.exits,
        };
        StepModel {
            state: GameModel {
                rooms: s.rooms.update(s.cur, room2),
                inventory: s.inventory.remove(i),
                cur: s.cur,
            },
            lines: seq![drop_message(it.description)],
            quit: false,
        }
    } else {
        StepModel { state: s, lines: seq![not_carrying_message(name)], quit: false }
    }
}

/// Meaning of `east` or `west`: if the current room has an exit of that
/// name, the session moves to its target room and presents it; otherwise
/// nothing changes and the no-exit message is the only output.
pub open spec fn spec_go(s: GameModel, d: Direction) -> StepModel
    recommends
        s.wf(),
{
    let exits = s.rooms[s.cur].exits;
    let i = find_exit(exits, d.name());
    if i < exits.len() {
        let t = exits[i].target;
        StepModel {
            state: GameModel { rooms: s.rooms, inventory: s.inventory, cur: t },
            lines: room_lines(s.rooms[t]),
            quit: false,
        }
    } else {
        StepModel { state: s, lines: seq![no_exit_message()], quit: false }
    }
}

/// The full meaning of one command against a session state.
pub open spec fn spec_step(s: GameModel, c: CommandModel) -> StepModel
    recommends
        s.wf(),
{
    match c {
        CommandModel::Quit => StepModel { state: s, lines: Seq::empty(), quit: true },
        CommandModel::Look => StepModel {
            state: s,
            lines: room_lines(s.rooms[s.cur]),
            quit: false,
        },
        CommandModel::Inventory => StepModel {
            state: s,
            lines: inventory_lines(s.inventory),
            quit: false,
        },
        CommandModel::Take(name) => spec_take(s, name),
        CommandModel::Drop(name) => spec_drop(s, name),
        CommandModel::Go(d) => spec_go(s, d),
        CommandModel::Unknown => StepModel {
            state: s,
            lines: seq![unknown_message()],
            quit: false,
        },
    }
}

/// A step never breaks well-formedness.
pub proof fn lemma_step_preserves_wf(s: GameModel, c: CommandModel)
    requires
        s.wf(),
    ensures
        spec_step(s, c).state.wf(),
{
    match c {
        CommandModel::Take(name) => {
            let room = s.rooms[s.cur];
            lemma_find_from_props(room.items, name, 0);
        },
        CommandModel::Drop(name) => {
            lemma_find_from_props(s.inventory, name, 0);
        },
        CommandModel::Go(d) => {
            let exits = s.rooms[s.cur].exits;
            lemma_find_exit_from_props(exits, d.name(), 0);
        },
        _ => {},
    }
}

pub proof fn lemma_map_values_push<A, B>(s: Seq<A>, f: spec_fn(A) -> B, v: A)
    ensures
        s.push(v).map_values(f) == s.map_values(f).push(f(v)),
{
    assert(s.push(v).map_values(f) =~= s.map_values(f).push(f(v)));
}

pub proof fn lemma_map_values_remove<A, B>(s: Seq<A>, f: spec_fn(A) -> B, i: int)
    requires
        0 <= i < s.len(),
    ensures
        s.remove(i).map_values(f) == s.map_values(f).remove(i),
{
    assert(s.remove(i).map_values(f) =~= s.map_values(f).remove(i));
}

pub proof fn lemma_map_values_update<A, B>(s: Seq<A>, f: spec_fn(A) -> B, i: int, v: A)
    requires
        0 <= i < s.len(),
    ensures
        s.update(i, v).map_values(f) == s.map_values(f).update(i, f(v)),
{
    assert(s.update(i, v).map_values(f) =~= s.map_values(f).update(i, f(v)));
}

/// A running session: the world, the player, and the current room's index.
pub struct Game {
    pub rooms: Vec<Room>,
    pub player: Player,
    pub cur_room: usize,
}

impl View for Game {
    type V = GameModel;

    open spec fn view(&self) -> GameModel {
        GameModel {
            rooms: rooms_view(self.rooms@),
            inventory: self.player@,
            cur: self.cur_room as int,
        }
    }
}

/// The state a session starts in: the fixed world, the player's starting
/// belongings, and room 0 current.
pub open spec fn initial_state() -> GameModel {
    GameModel {
        rooms: initial_rooms(),
        inventory: seq![(ItemModel { name: "beets"@, description: "a pile of beets"@ })],
        cur: 0,
    }
}

/// What the executable step hands back: the lines to print and whether the
/// session has ended.
pub struct StepOutput {
    pub lines: Vec<String>,
    pub quit: bool,
}

/// Finds the first item of that name, returning the list's length if there
/// is none.
fn find_item_exec(items: &Vec<Item>, name: &str) -> (i: usize)
    ensures
        i == find_item(items@.map_values(|it: Item| it@), name@),
{
    let ghost model = items@.map_values(|it: Item| it@);
    let n = items.len();
    let mut i: usize = 0;
    while i < n
        invariant
            0 <= i <= n,
            n == items@.len(),
            model == items@.map_values(|it: Item| it@),
            find_from(model, name@, 0) == find_from(model, name@, i as int),
        decreases n - i,
    {
        if str_eq(items[i].name.as_str(), name) {
            return i;
        }
        i = i + 1;
    }
    i
}

/// Finds the first exit of that direction name, returning the list's length
/// if there is none.
fn find_exit_exec(exits: &Vec<Exit>, dir: &str) -> (i: usize)
    ensures
        i == find_exit(exits@.map_values(|e: Exit| e@), dir@),
{
    let ghost model = exits@.map_values(|e: Exit| e@);
    let n = exits.len();
    let mut i: usize = 0;
    while i < n
        invariant
            0 <= i <= n,
            n == exits@.len(),
            model == exits@.map_values(|e: Exit| e@),
            find_exit_from(model, dir@, 0) == find_exit_from(model, dir@, i as int),
        decreases n - i,
    {
        if str_eq(exits[i].direction.as_str(), dir) {
            return i;
        }
        i = i + 1;
    }
    i
}

impl Game {
    /// Starts a fresh session: the fixed world, the player's starting
    /// belongings (a pile of beets), and room 0 current.
    pub fn new() -> (g: Game)
        ensures
            g@ == initial_state(),
            g@.wf(),
    {
        let rooms = load_rooms();
        let player = Player {
            inventory: vec![
                Item {
                    name: String::from_str("beets"),
                    description: String::from_str("a pile of beets"),
                },
            ],
        };
        let g = Game { rooms, player, cur_room: 0 };
        proof {
            assert(g@ =~~= initial_state());
            crate::world::lemma_initial_rooms_valid();
        }
        g
    }

    /// The lines that present the current room, as shown at the start of a
    /// session and after `look` or a move.
    pub fn look(&self) -> (out: Vec<String>)
        requires
            self@.wf(),
        ensures
            lines_view(out@) == room_lines(self@.rooms[self@.cur]),
    {
        render_room(&self.rooms[self.cur_room])
    }

    /// Runs one command against the session: mutates the state and returns
    /// the lines to print, exactly as [`spec_step`] says.
    pub fn step(&mut self, cmd: &Command) -> (out: StepOutput)
        requires
            old(self)@.wf(),
        ensures
            final(self)@ == spec_step(old(self)@, cmd@).state,
            lines_view(out.lines@) == spec_step(old(self)@, cmd@).lines,
            out.quit == spec_step(old(self)@, cmd@).quit,
            final(self)@.wf(),
    {
        proof {
            lemma_step_preserves_wf(old(self)@, cmd@);
        }
        match cmd {
            Command::Quit => StepOutput { lines: Vec::new(), quit: true },
            Command::Look => StepOutput {
                lines: render_room(&self.rooms[self.cur_room]),
                quit: false,
            },
            Command::Inventory => StepOutput { lines: render_inventory(&self.player), quit: false },
            Command::Take(name) => self.do_take(name),
            Command::Drop(name) => self.do_drop(name),
            Command::Go(d) => self.do_go(*d),
            Command::Unknown => {
                let mut lines: Vec<String> = Vec::new();
                lines.push(String::from_str("I don't understand."));
                proof {
                    assert(lines_view(lines@) =~= seq![unknown_message()]);
                }
                StepOutput { lines, quit: false }
            },
        }
    }

    fn do_take(&mut self, name: &String) -> (out: StepOutput)
        requires
            old(self)@.wf(),
        ensures
            final(self)@ == spec_take(old(self)@, name@).state,
            lines_view(out.lines@) == spec_take(old(self)@, name@).lines,
            out.quit == spec_take(old(self)@, name@).quit,
    {
        let ghost s0 = self@;
        let cur = self.cur_room;
        let idx = find_item_exec(&self.rooms[cur].items, name.as_str());
        if idx < self.rooms[cur].items.len() {
            let room = &mut self.rooms[cur];
            let ghost items_before = room.items@;
            let it = room.items.remove(idx);
            proof {
                lemma_map_values_remove(items_before, |x: Item| x@, idx as int);
            }
            let msg = join3("You take ", it.description.as_str(), "");
            self.player.inventory.push(it);
            let mut lines: Vec<String> = Vec::new();
            lines.push(msg);
            proof {
                reveal_strlit("");
                lemma_map_values_push(old(self).player.inventory@, |x: Item| x@, it);
                lemma_map_values_update(
                    old(self).rooms@,
                    |r: Room| r@,
                    cur as int,
                    self.rooms[cur as int],
                );
                assert(self@ =~~= spec_take(s0, name@).state);
                assert(lines_view(lines@) =~~= spec_take(s0, name@).lines);
            }
            StepOutput { lines, quit: false }
        } else {
            let msg = join3("You don't see a ", name.as_str(), " here");
            let mut lines: Vec<String> = Vec::new();
            lines.push(msg);
            proof {
                assert(lines_view(lines@) =~~= spec_take(s0, name@).lines);
            }
            StepOutput { lines, quit: false }
        }
    }

    fn do_drop(&mut self, name: &String) -> (out: StepOutput)
        requires
            old(self)@.wf(),
        ensures
            final(self)@ == spec_drop(old(self)@, name@).state,
            lines_view(out.lines@) == spec_drop(old(self)@, name@).lines,
            out.quit == spec_drop(old(self)@, name@).quit,
    {
        let ghost s0 = self@;
        let cur = self.cur_room;
        let idx = find_item_exec(&self.player.inventory, name.as_str());
        if idx < self.player.inventory.len() {
            let it = self.player.inventory.remove(idx);
            proof {
                lemma_map_values_remove(old(self).player.inventory@, |x: Item| x@, idx as int);
            }
            let msg = join3("You drop ", it.description.as_str(), "");
            let room = &mut self.rooms[cur];
            let ghost room_before = *room;
            room.items.push(it);
            let mut lines: Vec<String> = Vec::new();
            lines.push(msg);
            proof {
                reveal_strlit("");
                lemma_map_values_push(room_before.items@, |x: Item| x@, it);
                lemma_map_values_update(
                    old(self).rooms@,
                    |r: Room| r@,
                    cur as int,
                    self.rooms[cur as int],
                );
                assert(self@ =~~= spec_drop(s0, name@).state);
                assert(lines_view(lines@) =~~= spec_drop(s0, name@).lines);
            }
            StepOutput { lines, quit: false }
        } else {
            let msg = join3("You are not carrying a ", name.as_str(), "");
            let mut lines: Vec<String> = Vec::new();
            lines.push(msg);
            proof {
                reveal_strlit("");
                assert(lines_view(lines@) =~~= spec_drop(s0, name@).lines);
            }
            StepOutput { lines, quit: false }
        }
    }

    fn do_go(&mut self, d: Direction) -> (out: StepOutput)
        requires
            old(self)@.wf(),
        ensures
            final(self)@ == spec_go(old(self)@, d).state,
            lines_view(out.lines@) == spec_go(old(self)@, d).lines,
            out.quit == spec_go(old(self)@, d).quit,
    {
        let ghost s0 = self@;
        let cur = self.cur_room;
        let dir_str = match d {
            Direction::East => "east",
            Direction::West => "west",
        };
        let idx = find_exit_exec(&self.rooms[cur].exits, dir_str);
        if idx < self.rooms[cur].exits.len() {
            proof {
                lemma_find_exit_from_props(s0.rooms[s0.cur].exits, d.name(), 0);
                assert(crate::world::room_exits_valid(s0.rooms[s0.cur], s0.rooms.len() as int));
                assert(0 <= s0.rooms[s0.cur].exits[idx as int].target < s0.rooms.len());
            }
            let target = self.rooms[cur].exits[idx].target;
            self.cur_room = target;
            let lines = render_room(&self.rooms[target]);
            proof {
                assert(self@ =~~= spec_go(s0, d).state);
            }
            StepOutput { lines, quit: false }
        } else {
            let mut lines: Vec<String> = Vec::new();
            lines.push(String::from_str("You cannot go that way"));
            proof {
                assert(lines_view(lines@) =~~= spec_go(s0, d).lines);
            }
            StepOutput { lines, quit: false }
        }
    }
}

} // verus!
