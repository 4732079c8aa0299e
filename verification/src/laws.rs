//! The library's laws: proofs, against [`spec_step`] alone, of how commands
//! treat the session state.

use crate::game::{
    find_item, has_exit, has_item, lemma_find_from_props, spec_step, GameModel, StepModel,
};
use crate::parse::{CommandModel, Direction};
use crate::render::{
    inventory_lines, no_exit_message, not_found_message, unknown_message,
};
use crate::world::{ItemModel, RoomModel};
use vstd::prelude::*;
use vstd::seq_lib::group_to_multiset_ensures;

verus! {

/// `take` of a name the current room does not hold leaves the whole state
/// unchanged; the not-found message is the only output.
pub proof fn lemma_take_missing_unchanged(s: GameModel, name: Seq<char>)
    requires
        s.wf(),
        !has_item(s.rooms[s.cur].items, name),
    ensures
        spec_step(s, CommandModel::Take(name)) == (StepModel {
            state: s,
            lines: seq![not_found_message(name)],
            quit: false,
        }),
{
    lemma_find_from_props(s.rooms[s.cur].items, name, 0);
}

/// Helper: in an inventory free of `name`, the first match after pushing an
/// item of that name is the pushed item itself.
proof fn lemma_find_in_pushed(inv: Seq<ItemModel>, name: Seq<char>, it: ItemModel)
    requires
        !has_item(inv, name),
        it.name == name,
    ensures
        find_item(inv.push(it), name) == inv.len(),
{
    let pushed = inv.push(it);
    lemma_find_from_props(inv, name, 0);
    lemma_find_from_props(pushed, name, 0);
    let f = find_item(pushed, name);
    if f < inv.len() {
        assert(pushed[f] == inv[f]);
        assert(inv[f].name != name);
        assert(false);
    }
    if f > inv.len() {
        assert(pushed[inv.len() as int].name == name);
        assert(false);
    }
}

/// Taking an item and dropping it again restores the inventory exactly and
/// the current room's item list up to order: the taken item leaves its
/// place and comes back appended at the end, so the room holds the same
/// items as before. Holds whenever the room has an item of that name and
/// the inventory does not already hold one.
pub proof fn lemma_take_drop_round_trip(s: GameModel, name: Seq<char>)
    requires
        s.wf(),
        has_item(s.rooms[s.cur].items, name),
        !has_item(s.inventory, name),
    ensures
        ({
            let room = s.rooms[s.cur];
            let i = find_item(room.items, name);
            let it = room.items[i];
            let after = spec_step(
                spec_step(s, CommandModel::Take(name)).state,
                CommandModel::Drop(name),
            ).state;
            &&& after.cur == s.cur
            &&& after.inventory == s.inventory
            &&& after.rooms == s.rooms.update(
                s.cur,
                (RoomModel {
                    title: room.title,
                    description: room.description,
                    items: room.items.remove(i).push(it),
                    exits: room.exits,
                }),
            )
            &&& after.rooms[s.cur].items.to_multiset() == room.items.to_multiset()
        }),
{
    broadcast use group_to_multiset_ensures;

    let room = s.rooms[s.cur];
    let i = find_item(room.items, name);
    let it = room.items[i];
    lemma_find_from_props(room.items, name, 0);
    let t = spec_step(s, CommandModel::Take(name)).state;
    assert(t.inventory == s.inventory.push(it));
    lemma_find_in_pushed(s.inventory, name, it);
    let after = spec_step(t, CommandModel::Drop(name)).state;
    assert(after.inventory =~= s.inventory);
    assert(after.rooms =~~= s.rooms.update(
        s.cur,
        (RoomModel {
            title: room.title,
            description: room.description,
            items: room.items.remove(i).push(it),
            exits: room.exits,
        }),
    ));
    assert(room.items.contains(it));
    assert(room.items.to_multiset().count(it) > 0);
    assert(room.items.remove(i).push(it).to_multiset() =~= room.items.to_multiset());
}

/// With an empty inventory, `inventory` prints the single empty-inventory
/// message; after a successful `take`, it lists the taken item's name as
/// its last line.
pub proof fn lemma_inventory_after_take(s: GameModel, name: Seq<char>)
    requires
        s.wf(),
        has_item(s.rooms[s.cur].items, name),
    ensures
        ({
            let t = spec_step(s, CommandModel::Take(name)).state;
            let lines = spec_step(t, CommandModel::Inventory).lines;
            &&& spec_step(t, CommandModel::Inventory).state == t
            &&& lines.len() == s.inventory.len() + 2
            &&& lines.last() == name
            &&& lines.contains(name)
        }),
{
    let room = s.rooms[s.cur];
    lemma_find_from_props(room.items, name, 0);
    let t = spec_step(s, CommandModel::Take(name)).state;
    let lines = spec_step(t, CommandModel::Inventory).lines;
    assert(t.inventory.len() == s.inventory.len() + 1);
    assert(lines.last() == name);
    assert(lines[lines.len() - 1] == name);
}

/// An empty inventory renders as the single empty-inventory message.
pub proof fn lemma_inventory_empty(inv: Seq<ItemModel>)
    requires
        inv.len() == 0,
    ensures
        inventory_lines(inv) == seq!["You are not carrying anything"@],
{
}

/// `quit`, and only by saying nothing more: the state stands, no line is
/// printed, and the session is over.
pub proof fn lemma_quit_terminates(s: GameModel)
    ensures
        spec_step(s, CommandModel::Quit) == (StepModel {
            state: s,
            lines: Seq::<Seq<char>>::empty(),
            quit: true,
        }),
{
}

/// A direction with no exit from the current room changes nothing; the
/// no-exit message is the only output.
pub proof fn lemma_go_no_exit_unchanged(s: GameModel, d: Direction)
    requires
        s.wf(),
        !has_exit(s.rooms[s.cur].exits, d.name()),
    ensures
        spec_step(s, CommandModel::Go(d)) == (StepModel {
            state: s,
            lines: seq![no_exit_message()],
            quit: false,
        }),
{
    crate::game::lemma_find_exit_from_props(s.rooms[s.cur].exits, d.name(), 0);
}

/// An unrecognised command never changes the rooms, the inventory or the
/// current room; it only prints the don't-understand message.
pub proof fn lemma_unknown_unchanged(s: GameModel)
    ensures
        spec_step(s, CommandModel::Unknown) == (StepModel {
            state: s,
            lines: seq![unknown_message()],
            quit: false,
        }),
{
}

} // verus!
