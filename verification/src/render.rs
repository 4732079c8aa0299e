//! Rendering game state and command results to lines of text. The library
//! never prints; it returns the lines, and the surrounding program writes
//! them out one per line.

use crate::world::{ItemModel, Player, Room, RoomModel};
use vstd::prelude::*;
use vstd::string::StringExecFns;

verus! {

/// View of a sequence of output lines.
pub open spec fn lines_view(v: Seq<String>) -> Seq<Seq<char>> {
    v.map_values(|s: String| s@)
}

/// The lines that present a room: its title, a blank line, its description,
/// then the name of each item lying there, in display order.
pub open spec fn room_lines(r: RoomModel) -> Seq<Seq<char>> {
    seq![r.title, Seq::<char>::empty(), r.description] + r.items.map_values(
        |it: ItemModel| it.name,
    )
}

/// The lines that present an inventory: a header and one name per item, or a
/// single message when nothing is carried.
pub open spec fn inventory_lines(inv: Seq<ItemModel>) -> Seq<Seq<char>> {
    if inv.len() > 0 {
        seq!["You are carrying the following items: "@] + inv.map_values(|it: ItemModel| it.name)
    } else {
        seq!["You are not carrying anything"@]
    }
}

/// Reply to a successful `take`.
pub open spec fn take_message(description: Seq<char>) -> Seq<char> {
    "You take "@ + description
}

/// Reply to a `take` of an item the room does not hold.
pub open spec fn not_found_message(name: Seq<char>) -> Seq<char> {
    "You don't see a "@ + name + " here"@
}

/// Reply to a successful `drop`.
pub open spec fn drop_message(description: Seq<char>) -> Seq<char> {
    "You drop "@ + description
}

/// Reply to a `drop` of an item the player does not carry.
pub open spec fn not_carrying_message(name: Seq<char>) -> Seq<char> {
    "You are not carrying a "@ + name
}

/// Reply to a direction with no exit from the current room.
pub open spec fn no_exit_message() -> Seq<char> {
    "You cannot go that way"@
}

/// Reply to a command the dispatcher does not recognise.
pub open spec fn unknown_message() -> Seq<char> {
    "I don't understand."@
}

/// Renders a room to its display lines.
pub fn render_room(r: &Room) -> (out: Vec<String>)
    ensures
        lines_view(out@) == room_lines(r@),
{
    let mut out: Vec<String> = Vec::new();
    out.push(r.title.clone());
    out.push(String::new());
    out.push(r.description.clone());
    let n = r.items.len();
    let mut i: usize = 0;
    while i < n
        invariant
            0 <= i <= n,
            n == r.items@.len(),
            out@.len() == 3 + i,
            lines_view(out@)[0] == r@.title,
            lines_view(out@)[1] == Seq::<char>::empty(),
            lines_view(out@)[2] == r@.description,
            forall|k: int| 0 <= k < i ==> lines_view(out@)[3 + k] == r@.items[k].name,
        decreases n - i,
    {
        out.push(r.items[i].name.clone());
        i = i + 1;
    }
    proof {
        assert(lines_view(out@) =~~= room_lines(r@));
    }
    out
}

/// Renders the player's inventory to its display lines.
pub fn render_inventory(p: &Player) -> (out: Vec<String>)
    ensures
        lines_view(out@) == inventory_lines(p@),
{
    let mut out: Vec<String> = Vec::new();
    if p.inventory.len() > 0 {
        out.push(String::from_str("You are carrying the following items: "));
        let n = p.inventory.len();
        let mut i: usize = 0;
        while i < n
            invariant
                0 <= i <= n,
                n == p.inventory@.len(),
                out@.len() == 1 + i,
                lines_view(out@)[0] == "You are carrying the following items: "@,
                forall|k: int| 0 <= k < i ==> lines_view(out@)[1 + k] == p@[k].name,
            decreases n - i,
        {
            out.push(p.inventory[i].name.clone());
            i = i + 1;
        }
        proof {
            assert(lines_view(out@) =~~= inventory_lines(p@));
        }
    } else {
        out.push(String::from_str("You are not carrying anything"));
        proof {
            assert(lines_view(out@) =~~= inventory_lines(p@));
        }
    }
    out
}

/// Builds `prefix + middle + suffix` as one line.
pub fn join3(prefix: &str, middle: &str, suffix: &str) -> (out: String)
    ensures
        out@ == prefix@ + middle@ + suffix@,
{
    let out = String::from_str(prefix).concat(middle).concat(suffix);
    proof {
        assert(out@ =~= prefix@ + middle@ + suffix@);
    }
    out
}

} // verus!
