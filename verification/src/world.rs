//! The entity model: items, rooms with exits, the player, and the fixed
//! starting world.

use vstd::prelude::*;
use vstd::string::StringExecFns;

verus! {

/// A named, described unit of game content. An item lives in exactly one
/// container at a time: a room's item list or the player's inventory.
pub struct Item {
    pub name: String,
    pub description: String,
}

/// Mathematical value of an [`Item`].
#[verifier::ext_equal]
pub ghost struct ItemModel {
    pub name: Seq<char>,
    pub description: Seq<char>,
}

impl View for Item {
    type V = ItemModel;

    open spec fn view(&self) -> ItemModel {
        ItemModel { name: self.name@, description: self.description@ }
    }
}

/// A directed edge of the world graph: a direction name and the index of the
/// room it leads to.
pub struct Exit {
    pub direction: String,
    pub target: usize,
}

/// Mathematical value of an [`Exit`].
#[verifier::ext_equal]
pub ghost struct ExitModel {
    pub direction: Seq<char>,
    pub target: int,
}

impl View for Exit {
    type V = ExitModel;

    open spec fn view(&self) -> ExitModel {
        ExitModel { direction: self.direction@, target: self.target as int }
    }
}

/// A node of the world graph: descriptive text, the items currently lying
/// here (in display order), and the exits leading out.
pub struct Room {
    pub title: String,
    pub description: String,
    pub items: Vec<Item>,
    pub exits: Vec<Exit>,
}

/// Mathematical value of a [`Room`].
#[verifier::ext_equal]
pub ghost struct RoomModel {
    pub title: Seq<char>,
    pub description: Seq<char>,
    pub items: Seq<ItemModel>,
    pub exits: Seq<ExitModel>,
}

impl View for Room {
    type V = RoomModel;

    open spec fn view(&self) -> RoomModel {
        RoomModel {
            title: self.title@,
            description: self.description@,
            items: self.items@.map_values(|it: Item| it@),
            exits: self.exits@.map_values(|e: Exit| e@),
        }
    }
}

/// The player, owner of a personal inventory.
pub struct Player {
    pub inventory: Vec<Item>,
}

impl View for Player {
    type V = Seq<ItemModel>;

    open spec fn view(&self) -> Seq<ItemModel> {
        self.inventory@.map_values(|it: Item| it@)
    }
}

/// View of a whole room sequence.
pub open spec fn rooms_view(rs: Seq<Room>) -> Seq<RoomModel> {
    rs.map_values(|r: Room| r@)
}

/// Every exit of the room leads to one of `n` rooms.
pub open spec fn room_exits_valid(r: RoomModel, n: int) -> bool {
    forall|i: int| 0 <= i < r.exits.len() ==> 0 <= #[trigger] r.exits[i].target < n
}

/// Reference integrity of a world: no exit dangles.
pub open spec fn world_valid(rooms: Seq<RoomModel>) -> bool {
    forall|i: int|
        0 <= i < rooms.len() ==> room_exits_valid(#[trigger] rooms[i], rooms.len() as int)
}

/// The fixed starting world, as a mathematical value.
pub open spec fn initial_rooms() -> Seq<RoomModel> {
    seq![
        (RoomModel {
            title: "An empty room"@,
            description: "You are in an empty room. How boring."@,
            items: seq![(ItemModel { name: "dagger"@, description: "a small dagger"@ })],
            exits: seq![(ExitModel { direction: "east"@, target: 1 })],
        }),
        (RoomModel {
            title: "A boring room"@,
            description: "You are in a boring room. How empty."@,
            items: seq![
                (ItemModel { name: "apple"@, description: "a rotten apple"@ }),
                (ItemModel { name: "coin"@, description: "a gold coin"@ }),
            ],
            exits: seq![(ExitModel { direction: "west"@, target: 0 })],
        }),
    ]
}

/// Builds the fixed starting world: room 0 ("An empty room") holding a
/// dagger with an exit east to room 1, and room 1 ("A boring room") holding
/// an apple and a coin with an exit west back to room 0.
pub fn load_rooms() -> (r: Vec<Room>)
    ensures
        rooms_view(r@) == initial_rooms(),
{
    let room0 = Room {
        title: String::from_str("An empty room"),
        description: String::from_str("You are in an empty room. How boring."),
        items: vec![
            Item {
                name: String::from_str("dagger"),
                description: String::from_str("a small dagger"),
            },
        ],
        exits: vec![Exit { direction: String::from_str("east"), target: 1 }],
    };
    let room1 = Room {
        title: String::from_str("A boring room"),
        description: String::from_str("You are in a boring room. How empty."),
        items: vec![
            Item {
                name: String::from_str("apple"),
                description: String::from_str("a rotten apple"),
            },
            Item {
                name: String::from_str("coin"),
                description: String::from_str("a gold coin"),
            },
        ],
        exits: vec![Exit { direction: String::from_str("west"), target: 0 }],
    };
    let r = vec![room0, room1];
    proof {
        assert(rooms_view(r@) =~~= initial_rooms());
    }
    r
}

/// The starting world never has a dangling exit.
pub proof fn lemma_initial_rooms_valid()
    ensures
        world_valid(initial_rooms()),
{
    assert forall|i: int| 0 <= i < initial_rooms().len() implies room_exits_valid(
        #[trigger] initial_rooms()[i],
        initial_rooms().len() as int,
    ) by {
        if i == 0 {
            assert(initial_rooms()[0].exits[0].target == 1);
        } else {
            assert(initial_rooms()[1].exits[0].target == 0);
        }
    }
}

} // verus!
