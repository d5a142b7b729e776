use vstd::prelude::*;
use crate::error::GameError;
use crate::util::str_eq;
use crate::util::u32_to_string;
use crate::util::spec_u32_string;

verus! {

/// The four isometric directions the player sprite can face.
#[derive(Debug, Clone, Copy, PartialEq, Eq, Structural)]
pub enum PlayerFacing {
    UpRight,
    UpLeft,
    DownRight,
    DownLeft,
}

/// The part of the player that gameplay decisions read and write. Position
/// and rotation are continuous render-side quantities and live with the
/// platform layer; the core only steers facing and sprinting.
#[derive(Debug, Clone, Copy, PartialEq, Eq, Structural)]
pub struct Player {
    pub sprinting: bool,
    pub facing: PlayerFacing,
}

impl Player {
    pub fn new() -> (r: Self)
        ensures
            r.sprinting == false,
            r.facing == PlayerFacing::UpRight,
    {
        Player { sprinting: false, facing: PlayerFacing::UpRight }
    }
}

/// A dynamically typed attribute value on an interactable entity.
#[derive(Debug, Clone)]
pub enum InteractableAttribute {
    Int(i32),
    UInt(u32),
    Text(String),
    Bool(bool),
}

/// The closed set of interactable entity kinds. `Rock` opens the rock-mining
/// overlay when interacted with; `ExampleRock` opens the example
/// rock-breaking mini-game.
#[derive(Debug, Clone, Copy, PartialEq, Eq, Structural)]
pub enum InteractableKind {
    Rock,
    ExampleRock,
}

/// An entity in the world that the player can interact with. Sprite,
/// position and animation state are render-side; the core reads and writes
/// the identity, the kind and the click-count attribute.
#[derive(Debug, Clone)]
pub struct Interactable {
    pub id: u32,
    pub name: String,
    pub kind: InteractableKind,
    pub clicks: u32,
}

impl Interactable {
    pub fn new(id: u32, name: String, kind: InteractableKind) -> (r: Self)
        ensures
            r.id == id,
            r.name@ == name@,
            r.kind == kind,
            r.clicks == 0,
    {
        Interactable { id, name, kind, clicks: 0 }
    }

    pub fn get_id(&self) -> (r: u32)
        ensures
            r == self.id,
    {
        self.id
    }

    pub fn get_name(&self) -> (r: String)
        ensures
            r@ == self.name@,
    {
        self.name.clone()
    }

    /// Reads an attribute by name; the only attribute an interactable
    /// carries is its click count.
    pub fn get_attribute(&self, attribute: &str) -> (r: Option<InteractableAttribute>)
        ensures
            attribute@ == "clicks"@ ==> r == Some(InteractableAttribute::UInt(self.clicks)),
            attribute@ != "clicks"@ ==> r is None,
    {
        if str_eq(attribute, "clicks") {
            Some(InteractableAttribute::UInt(self.clicks))
        } else {
            None
        }
    }

    /// What interacting with this entity does: a rock opens the mining
    /// overlay on itself; an example rock opens the example mini-game.
    pub fn interact(&self) -> (r: Result<crate::gamestate::GameStateAction, GameError>)
        ensures
            r == Ok::<crate::gamestate::GameStateAction, GameError>(
                crate::gamestate::spec_interact(*self),
            ),
    {
        match self.kind {
            InteractableKind::Rock => match crate::overlay::MineRock::new(self.id) {
                Ok(m) => Ok(
                    crate::gamestate::GameStateAction::SpawnOverlay(
                        crate::overlay::Overlay::MineRock(*m),
                    ),
                ),
                Err(e) => {
                    proof {
                        assert(false);
                    }
                    Err(e)
                },
            },
            InteractableKind::ExampleRock => match crate::overlay::ExampleRockBreakGameGS::new(
                self.id,
            ) {
                Ok(g) => Ok(
                    crate::gamestate::GameStateAction::PushTopState(
                        crate::overlay::Overlay::RockBreak(*g),
                    ),
                ),
                Err(e) => {
                    proof {
                        assert(false);
                    }
                    Err(e)
                },
            },
        }
    }

    /// Writes an attribute by name. Only the click count exists, and it only
    /// accepts an unsigned value; anything else is rejected with a message.
    pub fn set_attribute(&mut self, attribute: &str, value: InteractableAttribute) -> (r: Result<
        (),
        String,
    >)
        ensures
            attribute@ == "clicks"@ ==> (value matches InteractableAttribute::UInt(v) ==> r is Ok
                && *final(self) == (Interactable { clicks: v, ..*old(self) })),
            attribute@ == "clicks"@ && !(value is UInt) ==> (r matches Err(m) && *final(self)
                == *old(self) && m@ == "Invalid type for attribute "@ + attribute@
                + ": expected UInt"@),
            attribute@ != "clicks"@ ==> (r matches Err(m) && *final(self) == *old(self) && m@
                == "Unknown attribute: "@ + attribute@),
    {
        if str_eq(attribute, "clicks") {
            if let InteractableAttribute::UInt(v) = value {
                self.clicks = v;
                Ok(())
            } else {
                let mut m = "Invalid type for attribute ".to_owned();
                m.append(attribute);
                m.append(": expected UInt");
                Err(m)
            }
        } else {
            let mut m = "Unknown attribute: ".to_owned();
            m.append(attribute);
            Err(m)
        }
    }
}

/// `i` is the position of the first interactable with identity `id` in `s`.
pub open spec fn is_first_match(s: Seq<Interactable>, id: u32, i: int) -> bool {
    &&& 0 <= i < s.len()
    &&& s[i].id == id
    &&& forall|j: int| 0 <= j < i ==> (#[trigger] s[j]).id != id
}

/// Some interactable in `s` has identity `id`.
pub open spec fn has_interactable(s: Seq<Interactable>, id: u32) -> bool {
    exists|i: int| 0 <= i < s.len() && (#[trigger] s[i]).id == id
}

/// The position of the first interactable with identity `id`.
pub open spec fn spec_first_index(s: Seq<Interactable>, id: u32) -> int {
    choose|i: int| is_first_match(s, id, i)
}

/// The first interactable with identity `id`.
pub open spec fn spec_found(s: Seq<Interactable>, id: u32) -> Interactable {
    s[spec_first_index(s, id)]
}

/// At most one position is the first match for an identity.
pub proof fn lemma_first_match_unique(s: Seq<Interactable>, id: u32, i: int, j: int)
    requires
        is_first_match(s, id, i),
        is_first_match(s, id, j),
    ensures
        i == j,
{
    if i < j {
        assert(s[i].id != id);
    } else if j < i {
        assert(s[j].id != id);
    }
}

/// `s` with every interactable of identity `id` removed, order kept.
pub open spec fn spec_remove_id(s: Seq<Interactable>, id: u32) -> Seq<Interactable>
    decreases s.len(),
{
    if s.len() == 0 {
        Seq::empty()
    } else if s[0].id == id {
        spec_remove_id(s.drop_first(), id)
    } else {
        seq![s[0]] + spec_remove_id(s.drop_first(), id)
    }
}

/// The position of the first interactable with identity `id` in `v`.
pub(crate) fn find_interactable_in(v: &Vec<Interactable>, id: u32) -> (r: Option<usize>)
    ensures
        match r {
            Some(i) => is_first_match(v@, id, i as int),
            None => !has_interactable(v@, id),
        },
{
    let mut i: usize = 0;
    while i < v.len()
        invariant
            0 <= i <= v@.len(),
            forall|j: int| 0 <= j < i ==> (#[trigger] v@[j]).id != id,
        decreases v@.len() - i,
    {
        if v[i].id == id {
            return Some(i);
        }
        i += 1;
    }
    proof {
        assert(!has_interactable(v@, id)) by {
            if has_interactable(v@, id) {
                let j = choose|j: int| 0 <= j < v@.len() && (#[trigger] v@[j]).id == id;
                assert(v@[j].id != id);
            }
        }
    }
    None
}

/// The world as the core sees it: the player and the keyed collection of
/// interactable entities. The orchestration logic threads it through to
/// states and overlays and never branches on render-side content.
#[derive(Debug)]
pub struct World {
    pub player: Player,
    pub interactables: Vec<Interactable>,
}

impl World {
    /// A fresh world: a default player and five rock piles, keyed 0 to 4.
    /// Where each rock lands on screen is the platform layer's concern.
    pub fn new() -> (r: Self)
        ensures
            r.player.sprinting == false,
            r.player.facing == PlayerFacing::UpRight,
            r.interactables@.len() == 5,
            forall|i: int|
                0 <= i < 5 ==> (#[trigger] r.interactables@[i]).id as int == i
                    && r.interactables@[i].name@ == "Rock Pile"@ && r.interactables@[i].kind
                    == InteractableKind::Rock && r.interactables@[i].clicks == 0,
    {
        let mut interactables: Vec<Interactable> = Vec::new();
        let mut x: u32 = 0;
        while x < 5
            invariant
                0 <= x <= 5,
                interactables@.len() == x,
                forall|i: int|
                    0 <= i < x ==> (#[trigger] interactables@[i]).id as int == i
                        && interactables@[i].name@ == "Rock Pile"@ && interactables@[i].kind
                        == InteractableKind::Rock && interactables@[i].clicks == 0,
            decreases 5 - x,
        {
            interactables.push(
                Interactable::new(x, "Rock Pile".to_owned(), InteractableKind::Rock),
            );
            x += 1;
        }
        World { player: Player::new(), interactables }
    }

    /// The position of the first interactable with identity `id`, if any.
    pub fn find_interactable(&self, id: u32) -> (r: Option<usize>)
        ensures
            match r {
                Some(i) => is_first_match(self.interactables@, id, i as int),
                None => !has_interactable(self.interactables@, id),
            },
    {
        find_interactable_in(&self.interactables, id)
    }

    /// The first interactable with identity `id`, if any.
    pub fn get_interactable_by_id(&self, id: u32) -> (r: Option<&Interactable>)
        ensures
            match r {
                Some(x) => has_interactable(self.interactables@, id) && *x == spec_found(
                    self.interactables@,
                    id,
                ),
                None => !has_interactable(self.interactables@, id),
            },
    {
        match self.find_interactable(id) {
            Some(i) => {
                proof {
                    lemma_first_match_unique(
                        self.interactables@,
                        id,
                        i as int,
                        spec_first_index(self.interactables@, id),
                    );
                }
                Some(&self.interactables[i])
            },
            None => None,
        }
    }

    /// Removes every interactable with identity `id`; an unknown identity is
    /// reported with a message and leaves the world unchanged.
    pub fn break_interactable(&mut self, id: u32) -> (r: Result<(), String>)
        ensures
            final(self).player == old(self).player,
            has_interactable(old(self).interactables@, id) ==> r is Ok
                && final(self).interactables@ == spec_remove_id(old(self).interactables@, id),
            !has_interactable(old(self).interactables@, id) ==> (r matches Err(m)
                && final(self).interactables@ == old(self).interactables@ && m@
                == "Failed to find interactable with id: "@ + spec_u32_string(id as nat)),
    {
        let found = self.find_interactable(id);
        match found {
            Some(_) => {
                let ghost orig = self.interactables@;
                let mut i: usize = 0;
                proof {
                    assert(orig.skip(0) =~= orig);
                    assert(orig.take(0) + spec_remove_id(orig, id) =~= spec_remove_id(orig, id));
                }
                while i < self.interactables.len()
                    invariant
                        0 <= i <= self.interactables@.len(),
                        orig == old(self).interactables@,
                        self.player == old(self).player,
                        spec_remove_id(orig, id) == self.interactables@.take(i as int)
                            + spec_remove_id(self.interactables@.skip(i as int), id),
                        forall|j: int|
                            0 <= j < i ==> (#[trigger] self.interactables@[j]).id != id,
                    decreases self.interactables@.len() - i,
                {
                    let ghost cur = self.interactables@;
                    let ghost rest = cur.skip(i as int);
                    if self.interactables[i].id == id {
                        self.interactables.remove(i);
                        proof {
                            assert(rest[0] == cur[i as int]);
                            assert(self.interactables@ =~= cur.remove(i as int));
                            assert(self.interactables@.take(i as int) =~= cur.take(i as int));
                            assert(self.interactables@.skip(i as int) =~= rest.drop_first());
                        }
                    } else {
                        proof {
                            assert(rest[0] == cur[i as int]);
                            assert(rest.drop_first() =~= cur.skip(i + 1));
                            assert(cur.take(i + 1) =~= cur.take(i as int) + seq![cur[i as int]]);
                            assert((cur.take(i as int) + seq![rest[0]]) + spec_remove_id(
                                rest.drop_first(),
                                id,
                            ) =~= cur.take(i as int) + (seq![rest[0]] + spec_remove_id(
                                rest.drop_first(),
                                id,
                            )));
                        }
                        i += 1;
                    }
                }
                proof {
                    let ghost fin = self.interactables@;
                    assert(fin.skip(fin.len() as int) =~= Seq::<Interactable>::empty());
                    assert(fin.take(fin.len() as int) =~= fin);
                    assert(fin + Seq::<Interactable>::empty() =~= fin);
                }
                Ok(())
            },
            None => {
                let mut m = "Failed to find interactable with id: ".to_owned();
                let digits = u32_to_string(id);
                m.append(digits.as_str());
                Err(m)
            },
        }
    }

    /// Adds an interactable at the top of the collection.
    pub fn add_interactable(&mut self, interactable: Interactable)
        ensures
            final(self).player == old(self).player,
            final(self).interactables@ == old(self).interactables@.push(interactable),
    {
        self.interactables.push(interactable);
    }
}

} // verus!
