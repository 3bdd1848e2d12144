use vstd::prelude::*;
use crate::tag::{Tag, tag3};
use crate::state::{
    canonical, canonical_tag, count_carried, lemma_count_update, here_spec, items_text, look_text, lookup_spec, State, StateView,
};
use crate::world::{
    exit, exit_spec, room_of, Dir, Loc, BOAT_OBJ, FAN, SHOVEL, BOAT_ROOM, BOTTLE, FOREST_EDGE, GARAGE, GLOVES,
    GUARD, GUARDED, LADDER, MAX_INVENTORY, NARROW_HALL, NORTH_BANK, N_ROOMS, OPEN_FIELD, RUBY, SALT,
    SOUTH_BANK, SWORD, TREE_BRANCH, TREE_TOP,
};

verus! {

pub const NOT_HERE: &'static str = "THAT ISN'T HERE!\n";
pub const CANT_GET: &'static str = "YOU CAN'T GET THAT!\n";

/// The state after a command and the text it prints.
pub type Step = (StateView, Seq<&'static str>);

/// `s1` and `out1` are what `r` makes of `s0` and `out0`.
pub open spec fn follows(
    s0: StateView,
    out0: Seq<&'static str>,
    r: Step,
    s1: StateView,
    out1: Seq<&'static str>,
) -> bool {
    s1 == r.0 && out1 =~= out0 + r.1
}

pub open spec fn unchanged(s: StateView, text: Seq<&'static str>) -> Step {
    (s, text)
}

pub open spec fn with_pos(s: StateView, i: usize, l: Loc) -> StateView {
    StateView { positions: s.positions.update(i as int, l), ..s }
}

pub open spec fn moved(s: StateView, r: u8) -> StateView {
    StateView { here: r, ..s }
}

/// The player walks to `r` and sees the room.
pub open spec fn arrive(s: StateView, r: u8) -> Step {
    (moved(s, r), look_text(moved(s, r)))
}

pub open spec fn go_spec(s: StateView, d: Dir) -> Step {
    let dest = exit_spec(s.here, d);
    if 0 < dest < N_ROOMS {
        arrive(s, dest)
    } else if dest == GUARDED {
        if s.pos(GUARD) != Loc::Unrevealed {
            unchanged(s, seq!["THE GUARD WON'T LET YOU!\n"])
        } else {
            arrive(s, NARROW_HALL)
        }
    } else {
        unchanged(s, seq!["YOU CAN'T GO THERE!\n"])
    }
}

pub open spec fn pick_up_spec(s: StateView, t: Tag) -> Step {
    match lookup_spec(s, t) {
        None => unchanged(s, seq![CANT_GET]),
        Some((id, l)) => if l == Loc::Carried {
            unchanged(s, seq!["YOU ALREADY HAVE IT!\n"])
        } else if l is Fixed {
            unchanged(s, seq![CANT_GET])
        } else if l != Loc::InRoom(s.here) {
            unchanged(s, seq![NOT_HERE])
        } else if t == tag3('R', 'U', 'B') {
            (StateView { won: true, ..s }, seq![])
        } else if count_carried(s.positions) >= MAX_INVENTORY {
            unchanged(s, seq!["YOU CAN'T CARRY ANY MORE.\n"])
        } else {
            (with_pos(s, id, Loc::Carried), seq!["TAKEN.\n"])
        },
    }
}

pub open spec fn drop_spec(s: StateView, t: Tag) -> Step {
    match lookup_spec(s, t) {
        Some((id, Loc::Carried)) => (with_pos(s, id, Loc::InRoom(s.here)), seq!["DROPPED.\n"]),
        _ => unchanged(s, seq!["YOU DON'T HAVE THAT!\n"]),
    }
}

pub open spec fn examine_text(s: StateView, t: Tag) -> Seq<&'static str> {
    let c = canonical(t);
    if c == tag3('G', 'R', 'O') {
        if s.here != OPEN_FIELD {
            seq!["IT LOOKS LIKE GROUND!\n"]
        } else if s.pos(SWORD) == Loc::Unrevealed {
            seq!["IT LOOKS LIKE SOMETHING'S BURIED HERE.\n"]
        } else {
            seq!["THERE'S A HOLE HERE.\n"]
        }
    } else if here_spec(s, t) {
        if c == tag3('B', 'O', 'T') {
            seq!["THERE'S SOMETHING WRITTEN ON IT!\n"]
        } else if c == tag3('C', 'A', 'S') {
            seq!["THERE'S A JEWEL INSIDE!\n"]
        } else if c == tag3('B', 'A', 'R') {
            seq!["IT'S FILLED WITH RAINWATER.\n"]
        } else {
            seq!["YOU SEE NOTHING UNUSUAL.\n"]
        }
    } else {
        seq![NOT_HERE]
    }
}

/// Reveals hidden object `i` in the player's room and lists the room.
pub open spec fn unearth(s: StateView, i: usize, text: Seq<&'static str>) -> Step {
    let s2 = with_pos(s, i, Loc::InRoom(s.here));
    (s2, text + items_text(s2))
}

pub open spec fn open_spec(s: StateView, t: Tag) -> Step {
    if !here_spec(s, t) {
        unchanged(s, seq![NOT_HERE])
    } else if t == tag3('B', 'O', 'X') {
        if s.pos(BOTTLE) == Loc::Unrevealed {
            unearth(s, BOTTLE, seq!["SOMETHING FELL OUT!\n"])
        } else {
            unchanged(s, seq!["THE BOX IS ALREADY OPEN.\n"])
        }
    } else if t == tag3('C', 'A', 'B') {
        if s.pos(SALT) == Loc::Unrevealed {
            unearth(s, SALT, seq!["THERE'S SOMETHING INSIDE!\n"])
        } else {
            unchanged(s, seq!["THE CABINET IS ALREADY OPEN.\n"])
        }
    } else if t == tag3('C', 'A', 'S') {
        if s.pos(RUBY) != Loc::Unrevealed {
            unchanged(s, seq!["THE CASE IS ALREADY OPEN.\n"])
        } else if s.gloved {
            unearth(
                s,
                RUBY,
                seq!["THE GLOVES INSULATE AGAINST THE\n", "ELECTRICITY! THE CASE OPENS!\n"],
            )
        } else {
            unchanged(s, seq!["THE CASE IS ELECTRIFIED!\n"])
        }
    } else {
        unchanged(s, seq!["YOU CAN'T OPEN THAT!\n"])
    }
}

pub open spec fn read_text(s: StateView, t: Tag) -> Seq<&'static str> {
    let c = canonical(t);
    if !here_spec(s, t) {
        seq![NOT_HERE]
    } else if c == tag3('D', 'I', 'A') {
        seq![
            "IT SAYS: 'ADD SODIUM CHLORIDE PLUS THE\n",
            "FORMULA TO RAINWATER, TO REACH THE\n",
            "OTHER WORLD.'\n",
        ]
    } else if c == tag3('D', 'I', 'C') {
        seq!["IT SAYS: SODIUM CHLORIDE IS\n", "COMMON TABLE SALT.\n"]
    } else if c == tag3('B', 'O', 'T') {
        seq!["IT READS: 'SECRET FORMULA'.\n"]
    } else {
        seq!["YOU CAN'T READ THAT!\n"]
    }
}

pub open spec fn explosion_text() -> Seq<&'static str> {
    seq![
        "THERE IS AN EXPLOSION!\n",
        "EVERYTHING GOES BLACK!\n",
        "SUDDENLY YOU ARE. . .\n",
        ". . .SOMEWHERE ELSE!\n",
    ]
}

/// Something has just gone into the barrel; with both in, the player is carried off.
pub open spec fn barrel_spec(s: StateView) -> Step {
    if s.salted && s.formulated {
        (moved(s, OPEN_FIELD), seq!["POURED!\n"] + explosion_text() + look_text(moved(s, OPEN_FIELD)))
    } else {
        unchanged(s, seq!["POURED!\n"])
    }
}

pub open spec fn pour_spec(s: StateView, t: Tag) -> Step {
    let c = canonical(t);
    if !here_spec(s, t) {
        unchanged(s, seq![NOT_HERE])
    } else if c == tag3('S', 'A', 'L') && s.salted {
        unchanged(s, seq!["THE SALT SHAKER IS EMPTY.\n"])
    } else if c == tag3('S', 'A', 'L') && s.here == GARAGE {
        barrel_spec(StateView { salted: true, ..s })
    } else if c == tag3('B', 'O', 'T') && s.formulated {
        unchanged(s, seq!["THE BOTTLE IS EMPTY.\n"])
    } else if c == tag3('B', 'O', 'T') && s.here == GARAGE {
        barrel_spec(StateView { formulated: true, ..s })
    } else {
        unchanged(s, seq!["YOU CAN'T POUR THAT!\n"])
    }
}

pub open spec fn climb_spec(s: StateView, t: Tag) -> Step {
    if t == tag3('T', 'R', 'E') && here_spec(s, tag3('T', 'R', 'E')) {
        unchanged(s, seq!["YOU CAN'T REACH THE BRANCHES!\n"])
    } else if t == tag3('L', 'A', 'D') && s.pos(LADDER) == Loc::Carried {
        if s.here == FOREST_EDGE {
            (
                with_pos(s, LADDER, Loc::Unrevealed),
                seq!["THE LADDER SINKS UNDER YOUR WEIGHT!\n", "IT DISAPPEARS INTO THE GROUND!\n"],
            )
        } else {
            unchanged(s, seq!["WHATEVER FOR?\n"])
        }
    } else {
        unchanged(s, seq!["IT WON'T DO ANY GOOD.\n"])
    }
}

pub open spec fn jump_spec(s: StateView) -> Step {
    if s.here == FOREST_EDGE {
        let r = arrive(s, TREE_BRANCH);
        (r.0, seq!["YOU GRAB THE LOWEST BRANCH OF THE\n", "TREE AND PULL YOURSELF UP. . . .\n"] + r.1)
    } else if s.here == TREE_BRANCH {
        let r = arrive(s, TREE_TOP);
        (r.0, seq!["YOU GRAB A HIGHER BRANCH OF THE\n", "TREE AND PULL YOURSELF UP. . . .\n"] + r.1)
    } else {
        unchanged(s, seq!["WHEE! THAT WAS FUN!\n"])
    }
}

pub open spec fn dig_spec(s: StateView, t: Tag) -> Step {
    if t != tag3('G', 'R', 'O') && t != tag3('H', 'O', 'L') {
        unchanged(s, seq!["YOU CAN'T DIG THAT!\n"])
    } else if s.pos(SHOVEL) != Loc::Carried {
        unchanged(s, seq!["YOU DON'T HAVE A SHOVEL!\n"])
    } else if s.here != OPEN_FIELD {
        unchanged(s, seq!["YOU DON'T FIND ANYTHING.\n"])
    } else if s.pos(SWORD) != Loc::Unrevealed {
        unchanged(s, seq!["THERE'S NOTHING ELSE THERE!\n"])
    } else {
        unearth(s, SWORD, seq!["THERE'S SOMETHING THERE!\n"])
    }
}

pub open spec fn row_text(s: StateView) -> Seq<&'static str> {
    if s.here != BOAT_ROOM {
        seq!["YOU'RE NOT IN A BOAT!\n"]
    } else {
        seq!["YOU DON'T HAVE AN OAR!\n"]
    }
}

/// The bank the boat is not moored at.
pub open spec fn other_bank(l: Loc) -> Loc {
    if l == Loc::Fixed(SOUTH_BANK) {
        Loc::Fixed(NORTH_BANK)
    } else {
        Loc::Fixed(SOUTH_BANK)
    }
}

pub open spec fn wave_spec(s: StateView, t: Tag) -> Step {
    if t != tag3('F', 'A', 'N') {
        unchanged(s, seq!["YOU CAN'T WAVE THAT!\n"])
    } else if s.pos(FAN) != Loc::Carried {
        unchanged(s, seq!["YOU DON'T HAVE A FAN!\n"])
    } else if s.here != BOAT_ROOM {
        unchanged(s, seq!["YOU FEEL A REFRESHING BREEZE!\n"])
    } else {
        (
            with_pos(s, BOAT_OBJ, other_bank(s.pos(BOAT_OBJ))),
            seq!["A POWERFUL BREEZE PROPELS THE BOAT\n", "TO THE OPPOSITE SHORE!\n"],
        )
    }
}

/// The bank the boat is moored at.
pub open spec fn moorage(s: StateView) -> u8 {
    match room_of(s.pos(BOAT_OBJ)) {
        Some(r) => r,
        None => BOAT_ROOM,
    }
}

pub open spec fn leave_spec(s: StateView, t: Tag) -> Step {
    if s.here == BOAT_ROOM {
        if t == tag3('B', 'O', 'A') {
            arrive(s, moorage(s))
        } else {
            unchanged(s, seq!["HUH?\n"])
        }
    } else {
        unchanged(s, seq!["PLEASE GIVE A DIRECTION!\n"])
    }
}

pub open spec fn fight_spec(s: StateView) -> Step {
    if !here_spec(s, tag3('G', 'U', 'A')) {
        unchanged(s, seq!["THERE'S NO GUARD HERE!\n"])
    } else if s.pos(SWORD) != Loc::Carried {
        unchanged(s, seq!["YOU DON'T HAVE A WEAPON!\n"])
    } else {
        (
            with_pos(s, GUARD, Loc::Unrevealed),
            seq!["THE GUARD, NOTICING YOUR SWORD,\n", "WISELY RETREATS INTO THE CASTLE.\n"],
        )
    }
}

pub open spec fn wear_spec(s: StateView) -> Step {
    if s.gloved {
        unchanged(s, seq!["YOU ARE ALREADY WEARING THE RUBBER GLOVES.\n"])
    } else if !here_spec(s, tag3('G', 'L', 'O')) {
        unchanged(s, seq!["YOU DON'T HAVE THE GLOVES.\n"])
    } else {
        (
            StateView { gloved: true, ..with_pos(s, GLOVES, Loc::Unrevealed) },
            seq!["YOU ARE NOW WEARING THE GLOVES.\n"],
        )
    }
}

impl State {
    /// Moves the player, if the exit allows it.
    pub fn go(&mut self, direction: Dir, out: &mut Vec<&'static str>)
        requires
            old(self).wf(),
        ensures
            final(self).wf(),
            follows(old(self)@, old(out)@, go_spec(old(self)@, direction), final(self)@, final(out)@),
    {
        let dest = exit(self.here, direction);
        if dest > 0 && dest < N_ROOMS {
            self.here = dest;
            self.look_around(out);
        } else if dest == GUARDED {
            if self.positions[GUARD] != Loc::Unrevealed {
                out.push("THE GUARD WON'T LET YOU!\n");
            } else {
                self.here = NARROW_HALL;
                self.look_around(out);
            }
        } else {
            out.push("YOU CAN'T GO THERE!\n");
        }
    }

    /// Picks up an object; the ruby, once reached, wins the game.
    pub fn pick_up(&mut self, tag: Tag, out: &mut Vec<&'static str>)
        requires
            old(self).wf(),
        ensures
            final(self).wf(),
            follows(old(self)@, old(out)@, pick_up_spec(old(self)@, tag), final(self)@, final(out)@),
    {
        match self.lookup_object(tag) {
            Some((id, room)) => {
                if room == Loc::Carried {
                    out.push("YOU ALREADY HAVE IT!\n");
                } else if matches!(room, Loc::Fixed(_)) {
                    out.push(CANT_GET);
                } else if room != Loc::InRoom(self.here) {
                    out.push(NOT_HERE);
                } else if tag.is3('R', 'U', 'B') {
                    self.won = true;
                } else if self.inventory_count() >= MAX_INVENTORY {
                    out.push("YOU CAN'T CARRY ANY MORE.\n");
                } else {
                    proof {
                        lemma_count_update(self.positions@, id as int, Loc::Carried);
                    }
                    self.positions.set(id, Loc::Carried);
                    out.push("TAKEN.\n");
                }
            },
            None => {
                out.push(CANT_GET);
            },
        }
    }

    /// Drops a carried object in the player's room.
    pub fn drop(&mut self, tag: Tag, out: &mut Vec<&'static str>)
        requires
            old(self).wf(),
        ensures
            final(self).wf(),
            follows(old(self)@, old(out)@, drop_spec(old(self)@, tag), final(self)@, final(out)@),
    {
        if let Some((id, room)) = self.lookup_object(tag) {
            if room == Loc::Carried {
                let here = self.here;
                proof {
                    lemma_count_update(self.positions@, id as int, Loc::InRoom(here));
                }
                self.positions.set(id, Loc::InRoom(here));
                out.push("DROPPED.\n");
                return;
            }
        }
        out.push("YOU DON'T HAVE THAT!\n");
    }

    /// Describes an object, or the ground.
    pub fn examine(&self, tag: Tag, out: &mut Vec<&'static str>)
        requires
            self.wf(),
        ensures
            final(out)@ == old(out)@ + examine_text(self@, tag),
    {
        let c = canonical_tag(tag);
        if c.is3('G', 'R', 'O') {
            if self.here != OPEN_FIELD {
                out.push("IT LOOKS LIKE GROUND!\n");
            } else if self.positions[SWORD] == Loc::Unrevealed {
                out.push("IT LOOKS LIKE SOMETHING'S BURIED HERE.\n");
            } else {
                out.push("THERE'S A HOLE HERE.\n");
            }
        } else if self.is_object_here(tag) {
            if c.is3('B', 'O', 'T') {
                out.push("THERE'S SOMETHING WRITTEN ON IT!\n");
            } else if c.is3('C', 'A', 'S') {
                out.push("THERE'S A JEWEL INSIDE!\n");
            } else if c.is3('B', 'A', 'R') {
                out.push("IT'S FILLED WITH RAINWATER.\n");
            } else {
                out.push("YOU SEE NOTHING UNUSUAL.\n");
            }
        } else {
            out.push(NOT_HERE);
        }
    }

    /// Opens the box, the cabinet or the case, each revealing what it holds once.
    pub fn open(&mut self, tag: Tag, out: &mut Vec<&'static str>)
        requires
            old(self).wf(),
        ensures
            final(self).wf(),
            follows(old(self)@, old(out)@, open_spec(old(self)@, tag), final(self)@, final(out)@),
    {
        let here = self.here;
        if !self.is_object_here(tag) {
            out.push(NOT_HERE);
        } else if tag.is3('B', 'O', 'X') {
            if self.positions[BOTTLE] == Loc::Unrevealed {
                proof {
                    lemma_count_update(self.positions@, BOTTLE as int, Loc::InRoom(here));
                }
                self.positions.set(BOTTLE, Loc::InRoom(here));
                out.push("SOMETHING FELL OUT!\n");
                self.list_items_here(out);
            } else {
                out.push("THE BOX IS ALREADY OPEN.\n");
            }
        } else if tag.is3('C', 'A', 'B') {
            if self.positions[SALT] == Loc::Unrevealed {
                proof {
                    lemma_count_update(self.positions@, SALT as int, Loc::InRoom(here));
                }
                self.positions.set(SALT, Loc::InRoom(here));
                out.push("THERE'S SOMETHING INSIDE!\n");
                self.list_items_here(out);
            } else {
                out.push("THE CABINET IS ALREADY OPEN.\n");
            }
        } else if tag.is3('C', 'A', 'S') {
            if self.positions[RUBY] != Loc::Unrevealed {
                out.push("THE CASE IS ALREADY OPEN.\n");
            } else if self.gloved {
                out.push("THE GLOVES INSULATE AGAINST THE\n");
                out.push("ELECTRICITY! THE CASE OPENS!\n");
                proof {
                    lemma_count_update(self.positions@, RUBY as int, Loc::InRoom(here));
                }
                self.positions.set(RUBY, Loc::InRoom(here));
                self.list_items_here(out);
            } else {
                out.push("THE CASE IS ELECTRIFIED!\n");
            }
        } else {
            out.push("YOU CAN'T OPEN THAT!\n");
        }
    }

    /// Reads the diary, the dictionary or the bottle's label.
    pub fn read(&self, tag: Tag, out: &mut Vec<&'static str>)
        requires
            self.wf(),
        ensures
            final(out)@ == old(out)@ + read_text(self@, tag),
    {
        let c = canonical_tag(tag);
        if !self.is_object_here(tag) {
            out.push(NOT_HERE);
        } else if c.is3('D', 'I', 'A') {
            out.push("IT SAYS: 'ADD SODIUM CHLORIDE PLUS THE\n");
            out.push("FORMULA TO RAINWATER, TO REACH THE\n");
            out.push("OTHER WORLD.'\n");
        } else if c.is3('D', 'I', 'C') {
            out.push("IT SAYS: SODIUM CHLORIDE IS\n");
            out.push("COMMON TABLE SALT.\n");
        } else if c.is3('B', 'O', 'T') {
            out.push("IT READS: 'SECRET FORMULA'.\n");
        } else {
            out.push("YOU CAN'T READ THAT!\n");
        }
    }

    /// Pours the salt or the formula into the barrel.
    pub fn pour(&mut self, tag: Tag, out: &mut Vec<&'static str>)
        requires
            old(self).wf(),
        ensures
            final(self).wf(),
            follows(old(self)@, old(out)@, pour_spec(old(self)@, tag), final(self)@, final(out)@),
    {
        let c = canonical_tag(tag);
        if !self.is_object_here(tag) {
            out.push(NOT_HERE);
        } else if c.is3('S', 'A', 'L') && self.salted {
            out.push("THE SALT SHAKER IS EMPTY.\n");
        } else if c.is3('S', 'A', 'L') && self.here == GARAGE {
            self.salted = true;
            self.poured_into_barrel(out);
        } else if c.is3('B', 'O', 'T') && self.formulated {
            out.push("THE BOTTLE IS EMPTY.\n");
        } else if c.is3('B', 'O', 'T') && self.here == GARAGE {
            self.formulated = true;
            self.poured_into_barrel(out);
        } else {
            out.push("YOU CAN'T POUR THAT!\n");
        }
    }

    /// Reports a pour; with both poured, carries the player to the other world.
    pub fn poured_into_barrel(&mut self, out: &mut Vec<&'static str>)
        requires
            old(self).wf(),
        ensures
            final(self).wf(),
            follows(old(self)@, old(out)@, barrel_spec(old(self)@), final(self)@, final(out)@),
    {
        out.push("POURED!\n");
        if self.salted && self.formulated {
            out.push("THERE IS AN EXPLOSION!\n");
            out.push("EVERYTHING GOES BLACK!\n");
            out.push("SUDDENLY YOU ARE. . .\n");
            out.push(". . .SOMEWHERE ELSE!\n");
            self.here = OPEN_FIELD;
            self.look_around(out);
        }
    }

    /// Climbs the tree (in vain) or the ladder.
    pub fn climb(&mut self, tag: Tag, out: &mut Vec<&'static str>)
        requires
            old(self).wf(),
        ensures
            final(self).wf(),
            follows(old(self)@, old(out)@, climb_spec(old(self)@, tag), final(self)@, final(out)@),
    {
        let tree = Tag { len: 3, b0: 'T' as u8, b1: 'R' as u8, b2: 'E' as u8 };
        let ladder = Tag { len: 3, b0: 'L' as u8, b1: 'A' as u8, b2: 'D' as u8 };
        if tag == tree && self.is_object_here(tree) {
            out.push("YOU CAN'T REACH THE BRANCHES!\n");
        } else if tag == ladder && self.positions[LADDER] == Loc::Carried {
            if self.here == FOREST_EDGE {
                out.push("THE LADDER SINKS UNDER YOUR WEIGHT!\n");
                out.push("IT DISAPPEARS INTO THE GROUND!\n");
                proof {
                    lemma_count_update(self.positions@, LADDER as int, Loc::Unrevealed);
                }
                self.positions.set(LADDER, Loc::Unrevealed);
            } else {
                out.push("WHATEVER FOR?\n");
            }
        } else {
            out.push("IT WON'T DO ANY GOOD.\n");
        }
    }

    /// Jumps up into the tree, a branch at a time.
    pub fn jump(&mut self, out: &mut Vec<&'static str>)
        requires
            old(self).wf(),
        ensures
            final(self).wf(),
            follows(old(self)@, old(out)@, jump_spec(old(self)@), final(self)@, final(out)@),
    {
        if self.here == FOREST_EDGE {
            out.push("YOU GRAB THE LOWEST BRANCH OF THE\n");
            out.push("TREE AND PULL YOURSELF UP. . . .\n");
            self.here = TREE_BRANCH;
            self.look_around(out);
        } else if self.here == TREE_BRANCH {
            out.push("YOU GRAB A HIGHER BRANCH OF THE\n");
            out.push("TREE AND PULL YOURSELF UP. . . .\n");
            self.here = TREE_TOP;
            self.look_around(out);
        } else {
            out.push("WHEE! THAT WAS FUN!\n");
        }
    }

    /// Digs in the ground, where the sword lies buried.
    pub fn dig(&mut self, tag: Tag, out: &mut Vec<&'static str>)
        requires
            old(self).wf(),
        ensures
            final(self).wf(),
            follows(old(self)@, old(out)@, dig_spec(old(self)@, tag), final(self)@, final(out)@),
    {
        if !tag.is3('G', 'R', 'O') && !tag.is3('H', 'O', 'L') {
            out.push("YOU CAN'T DIG THAT!\n");
        } else if self.positions[SHOVEL] != Loc::Carried {
            out.push("YOU DON'T HAVE A SHOVEL!\n");
        } else if self.here != OPEN_FIELD {
            out.push("YOU DON'T FIND ANYTHING.\n");
        } else if self.positions[SWORD] != Loc::Unrevealed {
            out.push("THERE'S NOTHING ELSE THERE!\n");
        } else {
            out.push("THERE'S SOMETHING THERE!\n");
            proof {
                lemma_count_update(self.positions@, SWORD as int, Loc::InRoom(OPEN_FIELD));
            }
            self.positions.set(SWORD, Loc::InRoom(OPEN_FIELD));
            self.list_items_here(out);
        }
    }

    /// Rowing, which the missing oar prevents.
    pub fn row_boat(&self, out: &mut Vec<&'static str>)
        requires
            self.wf(),
        ensures
            final(out)@ == old(out)@ + row_text(self@),
    {
        if self.here != BOAT_ROOM {
            out.push("YOU'RE NOT IN A BOAT!\n");
        } else {
            out.push("YOU DON'T HAVE AN OAR!\n");
        }
    }

    /// Waves the fan; in the boat, it blows the boat to the other bank.
    pub fn wave(&mut self, tag: Tag, out: &mut Vec<&'static str>)
        requires
            old(self).wf(),
        ensures
            final(self).wf(),
            follows(old(self)@, old(out)@, wave_spec(old(self)@, tag), final(self)@, final(out)@),
    {
        let fan = Tag { len: 3, b0: 'F' as u8, b1: 'A' as u8, b2: 'N' as u8 };
        if tag != fan {
            out.push("YOU CAN'T WAVE THAT!\n");
        } else if self.positions[FAN] != Loc::Carried {
            out.push("YOU DON'T HAVE A FAN!\n");
        } else if self.here != BOAT_ROOM {
            out.push("YOU FEEL A REFRESHING BREEZE!\n");
        } else {
            out.push("A POWERFUL BREEZE PROPELS THE BOAT\n");
            out.push("TO THE OPPOSITE SHORE!\n");
            if self.positions[BOAT_OBJ] == Loc::Fixed(SOUTH_BANK) {
                proof {
                    lemma_count_update(self.positions@, BOAT_OBJ as int, Loc::Fixed(NORTH_BANK));
                }
                self.positions.set(BOAT_OBJ, Loc::Fixed(NORTH_BANK));
            } else {
                proof {
                    lemma_count_update(self.positions@, BOAT_OBJ as int, Loc::Fixed(SOUTH_BANK));
                }
                self.positions.set(BOAT_OBJ, Loc::Fixed(SOUTH_BANK));
            }
        }
    }

    /// Steps out of the boat onto the bank it is moored at.
    pub fn leave(&mut self, tag: Tag, out: &mut Vec<&'static str>)
        requires
            old(self).wf(),
        ensures
            final(self).wf(),
            follows(old(self)@, old(out)@, leave_spec(old(self)@, tag), final(self)@, final(out)@),
    {
        if self.here == BOAT_ROOM {
            if tag.is3('B', 'O', 'A') {
                self.here = match self.positions[BOAT_OBJ] {
                    Loc::Fixed(r) => r,
                    Loc::InRoom(r) => r,
                    _ => BOAT_ROOM,
                };
                self.look_around(out);
            } else {
                out.push("HUH?\n");
            }
        } else {
            out.push("PLEASE GIVE A DIRECTION!\n");
        }
    }

    /// Drives off the guard, when the player carries the sword.
    pub fn fight_guard(&mut self, out: &mut Vec<&'static str>)
        requires
            old(self).wf(),
        ensures
            final(self).wf(),
            follows(old(self)@, old(out)@, fight_spec(old(self)@), final(self)@, final(out)@),
    {
        let guard = Tag { len: 3, b0: 'G' as u8, b1: 'U' as u8, b2: 'A' as u8 };
        if !self.is_object_here(guard) {
            out.push("THERE'S NO GUARD HERE!\n");
        } else if self.positions[SWORD] != Loc::Carried {
            out.push("YOU DON'T HAVE A WEAPON!\n");
        } else {
            out.push("THE GUARD, NOTICING YOUR SWORD,\n");
            out.push("WISELY RETREATS INTO THE CASTLE.\n");
            proof {
                lemma_count_update(self.positions@, GUARD as int, Loc::Unrevealed);
            }
            self.positions.set(GUARD, Loc::Unrevealed);
        }
    }

    /// Puts on the rubber gloves.
    pub fn wear_gloves(&mut self, out: &mut Vec<&'static str>)
        requires
            old(self).wf(),
        ensures
            final(self).wf(),
            follows(old(self)@, old(out)@, wear_spec(old(self)@), final(self)@, final(out)@),
    {
        let gloves = Tag { len: 3, b0: 'G' as u8, b1: 'L' as u8, b2: 'O' as u8 };
        if self.gloved {
            out.push("YOU ARE ALREADY WEARING THE RUBBER GLOVES.\n");
        } else if !self.is_object_here(gloves) {
            out.push("YOU DON'T HAVE THE GLOVES.\n");
        } else {
            out.push("YOU ARE NOW WEARING THE GLOVES.\n");
            self.gloved = true;
            proof {
                lemma_count_update(self.positions@, GLOVES as int, Loc::Unrevealed);
            }
            self.positions.set(GLOVES, Loc::Unrevealed);
        }
    }
}

} // verus!
