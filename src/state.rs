use vstd::prelude::*;
use crate::tag::{Tag, tag3};
use crate::world::{
    is_room, object, object_spec, room, room_spec, seen_in, room_of, Loc, ObjId, RoomId,
    BOAT_OBJ, MAX_INVENTORY, NORTH_BANK, N_OBJECTS, SOUTH_BANK, START_ROOM,
};

verus! {

/// The game's mutable state.
pub struct State {
    /// The room the player is in.
    pub here: RoomId,
    /// Where each object is, by object number.
    pub positions: Vec<Loc>,
    pub salted: bool,
    pub formulated: bool,
    pub gloved: bool,
    pub won: bool,
}

/// The mathematical model of a `State`.
pub struct StateView {
    pub here: RoomId,
    pub positions: Seq<Loc>,
    pub salted: bool,
    pub formulated: bool,
    pub gloved: bool,
    pub won: bool,
}

impl View for State {
    type V = StateView;

    open spec fn view(&self) -> StateView {
        StateView {
            here: self.here,
            positions: self.positions@,
            salted: self.salted,
            formulated: self.formulated,
            gloved: self.gloved,
            won: self.won,
        }
    }
}

impl StateView {
    /// One location per object, the player in a room, no more carried than
    /// the player can hold, the boat at a bank.
    pub open spec fn wf(self) -> bool {
        &&& self.positions.len() == N_OBJECTS
        &&& count_carried(self.positions) <= MAX_INVENTORY
        &&& is_room(self.here)
        &&& (self.positions[BOAT_OBJ as int] == Loc::Fixed(SOUTH_BANK)
            || self.positions[BOAT_OBJ as int] == Loc::Fixed(NORTH_BANK))
    }

    pub open spec fn pos(self, i: ObjId) -> Loc {
        self.positions[i as int]
    }

    /// Whether object `i` can be seen in the player's room.
    pub open spec fn seen_here(self, i: ObjId) -> bool {
        room_of(self.pos(i)) == Some(self.here)
    }
}

/// The number of carried objects among `p`.
pub open spec fn count_carried(p: Seq<Loc>) -> nat
    decreases p.len(),
{
    if p.len() == 0 {
        0
    } else {
        count_carried(p.drop_last()) + if p.last() == Loc::Carried { 1nat } else { 0nat }
    }
}

/// Setting one location changes the count by what leaves and what comes.
pub proof fn lemma_count_update(p: Seq<Loc>, i: int, l: Loc)
    requires
        0 <= i < p.len(),
    ensures
        count_carried(p.update(i, l)) + (if p[i] == Loc::Carried { 1int } else { 0int })
            == count_carried(p) + (if l == Loc::Carried { 1int } else { 0int }),
    decreases p.len(),
{
    assert(p.update(i, l).last() == if i == p.len() - 1 { l } else { p.last() });
    if i == p.len() - 1 {
        assert(p.update(i, l).drop_last() =~= p.drop_last());
    } else {
        lemma_count_update(p.drop_last(), i, l);
        assert(p.update(i, l).drop_last() =~= p.drop_last().update(i, l));
    }
}

/// The two alternate words for objects.
pub open spec fn canonical(t: Tag) -> Tag {
    if t == tag3('S', 'H', 'A') {
        tag3('S', 'A', 'L')
    } else if t == tag3('F', 'O', 'R') {
        tag3('B', 'O', 'T')
    } else {
        t
    }
}

/// Maps the alternate words to the tags they stand for.
pub fn canonical_tag(t: Tag) -> (c: Tag)
    ensures
        c == canonical(t),
{
    if t.is3('S', 'H', 'A') {
        Tag { len: 3, b0: 'S' as u8, b1: 'A' as u8, b2: 'L' as u8 }
    } else if t.is3('F', 'O', 'R') {
        Tag { len: 3, b0: 'B' as u8, b1: 'O' as u8, b2: 'T' as u8 }
    } else {
        t
    }
}

/// The lowest object number below `n` whose tag is `t`.
pub open spec fn obj_index(t: Tag, n: nat) -> Option<ObjId>
    decreases n,
{
    if n == 0 {
        None
    } else {
        match obj_index(t, (n - 1) as nat) {
            Some(i) => Some(i),
            None => if object_spec((n - 1) as usize).tag == t {
                Some((n - 1) as usize)
            } else {
                None
            },
        }
    }
}

/// A match found below `n` stays the match below any larger bound.
pub proof fn lemma_obj_index_stable(t: Tag, n: nat, m: nat)
    requires
        n <= m,
        obj_index(t, n) is Some,
    ensures
        obj_index(t, m) == obj_index(t, n),
    decreases m - n,
{
    if n < m {
        lemma_obj_index_stable(t, n, (m - 1) as nat);
    }
}

pub open spec fn lookup_spec(s: StateView, t: Tag) -> Option<(ObjId, Loc)> {
    match obj_index(canonical(t), N_OBJECTS as nat) {
        Some(i) => Some((i, s.pos(i))),
        None => None,
    }
}

/// An object is at hand when it is carried or can be seen in the player's room.
pub open spec fn here_spec(s: StateView, t: Tag) -> bool {
    match lookup_spec(s, t) {
        Some((_, l)) => l == Loc::Carried || room_of(l) == Some(s.here),
        None => false,
    }
}

pub open spec fn exits_text(r: RoomId) -> Seq<&'static str> {
    let info = room_spec(r);
    (if info.n > 0 { seq![" NORTH"] } else { seq![] })
        + (if info.s > 0 { seq![" SOUTH"] } else { seq![] })
        + (if info.e > 0 { seq![" EAST"] } else { seq![] })
        + (if info.w > 0 { seq![" WEST"] } else { seq![] })
        + (if info.d > 0 { seq![" DOWN"] } else { seq![] })
        + (if info.u > 0 { seq![" UP"] } else { seq![] })
}

/// The lines naming the objects below `n` that can be seen in the player's room.
pub open spec fn items_upto(s: StateView, n: nat) -> Seq<&'static str>
    decreases n,
{
    if n == 0 {
        seq![]
    } else {
        let i = (n - 1) as usize;
        items_upto(s, (n - 1) as nat) + if s.seen_here(i) {
            seq![INDENT, object_spec(i).name, "\n"]
        } else {
            seq![]
        }
    }
}

/// The lines naming the carried objects below `n`.
pub open spec fn carried_upto(s: StateView, n: nat) -> Seq<&'static str>
    decreases n,
{
    if n == 0 {
        seq![]
    } else {
        let i = (n - 1) as usize;
        carried_upto(s, (n - 1) as nat) + if s.pos(i) == Loc::Carried {
            seq![INDENT, object_spec(i).name, "\n"]
        } else {
            seq![]
        }
    }
}

pub const INDENT: &'static str = "    ";

/// What the player sees in the room.
pub open spec fn items_text(s: StateView) -> Seq<&'static str> {
    let items = items_upto(s, N_OBJECTS as nat);
    seq!["\nYOU CAN SEE:\n"] + if items.len() == 0 {
        seq![INDENT, "THERE IS NOTHING OF INTEREST HERE.\n"]
    } else {
        items
    }
}

/// The description of the player's room, its exits and what lies there.
pub open spec fn look_text(s: StateView) -> Seq<&'static str> {
    seq!["\nYOU ARE ", room_spec(s.here).desc, "\n", "YOU CAN GO:"] + exits_text(s.here)
        + items_text(s)
}

pub open spec fn inventory_text(s: StateView) -> Seq<&'static str> {
    let items = carried_upto(s, N_OBJECTS as nat);
    (if s.gloved { seq!["YOU ARE WEARING RUBBER GLOVES.\n"] } else { seq![] })
        + seq!["YOU ARE CARRYING:\n"] + if items.len() == 0 {
        seq![INDENT, "NOTHING\n"]
    } else {
        items
    }
}

pub open spec fn start_positions() -> Seq<Loc> {
    Seq::new(N_OBJECTS as nat, |i: int| object_spec(i as usize).start)
}

impl State {
    pub open spec fn wf(&self) -> bool {
        self@.wf()
    }

    /// The state at the start of a game.
    pub fn new_game() -> (s: State)
        ensures
            s.wf(),
            s.here == START_ROOM,
            s.positions@ == start_positions(),
            !s.salted && !s.formulated && !s.gloved && !s.won,
    {
        let mut positions: Vec<Loc> = Vec::new();
        let mut i: usize = 0;
        while i < N_OBJECTS
            invariant
                i <= N_OBJECTS,
                positions@ == start_positions().take(i as int),
                count_carried(positions@) == 0,
            decreases N_OBJECTS - i,
        {
            let ghost before = positions@;
            positions.push(object(i).start);
            assert(positions@.drop_last() =~= before);
            i = i + 1;
            assert(positions@ =~= start_positions().take(i as int));
        }
        assert(positions@ =~= start_positions());
        State { here: START_ROOM, positions, salted: false, formulated: false, gloved: false, won: false }
    }

    /// How many objects the player carries.
    pub fn inventory_count(&self) -> (n: usize)
        ensures
            n == count_carried(self.positions@),
    {
        let mut n: usize = 0;
        let mut i: usize = 0;
        while i < self.positions.len()
            invariant
                i <= self.positions@.len(),
                n == count_carried(self.positions@.take(i as int)),
                n <= i,
            decreases self.positions@.len() - i,
        {
            assert(self.positions@.take(i + 1).drop_last() =~= self.positions@.take(i as int));
            if self.positions[i] == Loc::Carried {
                n = n + 1;
            }
            i = i + 1;
        }
        assert(self.positions@.take(i as int) =~= self.positions@);
        n
    }

    /// The object with the given tag, after the alternate words are mapped, and its location.
    pub fn lookup_object(&self, tag: Tag) -> (r: Option<(ObjId, Loc)>)
        requires
            self.wf(),
        ensures
            r == lookup_spec(self@, tag),
            match r {
                Some((i, _)) => i < N_OBJECTS,
                None => true,
            },
    {
        let t = canonical_tag(tag);
        let mut i: usize = 0;
        while i < N_OBJECTS
            invariant
                i <= N_OBJECTS,
                t == canonical(tag),
                obj_index(t, i as nat) == None::<ObjId>,
                self.wf(),
            decreases N_OBJECTS - i,
        {
            if object(i).tag == t {
                proof {
                    lemma_obj_index_stable(t, (i + 1) as nat, N_OBJECTS as nat);
                }
                return Some((i, self.positions[i]));
            }
            i = i + 1;
        }
        None
    }

    /// Whether the object is carried or can be seen here.
    pub fn is_object_here(&self, tag: Tag) -> (r: bool)
        requires
            self.wf(),
        ensures
            r == here_spec(self@, tag),
    {
        match self.lookup_object(tag) {
            Some((_, l)) => l == Loc::Carried || seen_in(l) == Some(self.here),
            None => false,
        }
    }

    /// Describes the room the player is in.
    pub fn look_around(&self, out: &mut Vec<&'static str>)
        requires
            self.wf(),
        ensures
            final(out)@ == old(out)@ + look_text(self@),
    {
        let info = room(self.here);
        out.push("\nYOU ARE ");
        out.push(info.desc);
        out.push("\n");
        out.push("YOU CAN GO:");
        if info.n > 0 { out.push(" NORTH"); }
        if info.s > 0 { out.push(" SOUTH"); }
        if info.e > 0 { out.push(" EAST"); }
        if info.w > 0 { out.push(" WEST"); }
        if info.d > 0 { out.push(" DOWN"); }
        if info.u > 0 { out.push(" UP"); }
        self.list_items_here(out);
        assert(final(out)@ =~= old(out)@ + look_text(self@));
    }

    /// Lists what can be seen in the player's room.
    pub fn list_items_here(&self, out: &mut Vec<&'static str>)
        requires
            self.wf(),
        ensures
            final(out)@ == old(out)@ + items_text(self@),
    {
        let ghost start = out@;
        out.push("\nYOU CAN SEE:\n");
        let mut found = false;
        let mut i: usize = 0;
        while i < N_OBJECTS
            invariant
                i <= N_OBJECTS,
                self.wf(),
                out@ == start + seq!["\nYOU CAN SEE:\n"] + items_upto(self@, i as nat),
                found == (items_upto(self@, i as nat).len() > 0),
            decreases N_OBJECTS - i,
        {
            if seen_in(self.positions[i]) == Some(self.here) {
                out.push(INDENT);
                out.push(object(i).name);
                out.push("\n");
                found = true;
            }
            i = i + 1;
            assert(out@ =~= start + seq!["\nYOU CAN SEE:\n"] + items_upto(self@, i as nat));
        }
        if !found {
            out.push(INDENT);
            out.push("THERE IS NOTHING OF INTEREST HERE.\n");
        }
        assert(out@ =~= start + items_text(self@));
    }

    /// Lists what the player carries.
    pub fn inventory(&self, out: &mut Vec<&'static str>)
        requires
            self.wf(),
        ensures
            final(out)@ == old(out)@ + inventory_text(self@),
    {
        let ghost start = out@;
        if self.gloved {
            out.push("YOU ARE WEARING RUBBER GLOVES.\n");
        }
        out.push("YOU ARE CARRYING:\n");
        let ghost head = out@;
        let mut found = false;
        let mut i: usize = 0;
        while i < N_OBJECTS
            invariant
                i <= N_OBJECTS,
                self.wf(),
                out@ == head + carried_upto(self@, i as nat),
                found == (carried_upto(self@, i as nat).len() > 0),
            decreases N_OBJECTS - i,
        {
            if self.positions[i] == Loc::Carried {
                out.push(INDENT);
                out.push(object(i).name);
                out.push("\n");
                found = true;
            }
            i = i + 1;
            assert(out@ =~= head + carried_upto(self@, i as nat));
        }
        if !found {
            out.push(INDENT);
            out.push("NOTHING\n");
        }
        assert(out@ =~= start + inventory_text(self@));
    }
}

} // verus!
