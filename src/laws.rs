use vstd::prelude::*;
use crate::tag::{tag3, Tag};
use crate::state::{
    canonical, count_carried, here_spec, items_text, lemma_count_update, look_text, lookup_spec,
    obj_index, StateView,
};
use crate::actions::{
    drop_spec, examine_text, read_text, explosion_text, go_spec, moved, open_spec, pick_up_spec, pour_spec,
    unchanged, wave_spec, with_pos,
};
use crate::world::{
    exit_spec, Dir, Loc, ObjId, BOAT_OBJ, FAN, BOAT_ROOM, GARAGE, MAX_INVENTORY, N_OBJECTS, OPEN_FIELD,
    RUBY,
};

verus! {

/// An object number found by tag lies below the bound searched.
pub proof fn lemma_obj_index_bound(t: Tag, n: nat)
    ensures
        match obj_index(t, n) {
            Some(i) => i < n,
            None => true,
        },
    decreases n,
{
    if n > 0 {
        lemma_obj_index_bound(t, (n - 1) as nat);
    }
}

/// Moving object `i` leaves whether another object is at hand unchanged.
pub proof fn lemma_here_frame(s: StateView, i: ObjId, l: Loc, t: Tag)
    requires
        s.wf(),
        i < N_OBJECTS,
        obj_index(canonical(t), N_OBJECTS as nat) != Some(i),
    ensures
        here_spec(with_pos(s, i, l), t) == here_spec(s, t),
        lookup_spec(with_pos(s, i, l), t) == lookup_spec(s, t),
{
    lemma_obj_index_bound(canonical(t), N_OBJECTS as nat);
}

/// Where the case and the ruby stand in the object table.
proof fn lemma_known_indices()
    ensures
        obj_index(tag3('C', 'A', 'S'), N_OBJECTS as nat) == Some(15usize),
        obj_index(tag3('R', 'U', 'B'), N_OBJECTS as nat) == Some(RUBY),
{
    reveal_with_fuel(obj_index, 19);
}

/// Going through an exit that is not there leaves the player, and everything
/// else, where it was.
pub proof fn lemma_no_exit_stays(s: StateView, d: Dir)
    requires
        s.wf(),
        exit_spec(s.here, d) == 0,
    ensures
        go_spec(s, d) == unchanged(s, seq!["YOU CAN'T GO THERE!\n"]),
        go_spec(s, d).0.here == s.here,
{
}

/// Taking an object: it is carried afterwards exactly when it lay loose in the
/// player's room and fewer than the maximum were carried; one already carried
/// is reported as such; a fixed one stays; the ruby, lying in the room, wins the
/// game whatever is carried.
pub proof fn lemma_take(s: StateView, t: Tag)
    requires
        s.wf(),
        lookup_spec(s, t) is Some,
    ensures
        ({
            let (id, l) = lookup_spec(s, t)->0;
            let r = pick_up_spec(s, t);
            &&& l == Loc::Carried ==> r == unchanged(s, seq!["YOU ALREADY HAVE IT!\n"])
            &&& l is Fixed ==> r.0 == s
            &&& (l != Loc::Carried && t != tag3('R', 'U', 'B')) ==> (r.0.pos(id) == Loc::Carried
                <==> (l == Loc::InRoom(s.here) && count_carried(s.positions) < MAX_INVENTORY))
            &&& (l != Loc::Carried && r.0.pos(id) == Loc::Carried) ==> r == (
                with_pos(s, id, Loc::Carried),
                seq!["TAKEN.\n"],
            )
            &&& (t == tag3('R', 'U', 'B') && l == Loc::InRoom(s.here)) ==> r.0.won
        }),
{
    lemma_obj_index_bound(canonical(t), N_OBJECTS as nat);
}

/// Dropping a carried object and taking it again gives back the same state.
pub proof fn lemma_drop_then_take(s: StateView, t: Tag)
    requires
        s.wf(),
        lookup_spec(s, t) is Some,
        ({
            let (_, l) = lookup_spec(s, t)->0;
            l == Loc::Carried
        }),
        t != tag3('R', 'U', 'B'),
    ensures
        drop_spec(s, t).0.wf(),
        pick_up_spec(drop_spec(s, t).0, t) == (s, seq!["TAKEN.\n"]),
{
    let (id, _) = lookup_spec(s, t)->0;
    lemma_obj_index_bound(canonical(t), N_OBJECTS as nat);
    let d = drop_spec(s, t).0;
    lemma_count_update(s.positions, id as int, Loc::InRoom(s.here));
    assert(d.positions.update(id as int, Loc::Carried) =~= s.positions);
}

/// Pouring what is already poured does nothing more.
pub proof fn lemma_pour_again(s: StateView)
    requires
        s.wf(),
    ensures
        (s.salted && here_spec(s, tag3('S', 'A', 'L'))) ==> pour_spec(s, tag3('S', 'A', 'L'))
            == unchanged(s, seq!["THE SALT SHAKER IS EMPTY.\n"]),
        (s.formulated && here_spec(s, tag3('B', 'O', 'T'))) ==> pour_spec(s, tag3('B', 'O', 'T'))
            == unchanged(s, seq!["THE BOTTLE IS EMPTY.\n"]),
        (s.salted && s.formulated) ==> pour_spec(s, tag3('S', 'A', 'L')).0 == s
            && pour_spec(s, tag3('B', 'O', 'T')).0 == s,
{
}

/// Pouring salt and formula into the barrel, in either order: the first pour
/// only pours, the second sets off the explosion, and both orders end alike.
pub proof fn lemma_pour_either_order(s: StateView)
    requires
        s.wf(),
        s.here == GARAGE,
        !s.salted,
        !s.formulated,
        here_spec(s, tag3('S', 'A', 'L')),
        here_spec(s, tag3('B', 'O', 'T')),
    ensures
        ({
            let sal = tag3('S', 'A', 'L');
            let bot = tag3('B', 'O', 'T');
            let a1 = pour_spec(s, sal);
            let a2 = pour_spec(a1.0, bot);
            let b1 = pour_spec(s, bot);
            let b2 = pour_spec(b1.0, sal);
            let end = moved(StateView { salted: true, formulated: true, ..s }, OPEN_FIELD);
            &&& a1 == unchanged(StateView { salted: true, ..s }, seq!["POURED!\n"])
            &&& b1 == unchanged(StateView { formulated: true, ..s }, seq!["POURED!\n"])
            &&& a2 == b2
            &&& a2.0 == end
            &&& a2.1 == seq!["POURED!\n"] + explosion_text() + look_text(end)
        }),
{
}

/// Without gloves the case stays shut.
pub proof fn lemma_case_without_gloves(s: StateView)
    requires
        s.wf(),
        !s.gloved,
    ensures
        open_spec(s, tag3('C', 'A', 'S')).0 == s,
{
}

/// With gloves the case opens once, showing the ruby; after that it is
/// reported open and nothing changes.
pub proof fn lemma_case_with_gloves(s: StateView)
    requires
        s.wf(),
        s.gloved,
        here_spec(s, tag3('C', 'A', 'S')),
        s.pos(RUBY) == Loc::Unrevealed,
    ensures
        ({
            let cas = tag3('C', 'A', 'S');
            let r1 = open_spec(s, cas);
            &&& r1.0 == with_pos(s, RUBY, Loc::InRoom(s.here))
            &&& r1.1 == seq!["THE GLOVES INSULATE AGAINST THE\n", "ELECTRICITY! THE CASE OPENS!\n"]
                + items_text(r1.0)
            &&& r1.0.wf()
            &&& open_spec(r1.0, cas) == unchanged(r1.0, seq!["THE CASE IS ALREADY OPEN.\n"])
        }),
{
    lemma_known_indices();
    lemma_count_update(s.positions, RUBY as int, Loc::InRoom(s.here));
    lemma_here_frame(s, RUBY, Loc::InRoom(s.here), tag3('C', 'A', 'S'));
}

/// Waving the fan, held in the boat, twice brings the boat back to its bank.
pub proof fn lemma_wave_twice(s: StateView)
    requires
        s.wf(),
        s.here == BOAT_ROOM,
        s.pos(FAN) == Loc::Carried,
    ensures
        wave_spec(s, tag3('F', 'A', 'N')).0.wf(),
        wave_spec(s, tag3('F', 'A', 'N')).0.pos(BOAT_OBJ) != s.pos(BOAT_OBJ),
        wave_spec(wave_spec(s, tag3('F', 'A', 'N')).0, tag3('F', 'A', 'N')).0 == s,
{
    let fan = tag3('F', 'A', 'N');
    let s1 = wave_spec(s, fan).0;
    lemma_count_update(s.positions, BOAT_OBJ as int, s1.pos(BOAT_OBJ));
    assert(wave_spec(s1, fan).0.positions =~= s.positions);
}

/// The alternate words act exactly as the tags they stand for: "SHA" as the
/// salt shaker's and "FOR" as the bottle's, whether poured, read or examined.
pub proof fn lemma_alternate_words(s: StateView, t: Tag)
    requires
        s.wf(),
    ensures
        pour_spec(s, t) == pour_spec(s, canonical(t)),
        read_text(s, t) == read_text(s, canonical(t)),
        examine_text(s, t) == examine_text(s, canonical(t)),
        pour_spec(s, tag3('S', 'H', 'A')) == pour_spec(s, tag3('S', 'A', 'L')),
        pour_spec(s, tag3('F', 'O', 'R')) == pour_spec(s, tag3('B', 'O', 'T')),
{
    assert(canonical(canonical(t)) == canonical(t));
}
} // verus!
