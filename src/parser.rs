use vstd::prelude::*;
use vstd::string::StringSliceAdditionalSpecFns;
use crate::tag::{is_space, tag1, tag2, tag3, tag_of_word, Tag};
use crate::state::{inventory_text, look_text, State, StateView};
use crate::actions::{
    climb_spec, dig_spec, drop_spec, examine_text, fight_spec, follows, go_spec, leave_spec,
    open_spec, pick_up_spec, pour_spec, read_text, row_text, unchanged, wave_spec, wear_spec, Step,
};
use crate::world::Dir;

verus! {

/// Splits `b` at whitespace, left to right: the words completed so far and the
/// word in progress.
pub open spec fn scan(b: Seq<u8>) -> (Seq<Seq<u8>>, Seq<u8>)
    decreases b.len(),
{
    if b.len() == 0 {
        (seq![], seq![])
    } else {
        let (ws, cur) = scan(b.drop_last());
        if is_space(b.last()) {
            if cur.len() > 0 { (ws.push(cur), seq![]) } else { (ws, seq![]) }
        } else {
            (ws, cur.push(b.last()))
        }
    }
}

/// The whitespace-separated words of `b`.
pub open spec fn words(b: Seq<u8>) -> Seq<Seq<u8>> {
    let (ws, cur) = scan(b);
    if cur.len() > 0 { ws.push(cur) } else { ws }
}

/// The tags of the words of `b`.
pub open spec fn tags_of(b: Seq<u8>) -> Seq<Tag> {
    words(b).map_values(|w: Seq<u8>| tag_of_word(w))
}

pub fn is_space_byte(c: u8) -> (r: bool)
    ensures
        r == is_space(c),
{
    c == 32 || c == 9 || c == 10 || c == 12 || c == 13
}

/// Splits a line into words and keeps the tag of each.
pub fn tokenize(input: &str) -> (v: Vec<Tag>)
    ensures
        v@ == tags_of(input.spec_bytes()),
{
    let b = input.as_bytes();
    let ghost bs = b@;
    let mut v: Vec<Tag> = Vec::new();
    let mut start: usize = 0;
    let mut i: usize = 0;
    while i < b.len()
        invariant
            bs == b@,
            start <= i <= b@.len(),
            scan(bs.take(i as int)).1 == bs.subrange(start as int, i as int),
            v@ == scan(bs.take(i as int)).0.map_values(|w: Seq<u8>| tag_of_word(w)),
        decreases b@.len() - i,
    {
        let ghost prev = scan(bs.take(i as int));
        assert(bs.take(i + 1).drop_last() =~= bs.take(i as int));
        assert(bs.take(i + 1).last() == bs[i as int]);
        if is_space_byte(b[i]) {
            if start < i {
                let t = Tag::of_range(b, start, i);
                v.push(t);
                assert(prev.0.push(prev.1).map_values(|w: Seq<u8>| tag_of_word(w))
                    =~= prev.0.map_values(|w: Seq<u8>| tag_of_word(w)).push(tag_of_word(prev.1)));
            }
            start = i + 1;
        } else {
            assert(prev.1.push(bs[i as int]) =~= bs.subrange(start as int, i + 1));
        }
        i = i + 1;
        assert(scan(bs.take(i as int)).1 =~= bs.subrange(start as int, i as int));
    }
    assert(bs.take(i as int) =~= bs);
    if start < i {
        let ghost prev = scan(bs);
        let t = Tag::of_range(b, start, i);
        v.push(t);
        assert(prev.0.push(prev.1).map_values(|w: Seq<u8>| tag_of_word(w))
            =~= prev.0.map_values(|w: Seq<u8>| tag_of_word(w)).push(tag_of_word(prev.1)));
    }
    v
}

/// The direction words, and boarding the boat.
pub open spec fn dir_of(t: Tag) -> Option<Dir> {
    if t == tag1('N') || t == tag3('N', 'O', 'R') {
        Some(Dir::N)
    } else if t == tag1('S') || t == tag3('S', 'O', 'U') {
        Some(Dir::S)
    } else if t == tag1('E') || t == tag3('E', 'A', 'S') {
        Some(Dir::E)
    } else if t == tag1('W') || t == tag3('W', 'E', 'S') {
        Some(Dir::W)
    } else if t == tag1('U') || t == tag2('U', 'P') {
        Some(Dir::U)
    } else if t == tag1('D') || t == tag3('D', 'O', 'W') {
        Some(Dir::D)
    } else if t == tag3('B', 'O', 'A') {
        Some(Dir::Boat)
    } else {
        None
    }
}

impl Dir {
    pub fn parse(tag: Tag) -> (d: Option<Dir>)
        ensures
            d == dir_of(tag),
    {
        if tag.is1('N') || tag.is3('N', 'O', 'R') {
            Some(Dir::N)
        } else if tag.is1('S') || tag.is3('S', 'O', 'U') {
            Some(Dir::S)
        } else if tag.is1('E') || tag.is3('E', 'A', 'S') {
            Some(Dir::E)
        } else if tag.is1('W') || tag.is3('W', 'E', 'S') {
            Some(Dir::W)
        } else if tag.is1('U') || tag.is2('U', 'P') {
            Some(Dir::U)
        } else if tag.is1('D') || tag.is3('D', 'O', 'W') {
            Some(Dir::D)
        } else if tag.is3('B', 'O', 'A') {
            Some(Dir::Boat)
        } else {
            None
        }
    }
}

/// One resolved command.
#[derive(Clone, Copy, Debug)]
pub enum Action {
    /// An empty line.
    Nothing,
    Quit,
    Inventory,
    Look,
    Move(Dir),
    /// "GO" with nowhere to go.
    GoWhere,
    /// A verb that needs an object, given none; holds the word to ask with.
    Missing(&'static str),
    Examine(Tag),
    Take(Tag),
    Drop(Tag),
    Open(Tag),
    Read(Tag),
    Pour(Tag),
    Climb(Tag),
    Wave(Tag),
    Jump,
    Dig(Tag),
    Row,
    RowOther,
    Leave(Tag),
    FightWhom,
    FightGuard,
    FightOther,
    WearGloves,
    WearOther,
    Unknown,
}

/// A verb on its own.
pub open spec fn verb_alone(v: Tag) -> Action {
    if v == tag1('Q') || v == tag3('Q', 'U', 'I') {
        Action::Quit
    } else if v == tag1('I') || v == tag3('I', 'N', 'V') {
        Action::Inventory
    } else if v == tag1('L') || v == tag3('L', 'O', 'O') {
        Action::Look
    } else if v == tag2('G', 'O') {
        Action::GoWhere
    } else if v == tag3('E', 'X', 'A') {
        Action::Missing("EXAMINE")
    } else if v == tag3('G', 'E', 'T') || v == tag3('T', 'A', 'K') {
        Action::Missing("GET")
    } else if v == tag3('D', 'R', 'O') {
        Action::Missing("DROP")
    } else if v == tag3('O', 'P', 'E') {
        Action::Missing("OPEN")
    } else if v == tag3('R', 'E', 'A') {
        Action::Missing("READ")
    } else if v == tag3('P', 'O', 'U') {
        Action::Missing("POUR")
    } else if v == tag3('C', 'L', 'I') {
        Action::Missing("CLIMB")
    } else if v == tag3('W', 'A', 'V') {
        Action::Missing("WAVE")
    } else if v == tag3('J', 'U', 'M') {
        Action::Jump
    } else if v == tag3('D', 'I', 'G') {
        Action::Dig(tag3('G', 'R', 'O'))
    } else if v == tag3('R', 'O', 'W') {
        Action::Row
    } else if v == tag3('L', 'E', 'A') || v == tag3('E', 'X', 'I') {
        Action::Leave(tag3('B', 'O', 'A'))
    } else if v == tag3('F', 'I', 'G') {
        Action::FightWhom
    } else if v == tag3('W', 'E', 'A') {
        Action::Missing("WEAR")
    } else {
        Action::Unknown
    }
}

/// A verb with one object.
pub open spec fn verb_with(v: Tag, o: Tag) -> Action {
    if v == tag3('E', 'X', 'A') || v == tag3('L', 'O', 'O') {
        Action::Examine(o)
    } else if v == tag3('G', 'E', 'T') || v == tag3('T', 'A', 'K') {
        Action::Take(o)
    } else if v == tag3('D', 'R', 'O') {
        Action::Drop(o)
    } else if v == tag3('O', 'P', 'E') {
        Action::Open(o)
    } else if v == tag3('R', 'E', 'A') {
        Action::Read(o)
    } else if v == tag3('P', 'O', 'U') {
        Action::Pour(o)
    } else if v == tag3('C', 'L', 'I') {
        Action::Climb(o)
    } else if v == tag3('W', 'A', 'V') {
        Action::Wave(o)
    } else if v == tag3('J', 'U', 'M') {
        Action::Jump
    } else if v == tag3('D', 'I', 'G') {
        Action::Dig(o)
    } else if v == tag3('R', 'O', 'W') {
        if o == tag3('B', 'O', 'A') { Action::Row } else { Action::RowOther }
    } else if v == tag3('L', 'E', 'A') || v == tag3('E', 'X', 'I') {
        Action::Leave(o)
    } else if v == tag3('F', 'I', 'G') {
        if o == tag3('G', 'U', 'A') { Action::FightGuard } else { Action::FightOther }
    } else if v == tag3('W', 'E', 'A') {
        if o == tag3('G', 'L', 'O') { Action::WearGloves } else { Action::WearOther }
    } else {
        Action::Unknown
    }
}

/// The command that a line's tags stand for. Movement comes first, with or
/// without "GO"; then the verb table, by the number of words.
pub open spec fn action_of(t: Seq<Tag>) -> Action {
    if t.len() == 0 {
        Action::Nothing
    } else {
        let d = if t.len() > 1 && t[0] == tag2('G', 'O') { t[1] } else { t[0] };
        match dir_of(d) {
            Some(dir) => Action::Move(dir),
            None => if t.len() == 1 {
                verb_alone(t[0])
            } else if t.len() == 2 {
                verb_with(t[0], t[1])
            } else {
                Action::Unknown
            },
        }
    }
}

fn verb_alone_of(v: Tag) -> (a: Action)
    ensures
        a == verb_alone(v),
{
    if v.is1('Q') || v.is3('Q', 'U', 'I') {
        Action::Quit
    } else if v.is1('I') || v.is3('I', 'N', 'V') {
        Action::Inventory
    } else if v.is1('L') || v.is3('L', 'O', 'O') {
        Action::Look
    } else if v.is2('G', 'O') {
        Action::GoWhere
    } else if v.is3('E', 'X', 'A') {
        Action::Missing("EXAMINE")
    } else if v.is3('G', 'E', 'T') || v.is3('T', 'A', 'K') {
        Action::Missing("GET")
    } else if v.is3('D', 'R', 'O') {
        Action::Missing("DROP")
    } else if v.is3('O', 'P', 'E') {
        Action::Missing("OPEN")
    } else if v.is3('R', 'E', 'A') {
        Action::Missing("READ")
    } else if v.is3('P', 'O', 'U') {
        Action::Missing("POUR")
    } else if v.is3('C', 'L', 'I') {
        Action::Missing("CLIMB")
    } else if v.is3('W', 'A', 'V') {
        Action::Missing("WAVE")
    } else if v.is3('J', 'U', 'M') {
        Action::Jump
    } else if v.is3('D', 'I', 'G') {
        Action::Dig(Tag { len: 3, b0: 'G' as u8, b1: 'R' as u8, b2: 'O' as u8 })
    } else if v.is3('R', 'O', 'W') {
        Action::Row
    } else if v.is3('L', 'E', 'A') || v.is3('E', 'X', 'I') {
        Action::Leave(Tag { len: 3, b0: 'B' as u8, b1: 'O' as u8, b2: 'A' as u8 })
    } else if v.is3('F', 'I', 'G') {
        Action::FightWhom
    } else if v.is3('W', 'E', 'A') {
        Action::Missing("WEAR")
    } else {
        Action::Unknown
    }
}

fn verb_with_of(v: Tag, o: Tag) -> (a: Action)
    ensures
        a == verb_with(v, o),
{
    if v.is3('E', 'X', 'A') || v.is3('L', 'O', 'O') {
        Action::Examine(o)
    } else if v.is3('G', 'E', 'T') || v.is3('T', 'A', 'K') {
        Action::Take(o)
    } else if v.is3('D', 'R', 'O') {
        Action::Drop(o)
    } else if v.is3('O', 'P', 'E') {
        Action::Open(o)
    } else if v.is3('R', 'E', 'A') {
        Action::Read(o)
    } else if v.is3('P', 'O', 'U') {
        Action::Pour(o)
    } else if v.is3('C', 'L', 'I') {
        Action::Climb(o)
    } else if v.is3('W', 'A', 'V') {
        Action::Wave(o)
    } else if v.is3('J', 'U', 'M') {
        Action::Jump
    } else if v.is3('D', 'I', 'G') {
        Action::Dig(o)
    } else if v.is3('R', 'O', 'W') {
        if o.is3('B', 'O', 'A') { Action::Row } else { Action::RowOther }
    } else if v.is3('L', 'E', 'A') || v.is3('E', 'X', 'I') {
        Action::Leave(o)
    } else if v.is3('F', 'I', 'G') {
        if o.is3('G', 'U', 'A') { Action::FightGuard } else { Action::FightOther }
    } else if v.is3('W', 'E', 'A') {
        if o.is3('G', 'L', 'O') { Action::WearGloves } else { Action::WearOther }
    } else {
        Action::Unknown
    }
}

/// Resolves a line's tags to a command.
pub fn resolve(tags: &Vec<Tag>) -> (a: Action)
    ensures
        a == action_of(tags@),
{
    if tags.len() == 0 {
        return Action::Nothing;
    }
    let d = if tags.len() > 1 && tags[0].is2('G', 'O') { tags[1] } else { tags[0] };
    match Dir::parse(d) {
        Some(dir) => Action::Move(dir),
        None => if tags.len() == 1 {
            verb_alone_of(tags[0])
        } else if tags.len() == 2 {
            verb_with_of(tags[0], tags[1])
        } else {
            Action::Unknown
        },
    }
}

/// What a command does to the state, and the text it prints.
pub open spec fn perform_spec(s: StateView, a: Action) -> Step {
    match a {
        Action::Nothing => unchanged(s, seq![]),
        Action::Quit => unchanged(s, seq![]),
        Action::Inventory => unchanged(s, inventory_text(s)),
        Action::Look => unchanged(s, look_text(s)),
        Action::Move(d) => go_spec(s, d),
        Action::GoWhere => unchanged(s, seq!["GO WHERE?\n"]),
        Action::Missing(v) => unchanged(s, seq!["WHAT DO YOU WANT TO ", v, "?\n"]),
        Action::Examine(o) => unchanged(s, examine_text(s, o)),
        Action::Take(o) => pick_up_spec(s, o),
        Action::Drop(o) => drop_spec(s, o),
        Action::Open(o) => open_spec(s, o),
        Action::Read(o) => unchanged(s, read_text(s, o)),
        Action::Pour(o) => pour_spec(s, o),
        Action::Climb(o) => climb_spec(s, o),
        Action::Wave(o) => wave_spec(s, o),
        Action::Jump => crate::actions::jump_spec(s),
        Action::Dig(o) => dig_spec(s, o),
        Action::Row => unchanged(s, row_text(s)),
        Action::RowOther => unchanged(s, seq!["HOW CAN YOU ROW THAT?\n"]),
        Action::Leave(o) => leave_spec(s, o),
        Action::FightWhom => unchanged(s, seq!["WHOM DO YOU WANT TO FIGHT?\n"]),
        Action::FightGuard => fight_spec(s),
        Action::FightOther => unchanged(s, seq!["YOU CAN'T FIGHT THEM!\n"]),
        Action::WearGloves => wear_spec(s),
        Action::WearOther => unchanged(s, seq!["YOU CAN'T WEAR THAT!\n"]),
        Action::Unknown => unchanged(s, seq!["I DON'T KNOW HOW TO DO THAT.\n"]),
    }
}

impl State {
    /// Carries out one command; false when the player quits.
    pub fn perform(&mut self, a: Action, out: &mut Vec<&'static str>) -> (go_on: bool)
        requires
            old(self).wf(),
        ensures
            final(self).wf(),
            go_on == !(a is Quit),
            follows(old(self)@, old(out)@, perform_spec(old(self)@, a), final(self)@, final(out)@),
    {
        match a {
            Action::Nothing => {},
            Action::Quit => {
                return false;
            },
            Action::Inventory => self.inventory(out),
            Action::Look => self.look_around(out),
            Action::Move(d) => self.go(d, out),
            Action::GoWhere => out.push("GO WHERE?\n"),
            Action::Missing(v) => {
                out.push("WHAT DO YOU WANT TO ");
                out.push(v);
                out.push("?\n");
            },
            Action::Examine(o) => self.examine(o, out),
            Action::Take(o) => self.pick_up(o, out),
            Action::Drop(o) => self.drop(o, out),
            Action::Open(o) => self.open(o, out),
            Action::Read(o) => self.read(o, out),
            Action::Pour(o) => self.pour(o, out),
            Action::Climb(o) => self.climb(o, out),
            Action::Wave(o) => self.wave(o, out),
            Action::Jump => self.jump(out),
            Action::Dig(o) => self.dig(o, out),
            Action::Row => self.row_boat(out),
            Action::RowOther => out.push("HOW CAN YOU ROW THAT?\n"),
            Action::Leave(o) => self.leave(o, out),
            Action::FightWhom => out.push("WHOM DO YOU WANT TO FIGHT?\n"),
            Action::FightGuard => self.fight_guard(out),
            Action::FightOther => out.push("YOU CAN'T FIGHT THEM!\n"),
            Action::WearGloves => self.wear_gloves(out),
            Action::WearOther => out.push("YOU CAN'T WEAR THAT!\n"),
            Action::Unknown => out.push("I DON'T KNOW HOW TO DO THAT.\n"),
        }
        true
    }
}

/// Reads one line of input and carries it out. Returns false when the player quits.
pub fn parser(input: &str, state: &mut State, out: &mut Vec<&'static str>) -> (go_on: bool)
    requires
        old(state).wf(),
    ensures
        final(state).wf(),
        go_on == !(action_of(tags_of(input.spec_bytes())) is Quit),
        follows(
            old(state)@,
            old(out)@,
            perform_spec(old(state)@, action_of(tags_of(input.spec_bytes()))),
            final(state)@,
            final(out)@,
        ),
{
    let tags = tokenize(input);
    let a = resolve(&tags);
    state.perform(a, out)
}

} // verus!
