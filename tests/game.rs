use adventure::parser::{parser, resolve, tokenize, Action};
use adventure::state::State;
use adventure::tag::Tag;
use adventure::world::{Dir, Loc, BOAT_OBJ, GUARD, NORTH_BANK, RUBY, SOUTH_BANK, SWORD};

fn run(state: &mut State, line: &str) -> (bool, String) {
    let mut out = Vec::new();
    let go_on = parser(line, state, &mut out);
    (go_on, out.concat())
}

fn carried(state: &State) -> Vec<usize> {
    (0..state.positions.len()).filter(|&i| state.positions[i] == Loc::Carried).collect()
}

#[test]
fn new_game_shows_living_room() {
    let state = State::new_game();
    let mut out = Vec::new();
    state.look_around(&mut out);
    assert_eq!(
        out.concat(),
        "\nYOU ARE IN YOUR LIVING ROOM.\nYOU CAN GO: NORTH SOUTH EAST\nYOU CAN SEE:\n    AN OLD DIARY\n    A SMALL BOX\n"
    );
    assert_eq!(state.inventory_count(), 0);
    assert!(!state.won);
}

#[test]
fn go_north_from_start_reaches_kitchen() {
    let mut state = State::new_game();
    let (go_on, text) = run(&mut state, "GO NORTH");
    assert!(go_on);
    assert_eq!(state.here, 2);
    assert_eq!(
        text,
        "\nYOU ARE IN THE KITCHEN.\nYOU CAN GO: SOUTH\nYOU CAN SEE:\n    THERE IS NOTHING OF INTEREST HERE.\n"
    );
}

#[test]
fn go_east_from_start_reaches_front_yard() {
    let mut state = State::new_game();
    let (_, text) = run(&mut state, "E");
    assert_eq!(state.here, 4);
    assert_eq!(
        text,
        "\nYOU ARE IN THE FRONT YARD.\nYOU CAN GO: SOUTH WEST\nYOU CAN SEE:\n    A LADDER\n"
    );
    run(&mut state, "S");
    assert_eq!(state.here, 5);
}

#[test]
fn empty_room_says_nothing_of_interest() {
    let mut state = State::new_game();
    state.here = 6;
    let (_, text) = run(&mut state, "NORTH");
    assert_eq!(state.here, 9);
    assert_eq!(
        text,
        "\nYOU ARE ON A LONG, WINDING ROAD.\nYOU CAN GO: SOUTH EAST\nYOU CAN SEE:\n    THERE IS NOTHING OF INTEREST HERE.\n"
    );
}

#[test]
fn no_exit_keeps_room() {
    let mut state = State::new_game();
    state.here = 2;
    for dir in ["N", "E", "W", "U", "D", "BOARD"] {
        let (_, text) = run(&mut state, dir);
        assert_eq!(text, "YOU CAN'T GO THERE!\n");
        assert_eq!(state.here, 2);
    }
}

#[test]
fn take_diary_then_inventory() {
    let mut state = State::new_game();
    let (_, text) = run(&mut state, "TAKE DIARY");
    assert_eq!(text, "TAKEN.\n");
    let (_, text) = run(&mut state, "INVENTORY");
    assert_eq!(text, "YOU ARE CARRYING:\n    AN OLD DIARY\n");
    assert_eq!(carried(&state), vec![1]);
}

#[test]
fn empty_inventory_says_nothing() {
    let mut state = State::new_game();
    let (_, text) = run(&mut state, "I");
    assert_eq!(text, "YOU ARE CARRYING:\n    NOTHING\n");
}

#[test]
fn guard_blocks_castle() {
    let mut state = State::new_game();
    state.here = 16;
    let (_, text) = run(&mut state, "GO NORTH");
    assert_eq!(text, "THE GUARD WON'T LET YOU!\n");
    assert_eq!(state.here, 16);
}

#[test]
fn guard_retreats_before_sword() {
    let mut state = State::new_game();
    state.here = 16;
    let (_, text) = run(&mut state, "FIGHT GUARD");
    assert_eq!(text, "YOU DON'T HAVE A WEAPON!\n");
    state.positions[SWORD] = Loc::Carried;
    let (_, text) = run(&mut state, "FIGHT GUARD");
    assert_eq!(text, "THE GUARD, NOTICING YOUR SWORD,\nWISELY RETREATS INTO THE CASTLE.\n");
    assert_eq!(state.positions[GUARD], Loc::Unrevealed);
    let (_, text) = run(&mut state, "N");
    assert_eq!(state.here, 17);
    assert!(text.starts_with("\nYOU ARE IN A NARROW HALL.\nYOU CAN GO: SOUTH UP\n"));
}

#[test]
fn dig_reveals_sword_once() {
    let mut state = State::new_game();
    state.here = 6;
    state.positions[9] = Loc::Carried;
    let (_, text) = run(&mut state, "DIG");
    assert_eq!(text, "THERE'S SOMETHING THERE!\n\nYOU CAN SEE:\n    A GOLDEN SWORD\n");
    assert_eq!(state.positions[SWORD], Loc::InRoom(6));
    let (_, text) = run(&mut state, "DIG HOLE");
    assert_eq!(text, "THERE'S NOTHING ELSE THERE!\n");
}

#[test]
fn dig_needs_shovel_and_field() {
    let mut state = State::new_game();
    state.here = 6;
    assert_eq!(run(&mut state, "DIG").1, "YOU DON'T HAVE A SHOVEL!\n");
    assert_eq!(run(&mut state, "DIG TREE").1, "YOU CAN'T DIG THAT!\n");
    state.positions[9] = Loc::InRoom(6);
    assert_eq!(run(&mut state, "DIG").1, "YOU DON'T HAVE A SHOVEL!\n");
    assert_eq!(state.positions[SWORD], Loc::Unrevealed);
    state.positions[9] = Loc::Carried;
    state.here = 7;
    assert_eq!(run(&mut state, "DIG GROUND").1, "YOU DON'T FIND ANYTHING.\n");
}

#[test]
fn take_refusals() {
    let mut state = State::new_game();
    assert_eq!(run(&mut state, "GET LADDER").1, "THAT ISN'T HERE!\n");
    assert_eq!(run(&mut state, "GET XYZZY").1, "YOU CAN'T GET THAT!\n");
    assert_eq!(run(&mut state, "TAKE BOX").1, "TAKEN.\n");
    assert_eq!(run(&mut state, "TAKE BOX").1, "YOU ALREADY HAVE IT!\n");
    state.here = 3;
    assert_eq!(run(&mut state, "TAKE CABINET").1, "YOU CAN'T GET THAT!\n");
    assert_eq!(run(&mut state, "TAKE").1, "WHAT DO YOU WANT TO GET?\n");
}

#[test]
fn capacity_is_five() {
    let mut state = State::new_game();
    for i in [1, 2, 5, 8, 9] {
        state.positions[i] = Loc::Carried;
    }
    state.positions[13] = Loc::InRoom(1);
    assert_eq!(run(&mut state, "TAKE FAN").1, "YOU CAN'T CARRY ANY MORE.\n");
    assert_eq!(state.positions[13], Loc::InRoom(1));
    state.positions[9] = Loc::InRoom(1);
    assert_eq!(run(&mut state, "TAKE FAN").1, "TAKEN.\n");
    assert_eq!(state.inventory_count(), 5);
}

#[test]
fn ruby_wins_even_when_full() {
    let mut state = State::new_game();
    for i in [1, 2, 5, 8, 9] {
        state.positions[i] = Loc::Carried;
    }
    state.here = 18;
    state.positions[RUBY] = Loc::InRoom(18);
    let (go_on, text) = run(&mut state, "GET RUBY");
    assert!(go_on);
    assert_eq!(text, "");
    assert!(state.won);
    assert_eq!(state.positions[RUBY], Loc::InRoom(18));
}

#[test]
fn drop_then_take_restores_state() {
    let mut state = State::new_game();
    run(&mut state, "TAKE DIARY");
    let before = state.positions.clone();
    assert_eq!(run(&mut state, "DROP DIARY").1, "DROPPED.\n");
    assert_eq!(state.positions[1], Loc::InRoom(1));
    assert_eq!(run(&mut state, "TAKE DIARY").1, "TAKEN.\n");
    assert_eq!(state.positions, before);
    assert_eq!(run(&mut state, "DROP BOX").1, "YOU DON'T HAVE THAT!\n");
}

fn garage_with_both() -> State {
    let mut state = State::new_game();
    state.here = 5;
    state.positions[4] = Loc::Carried;
    state.positions[7] = Loc::Carried;
    state
}

const EXPLOSION: &str = "POURED!\nTHERE IS AN EXPLOSION!\nEVERYTHING GOES BLACK!\nSUDDENLY YOU ARE. . .\n. . .SOMEWHERE ELSE!\n\nYOU ARE IN AN OPEN FIELD.\n";

#[test]
fn pour_salt_then_formula() {
    let mut state = garage_with_both();
    assert_eq!(run(&mut state, "POUR SALT").1, "POURED!\n");
    assert_eq!(state.here, 5);
    assert_eq!(run(&mut state, "POUR SALT").1, "THE SALT SHAKER IS EMPTY.\n");
    let text = run(&mut state, "POUR FORMULA").1;
    assert!(text.starts_with(EXPLOSION));
    assert_eq!(state.here, 6);
    assert!(state.salted && state.formulated);
    assert_eq!(run(&mut state, "POUR BOTTLE").1, "THE BOTTLE IS EMPTY.\n");
    assert_eq!(state.here, 6);
}

#[test]
fn pour_formula_then_salt() {
    let mut state = garage_with_both();
    assert_eq!(run(&mut state, "POUR BOTTLE").1, "POURED!\n");
    assert_eq!(run(&mut state, "POUR FORMULA").1, "THE BOTTLE IS EMPTY.\n");
    let text = run(&mut state, "POUR SHAKER").1;
    assert!(text.starts_with(EXPLOSION));
    assert_eq!(state.here, 6);
}

#[test]
fn pour_refusals() {
    let mut state = garage_with_both();
    state.positions[2] = Loc::Carried;
    assert_eq!(run(&mut state, "POUR BOX").1, "YOU CAN'T POUR THAT!\n");
    assert_eq!(run(&mut state, "POUR DIARY").1, "THAT ISN'T HERE!\n");
    state.here = 1;
    assert_eq!(run(&mut state, "POUR SALT").1, "YOU CAN'T POUR THAT!\n");
    assert_eq!(run(&mut state, "POUR SHAKER").1, "YOU CAN'T POUR THAT!\n");
    assert!(!state.salted);
}

#[test]
fn shaker_pours_as_salt() {
    let mut state = garage_with_both();
    assert_eq!(run(&mut state, "POUR SHAKER").1, "POURED!\n");
    assert!(state.salted);
    assert_eq!(run(&mut state, "POUR SALT").1, "THE SALT SHAKER IS EMPTY.\n");
}

#[test]
fn case_needs_gloves() {
    let mut state = State::new_game();
    state.here = 18;
    assert_eq!(run(&mut state, "OPEN CASE").1, "THE CASE IS ELECTRIFIED!\n");
    assert_eq!(state.positions[RUBY], Loc::Unrevealed);
    state.positions[17] = Loc::Carried;
    assert_eq!(run(&mut state, "WEAR GLOVES").1, "YOU ARE NOW WEARING THE GLOVES.\n");
    assert!(state.gloved);
    assert_eq!(state.positions[17], Loc::Unrevealed);
    assert_eq!(run(&mut state, "WEAR GLOVES").1, "YOU ARE ALREADY WEARING THE RUBBER GLOVES.\n");
    assert_eq!(
        run(&mut state, "OPEN CASE").1,
        "THE GLOVES INSULATE AGAINST THE\nELECTRICITY! THE CASE OPENS!\n\nYOU CAN SEE:\n    A GLASS CASE\n    A GLOWING RUBY\n"
    );
    assert_eq!(run(&mut state, "OPEN CASE").1, "THE CASE IS ALREADY OPEN.\n");
    assert_eq!(
        run(&mut state, "INVENTORY").1,
        "YOU ARE WEARING RUBBER GLOVES.\nYOU ARE CARRYING:\n    NOTHING\n"
    );
}

#[test]
fn box_and_cabinet_open_once() {
    let mut state = State::new_game();
    assert_eq!(
        run(&mut state, "OPEN BOX").1,
        "SOMETHING FELL OUT!\n\nYOU CAN SEE:\n    AN OLD DIARY\n    A SMALL BOX\n    A SMALL BOTTLE\n"
    );
    assert_eq!(run(&mut state, "OPEN BOX").1, "THE BOX IS ALREADY OPEN.\n");
    assert_eq!(run(&mut state, "OPEN DIARY").1, "YOU CAN'T OPEN THAT!\n");
    state.here = 3;
    assert_eq!(
        run(&mut state, "OPEN CABINET").1,
        "THERE'S SOMETHING INSIDE!\n\nYOU CAN SEE:\n    A CABINET\n    A SALT SHAKER\n    A DICTIONARY\n"
    );
    assert_eq!(run(&mut state, "OPEN CAB").1, "THE CABINET IS ALREADY OPEN.\n");
}

#[test]
fn wave_fan_twice_returns_boat() {
    let mut state = State::new_game();
    state.here = 12;
    state.positions[13] = Loc::Carried;
    assert_eq!(run(&mut state, "WAVE FAN").1, "YOU FEEL A REFRESHING BREEZE!\n");
    run(&mut state, "BOARD BOAT");
    assert_eq!(state.here, 13);
    assert_eq!(run(&mut state, "WAVE FAN").1, "A POWERFUL BREEZE PROPELS THE BOAT\nTO THE OPPOSITE SHORE!\n");
    assert_eq!(state.positions[BOAT_OBJ], Loc::Fixed(NORTH_BANK));
    run(&mut state, "WAVE FAN");
    assert_eq!(state.positions[BOAT_OBJ], Loc::Fixed(SOUTH_BANK));
    assert_eq!(run(&mut state, "WAVE BOX").1, "YOU CAN'T WAVE THAT!\n");
    state.positions[13] = Loc::InRoom(13);
    assert_eq!(run(&mut state, "WAVE FAN").1, "YOU DON'T HAVE A FAN!\n");
    assert_eq!(state.positions[BOAT_OBJ], Loc::Fixed(SOUTH_BANK));
}

#[test]
fn leave_boat_at_its_bank() {
    let mut state = State::new_game();
    state.here = 13;
    state.positions[BOAT_OBJ] = Loc::Fixed(NORTH_BANK);
    assert_eq!(run(&mut state, "ROW").1, "YOU DON'T HAVE AN OAR!\n");
    assert_eq!(run(&mut state, "ROW DIARY").1, "HOW CAN YOU ROW THAT?\n");
    assert_eq!(run(&mut state, "LEAVE HOUSE").1, "HUH?\n");
    let text = run(&mut state, "EXIT").1;
    assert_eq!(state.here, 14);
    assert!(text.starts_with("\nYOU ARE ON THE NORTH BANK OF A RIVER.\n"));
    assert_eq!(run(&mut state, "LEAVE").1, "PLEASE GIVE A DIRECTION!\n");
    assert_eq!(run(&mut state, "ROW BOAT").1, "YOU'RE NOT IN A BOAT!\n");
}

#[test]
fn jump_climbs_tree() {
    let mut state = State::new_game();
    assert_eq!(run(&mut state, "JUMP").1, "WHEE! THAT WAS FUN!\n");
    state.here = 7;
    let text = run(&mut state, "JUMP UP").1;
    assert!(text.starts_with("YOU GRAB THE LOWEST BRANCH OF THE\nTREE AND PULL YOURSELF UP. . . .\n\nYOU ARE ON A BRANCH OF A TREE.\n"));
    assert_eq!(state.here, 8);
    run(&mut state, "JUMP");
    assert_eq!(state.here, 19);
}

#[test]
fn climb_ladder_sinks_at_forest() {
    let mut state = State::new_game();
    state.positions[8] = Loc::Carried;
    assert_eq!(run(&mut state, "CLIMB LADDER").1, "WHATEVER FOR?\n");
    state.here = 7;
    assert_eq!(run(&mut state, "CLIMB TREE").1, "YOU CAN'T REACH THE BRANCHES!\n");
    assert_eq!(
        run(&mut state, "CLIMB LADDER").1,
        "THE LADDER SINKS UNDER YOUR WEIGHT!\nIT DISAPPEARS INTO THE GROUND!\n"
    );
    assert_eq!(state.positions[8], Loc::Unrevealed);
    assert_eq!(run(&mut state, "CLIMB LADDER").1, "IT WON'T DO ANY GOOD.\n");
}

#[test]
fn ladder_on_the_ground_cannot_be_climbed() {
    let mut state = State::new_game();
    state.here = 7;
    state.positions[8] = Loc::InRoom(7);
    assert_eq!(run(&mut state, "CLIMB LADDER").1, "IT WON'T DO ANY GOOD.\n");
    assert_eq!(state.positions[8], Loc::InRoom(7));
}

#[test]
fn examine_and_read() {
    let mut state = State::new_game();
    assert_eq!(run(&mut state, "EXAMINE GROUND").1, "IT LOOKS LIKE GROUND!\n");
    assert_eq!(run(&mut state, "LOOK DIARY").1, "YOU SEE NOTHING UNUSUAL.\n");
    assert_eq!(run(&mut state, "EXAMINE LADDER").1, "THAT ISN'T HERE!\n");
    assert_eq!(
        run(&mut state, "READ DIARY").1,
        "IT SAYS: 'ADD SODIUM CHLORIDE PLUS THE\nFORMULA TO RAINWATER, TO REACH THE\nOTHER WORLD.'\n"
    );
    assert_eq!(run(&mut state, "READ BOX").1, "YOU CAN'T READ THAT!\n");
    state.positions[7] = Loc::Carried;
    assert_eq!(run(&mut state, "READ FORMULA").1, "IT READS: 'SECRET FORMULA'.\n");
    assert_eq!(run(&mut state, "EXAMINE FORMULA").1, "THERE'S SOMETHING WRITTEN ON IT!\n");
    state.here = 6;
    assert_eq!(run(&mut state, "EXAMINE GROUND").1, "IT LOOKS LIKE SOMETHING'S BURIED HERE.\n");
    state.positions[SWORD] = Loc::InRoom(6);
    assert_eq!(run(&mut state, "EXAMINE GROUND").1, "THERE'S A HOLE HERE.\n");
    state.here = 5;
    assert_eq!(run(&mut state, "EXAMINE BARREL").1, "IT'S FILLED WITH RAINWATER.\n");
}

#[test]
fn parser_edges() {
    let mut state = State::new_game();
    assert_eq!(run(&mut state, "   "), (true, String::new()));
    assert_eq!(run(&mut state, "QUIT"), (false, String::new()));
    assert_eq!(run(&mut state, "GO").1, "GO WHERE?\n");
    assert_eq!(run(&mut state, "GO HOME").1, "I DON'T KNOW HOW TO DO THAT.\n");
    assert_eq!(run(&mut state, "XYZZY").1, "I DON'T KNOW HOW TO DO THAT.\n");
    assert_eq!(run(&mut state, "TAKE THE DIARY").1, "I DON'T KNOW HOW TO DO THAT.\n");
    assert_eq!(run(&mut state, "WEAR").1, "WHAT DO YOU WANT TO WEAR?\n");
    assert_eq!(run(&mut state, "WEAR HAT").1, "YOU CAN'T WEAR THAT!\n");
    assert_eq!(run(&mut state, "FIGHT").1, "WHOM DO YOU WANT TO FIGHT?\n");
    assert_eq!(run(&mut state, "FIGHT DRAGON").1, "YOU CAN'T FIGHT THEM!\n");
    assert_eq!(run(&mut state, "FIGHT GUARD").1, "THERE'S NO GUARD HERE!\n");
    assert_eq!(run(&mut state, "take diary\n").1, "TAKEN.\n");
}

#[test]
fn tokenize_truncates_and_uppercases() {
    let tags = tokenize("  go\tNorthward  now ");
    assert_eq!(tags, vec![Tag::of("GO"), Tag::of("NOR"), Tag::of("NOW")]);
    assert_eq!(Tag::of("shovel"), Tag::of("SHO"));
    assert_eq!(Tag::of("up").len, 2);
    assert!(matches!(resolve(&tags), Action::Move(Dir::N)));
    assert!(matches!(resolve(&tokenize("OPEN THE BOX")), Action::Unknown));
    assert!(matches!(resolve(&tokenize("GO UP")), Action::Move(Dir::U)));
    assert_eq!(Dir::parse(Tag::of("DOWN")), Some(Dir::D));
    assert_eq!(Dir::parse(Tag::of("BOAT")), Some(Dir::Boat));
    assert_eq!(Dir::parse(Tag::of("GO")), None);
}

#[test]
fn lookup_maps_alternate_words() {
    let state = State::new_game();
    assert_eq!(state.lookup_object(Tag::of("SHA")), Some((4, Loc::Unrevealed)));
    assert_eq!(state.lookup_object(Tag::of("FOR")), Some((7, Loc::Unrevealed)));
    assert_eq!(state.lookup_object(Tag::of("DIA")), Some((1, Loc::InRoom(1))));
    assert_eq!(state.lookup_object(Tag::of("ZZZ")), None);
    assert!(state.is_object_here(Tag::of("BOX")));
    assert!(!state.is_object_here(Tag::of("LAD")));
}
