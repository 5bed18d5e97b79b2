use erg_eval::error::Location;
use erg_eval::pos::{loc_to_pos, loc_to_range, nth_line, pos_in_loc, pos_to_loc, Position};
use erg_eval::uri::NormalizedUrl;

#[test]
fn ranges_shift_lines_down_by_one() {
    let loc = Location::Range { ln_begin: 3, col_begin: 4, ln_end: 3, col_end: 9 };
    let r = loc_to_range(loc).unwrap();
    assert_eq!(r.start, Position { line: 2, character: 4 });
    assert_eq!(r.end, Position { line: 2, character: 9 });
    assert!(loc_to_range(Location::Unknown).is_none());
}

#[test]
fn positions_shift_columns_up_by_one() {
    let loc = Location::Range { ln_begin: 1, col_begin: 0, ln_end: 1, col_end: 2 };
    let p = loc_to_pos(loc).unwrap();
    assert_eq!(p, Position { line: 0, character: 1 });
}

#[test]
fn position_round_trips_to_a_one_line_location() {
    let loc = pos_to_loc(Position { line: 2, character: 5 });
    assert_eq!(loc, Location::Range { ln_begin: 3, col_begin: 4, ln_end: 3, col_end: 5 });
}

#[test]
fn membership_checks_columns_on_one_line() {
    let loc = Location::Range { ln_begin: 2, col_begin: 3, ln_end: 2, col_end: 6 };
    assert!(pos_in_loc(&loc, Position { line: 1, character: 3 }));
    assert!(!pos_in_loc(&loc, Position { line: 1, character: 6 }));
    let tall = Location::Range { ln_begin: 2, col_begin: 3, ln_end: 4, col_end: 0 };
    assert!(pos_in_loc(&tall, Position { line: 2, character: 99 }));
}

#[test]
fn nth_line_splits_and_strips() {
    let code = "alpha\nbeta\r\ngamma";
    assert_eq!(nth_line(code, 0), "alpha");
    assert_eq!(nth_line(code, 1), "beta");
    assert_eq!(nth_line(code, 2), "gamma");
    assert_eq!(nth_line(code, 3), "");
}

#[test]
fn uris_normalize_to_lower_case() {
    let n = NormalizedUrl::parse("file:///c%3A/Work/Main.er").unwrap();
    assert_eq!(n.as_text(), "file:///c:/work/main.er");
    let m = NormalizedUrl::parse("file:///c%3A/work/MAIN.er").unwrap();
    assert!(n.same_as(&m));
    assert!(NormalizedUrl::parse("not a uri").is_none());
}
