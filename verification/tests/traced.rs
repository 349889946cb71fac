use traced::err::anyway;
use traced::Location;
use traced::Maybe;
use traced::OptNone;
use traced::Traced;
use traced::IF;

fn at(file: &str, line: u64, col: u64) -> Location {
    Location { file: file.to_string(), line, col }
}

#[test]
fn wrap_fresh_records_one_location_and_the_text() {
    let t = Traced::wrap_fresh(OptNone, at("leaf.rs", 10, 4));
    assert_eq!(t.locations().len(), 1);
    assert_eq!(t.locations()[0].file, "leaf.rs");
    assert_eq!(t.locations()[0].line, 10);
    assert_eq!(t.locations()[0].col, 4);
    assert_eq!(t.source().message(), "None");
}

#[test]
fn append_location_grows_trail_and_keeps_original() {
    let t = anyway("broken".to_string(), at("a.rs", 1, 1));
    let before = std::ptr::from_ref(t.source()) as usize;
    let k = t.locations().len();
    let t = t.append_location(at("b.rs", 2, 2));
    assert_eq!(t.locations().len(), k + 1);
    assert_eq!(t.source().message(), "broken");
    let after = std::ptr::from_ref(t.source()) as usize;
    assert_eq!(before, after);
}

#[test]
fn original_identity_stable_across_many_propagations() {
    let mut m: Maybe<u32, Traced> = Maybe::X(anyway("deep".to_string(), at("a.rs", 1, 1)));
    let first = match &m {
        Maybe::X(t) => std::ptr::from_ref(t.source()) as usize,
        Maybe::O(_) => panic!("expected failure"),
    };
    for i in 0..50u64 {
        m = m.retrace(at("hop.rs", i + 2, 1));
    }
    let t = m.unwrap_err();
    assert_eq!(t.locations().len(), 51);
    assert_eq!(t.source().message(), "deep");
    let last = std::ptr::from_ref(t.source()) as usize;
    assert_eq!(first, last);
}

#[test]
fn render_lists_locations_newest_first() {
    let t = anyway("boom".to_string(), at("a.rs", 1, 2));
    let t = t.append_location(at("b.rs", 3, 4));
    let t = t.append_location(at("c.rs", 5, 6));
    assert_eq!(t.render(), "boom\nc.rs:5:6\nb.rs:3:4\na.rs:1:2\n");
}

#[test]
fn render_formats_decimal_edges() {
    let t = anyway("n".to_string(), at("z.rs", 0, 18446744073709551615));
    assert_eq!(t.render(), "n\nz.rs:0:18446744073709551615\n");

    let t = anyway("n".to_string(), at("z.rs", 1000007, 10));
    assert_eq!(t.render(), "n\nz.rs:1000007:10\n");
}

#[test]
fn render_of_empty_message() {
    let t = anyway(String::new(), at("e.rs", 1, 1));
    assert_eq!(t.render(), "\ne.rs:1:1\n");
    assert_eq!(t.source().message(), "");
}

#[test]
fn trace_wraps_fresh_error_once() {
    let m: Maybe<u32, OptNone> = Maybe::X(OptNone);
    let r = m.trace(at("edge.rs", 7, 3));
    let t = r.unwrap_err();
    assert_eq!(t.locations().len(), 1);
    assert_eq!(t.render(), "None\nedge.rs:7:3\n");
}

#[test]
fn retrace_only_appends() {
    let m: Maybe<u32, OptNone> = Maybe::X(OptNone);
    let r = m.trace(at("edge.rs", 7, 3)).retrace(at("caller.rs", 9, 1));
    let t = r.unwrap_err();
    assert_eq!(t.locations().len(), 2);
    assert_eq!(t.render(), "None\ncaller.rs:9:1\nedge.rs:7:3\n");
}
