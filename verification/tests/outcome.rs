use traced::err::anyway;
use traced::err::convert;
use traced::CertainResult;
use traced::Convertible;
use traced::Location;
use traced::Maybe;
use traced::OptNone;
use traced::Traced;
use traced::IF;

fn at(file: &str, line: u64, col: u64) -> Location {
    Location { file: file.to_string(), line, col }
}

#[test]
fn predicates_and_extractors() {
    let ok: Maybe<u32, u32> = Maybe::O(7);
    let err: Maybe<u32, u32> = Maybe::X(9);
    assert!(ok.is_ok());
    assert!(!ok.is_err());
    assert!(err.is_err());
    assert!(!err.is_ok());

    let ok: Maybe<u32, u32> = Maybe::O(7);
    let err: Maybe<u32, u32> = Maybe::X(9);
    assert_eq!(ok.ok(), Some(7));
    assert_eq!(err.ok(), None);
    let ok: Maybe<u32, u32> = Maybe::O(7);
    let err: Maybe<u32, u32> = Maybe::X(9);
    assert_eq!(ok.err(), None);
    assert_eq!(err.err(), Some(9));
}

#[test]
fn predicate_closures() {
    let ok: Maybe<u32, u32> = Maybe::O(6);
    assert!(ok.is_ok_and(|x| x % 2 == 0));
    let ok: Maybe<u32, u32> = Maybe::O(5);
    assert!(!ok.is_ok_and(|x| x % 2 == 0));
    let err: Maybe<u32, u32> = Maybe::X(3);
    assert!(!err.is_ok_and(|_| true));
    let err: Maybe<u32, u32> = Maybe::X(3);
    assert!(err.is_err_and(|e| e == 3));
    let ok: Maybe<u32, u32> = Maybe::O(3);
    assert!(!ok.is_err_and(|_| true));
}

#[test]
fn map_family() {
    let ok: Maybe<u32, u32> = Maybe::O(10);
    assert_eq!(ok.map(|x| x + 1).unwrap(), 11);
    let err: Maybe<u32, u32> = Maybe::X(4);
    assert_eq!(err.map(|x| x + 1).unwrap_err(), 4);

    let ok: Maybe<u32, u32> = Maybe::O(10);
    assert_eq!(ok.map_or(0, |x| x * 2), 20);
    let err: Maybe<u32, u32> = Maybe::X(4);
    assert_eq!(err.map_or(0, |x| x * 2), 0);

    let ok: Maybe<u32, u32> = Maybe::O(10);
    assert_eq!(ok.map_or_else(|e| e + 100, |x| x * 2), 20);
    let err: Maybe<u32, u32> = Maybe::X(4);
    assert_eq!(err.map_or_else(|e| e + 100, |x| x * 2), 104);

    let ok: Maybe<u32, u32> = Maybe::O(10);
    assert_eq!(ok.map_or_default(|x| x * 2), 20);
    let err: Maybe<u32, u32> = Maybe::X(4);
    assert_eq!(err.map_or_default(|x| x * 2), 0);

    let ok: Maybe<u32, u32> = Maybe::O(10);
    assert_eq!(ok.map_err(|e| e + 1).unwrap(), 10);
    let err: Maybe<u32, u32> = Maybe::X(4);
    assert_eq!(err.map_err(|e| e + 1).unwrap_err(), 5);
}

#[test]
fn inspect_family() {
    let mut seen: u32 = 0;
    let ok: Maybe<u32, u32> = Maybe::O(10);
    let back = ok.inspect(|x| seen = *x);
    assert_eq!(seen, 10);
    assert_eq!(back.unwrap(), 10);

    let mut seen_err: u32 = 0;
    let err: Maybe<u32, u32> = Maybe::X(4);
    let back = err.inspect_err(|e| seen_err = *e);
    assert_eq!(seen_err, 4);
    assert_eq!(back.unwrap_err(), 4);
}

#[test]
fn unwrap_family() {
    let ok: Maybe<u32, u32> = Maybe::O(8);
    assert_eq!(ok.unwrap(), 8);
    let ok: Maybe<u32, u32> = Maybe::O(8);
    assert_eq!(ok.expect("present"), 8);
    let err: Maybe<u32, u32> = Maybe::X(2);
    assert_eq!(err.unwrap_err(), 2);
    let err: Maybe<u32, u32> = Maybe::X(2);
    assert_eq!(err.expect_err("absent"), 2);
    let err: Maybe<u32, u32> = Maybe::X(2);
    assert_eq!(err.unwrap_or(99), 99);
    let ok: Maybe<u32, u32> = Maybe::O(8);
    assert_eq!(ok.unwrap_or(99), 8);
    let err: Maybe<u32, u32> = Maybe::X(2);
    assert_eq!(err.unwrap_or_else(|e| e + 1), 3);
    let ok: Maybe<u32, u32> = Maybe::O(8);
    assert_eq!(ok.unwrap_or_else(|e| e + 1), 8);
    let err: Maybe<u32, u32> = Maybe::X(2);
    assert_eq!(err.unwrap_or_default(), 0);
    let ok: Maybe<u32, u32> = Maybe::O(8);
    assert_eq!(ok.unwrap_or_default(), 8);
    let ok: Maybe<u32, u32> = Maybe::O(8);
    assert_eq!(ok.into_ok(), 8);
    let err: Maybe<u32, u32> = Maybe::X(2);
    assert_eq!(err.into_err(), 2);
}

#[test]
fn and_or_family() {
    let ok: Maybe<u32, u32> = Maybe::O(1);
    assert_eq!(ok.and(Maybe::<u32, u32>::O(2)).unwrap(), 2);
    let err: Maybe<u32, u32> = Maybe::X(3);
    assert_eq!(err.and(Maybe::<u32, u32>::O(2)).unwrap_err(), 3);

    let ok: Maybe<u32, u32> = Maybe::O(1);
    assert_eq!(ok.and_then(|x| Maybe::<u32, u32>::O(x + 1)).unwrap(), 2);
    let err: Maybe<u32, u32> = Maybe::X(3);
    assert_eq!(err.and_then(|x| Maybe::<u32, u32>::O(x + 1)).unwrap_err(), 3);

    let ok: Maybe<u32, u32> = Maybe::O(1);
    assert_eq!(ok.or(Maybe::<u32, u32>::O(5)).unwrap(), 1);
    let err: Maybe<u32, u32> = Maybe::X(3);
    assert_eq!(err.or(Maybe::<u32, u32>::O(5)).unwrap(), 5);

    let ok: Maybe<u32, u32> = Maybe::O(1);
    assert_eq!(ok.or_else(|e| Maybe::<u32, u32>::X(e + 1)).unwrap(), 1);
    let err: Maybe<u32, u32> = Maybe::X(3);
    assert_eq!(err.or_else(|e| Maybe::<u32, u32>::X(e + 1)).unwrap_err(), 4);
}

#[test]
fn borrowed_views() {
    let ok: Maybe<u32, u32> = Maybe::O(5);
    match ok.as_ref() {
        Maybe::O(v) => assert_eq!(*v, 5),
        Maybe::X(_) => panic!("expected success"),
    }

    let mut ok: Maybe<u32, u32> = Maybe::O(5);
    match ok.as_mut() {
        Maybe::O(v) => *v = 50,
        Maybe::X(_) => panic!("expected success"),
    }
    assert_eq!(ok.unwrap(), 50);

    let mut err: Maybe<u32, u32> = Maybe::X(6);
    match err.as_mut() {
        Maybe::O(_) => panic!("expected failure"),
        Maybe::X(e) => *e = 60,
    }
    assert_eq!(err.unwrap_err(), 60);

    let boxed: Maybe<Box<u32>, u32> = Maybe::O(Box::new(9));
    match boxed.as_deref() {
        Maybe::O(v) => assert_eq!(*v, 9),
        Maybe::X(_) => panic!("expected success"),
    }

    let mut boxed: Maybe<Box<u32>, u32> = Maybe::O(Box::new(9));
    match boxed.as_deref_mut() {
        Maybe::O(v) => *v = 90,
        Maybe::X(_) => panic!("expected success"),
    }
    assert_eq!(*boxed.unwrap(), 90);

    let mut err: Maybe<Box<u32>, u32> = Maybe::X(6);
    match err.as_deref_mut() {
        Maybe::O(_) => panic!("expected failure"),
        Maybe::X(e) => *e = 60,
    }
    assert_eq!(err.unwrap_err(), 60);

    let ok: Maybe<u32, u32> = Maybe::O(5);
    assert_eq!(ok.as_ref().copied().unwrap(), 5);
    let ok: Maybe<String, u32> = Maybe::O("hi".to_string());
    assert_eq!(ok.as_ref().cloned().unwrap(), "hi".to_string());
}

#[test]
fn result_conversions_round_trip() {
    let r: Result<u32, u32> = Ok(5);
    let m = Maybe::from(r);
    assert!(m.is_ok());
    assert_eq!(m.into_result(), Ok(5));

    let r: Result<u32, u32> = Err(7);
    let m = Maybe::from_result(r);
    assert!(m.is_err());
    assert_eq!(m.into_result(), Err(7));
}

#[test]
fn certain_helpers_return_payload() {
    let ok: Maybe<u32, u32> = Maybe::O(11);
    assert_eq!(ok.certain_ok(), 11);
    let err: Maybe<u32, u32> = Maybe::X(12);
    assert_eq!(err.certain_err(), 12);

    let ok: Result<u32, u32> = Ok(13);
    assert_eq!(ok.certain_ok(), 13);
    let err: Result<u32, u32> = Err(14);
    assert_eq!(err.certain_err(), 14);
}

#[test]
fn success_chain_passes_value_unchanged() {
    let m: Maybe<u32, OptNone> = Maybe::O(21);
    let mut r: traced::R<u32> = m.trace(at("a.rs", 1, 1));
    for i in 0..10u64 {
        r = r.retrace(at("b.rs", i + 2, 1));
    }
    assert_eq!(r.unwrap(), 21);
}

#[test]
fn option_conversion_marks_missing_value() {
    let some: Maybe<u32, Traced> = Maybe::from_option(Some(4), at("a.rs", 1, 2));
    assert_eq!(some.unwrap(), 4);

    let none: Maybe<u32, Traced> = Maybe::from_option(None, at("opt.rs", 8, 5));
    let t = none.unwrap_err();
    assert_eq!(t.source().message(), "None");
    assert_eq!(t.locations().len(), 1);
    assert_eq!(t.render(), "None\nopt.rs:8:5\n");
}

#[test]
fn dispatch_is_total_and_never_rewraps() {
    let fresh = convert(Convertible::Fresh(OptNone), at("deep.rs", 3, 9));
    assert_eq!(fresh.locations().len(), 1);
    assert_eq!(fresh.source().message(), "None");

    let again = convert(Convertible::<OptNone>::Already(fresh), at("mid.rs", 4, 1));
    assert_eq!(again.locations().len(), 2);
    assert_eq!(again.source().message(), "None");
}

#[test]
fn anyway_builds_message_error() {
    let t = anyway("boom".to_string(), at("m.rs", 2, 7));
    assert_eq!(t.source().message(), "boom");
    assert_eq!(t.locations().len(), 1);
    assert_eq!(t.render(), "boom\nm.rs:2:7\n");
}
