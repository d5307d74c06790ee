use conerror::{Error, Failure, Location};

fn frame(file: &'static str, line: u32, func: &'static str, module: &'static str) -> Location {
    Location { file, line, func, module }
}

#[test]
fn new_has_one_frame() {
    let e = Error::new("boom".to_string(), "src/a.rs", 7, "run", "app::jobs");
    assert_eq!(e.location(), Some(&[frame("src/a.rs", 7, "run", "app::jobs")][..]));
    assert_eq!(e.message(), "boom");
    assert_eq!(e.cause(), "boom");
}

#[test]
fn plain_has_no_location_even_when_chained() {
    let e = Error::plain("stop".to_string());
    assert!(e.location().is_none());
    let e = Error::chain(e, "src/a.rs", 3, "f", "m");
    let e = Error::chain(e, "src/b.rs", 9, "g", "m");
    assert!(e.location().is_none());
    assert_eq!(e.to_string(), "stop");
    assert!(e.rendered_locations().is_empty());
}

#[test]
fn chain_appends_frames_in_order() {
    let e = Error::new("boom".to_string(), "a.rs", 1, "a", "m");
    let e = Error::chain(e, "b.rs", 2, "b", "m");
    let e = Error::chain(e, "c.rs", 3, "c", "m");
    let e = Error::chain(e, "d.rs", 4, "d", "n");
    let expected = [
        frame("a.rs", 1, "a", "m"),
        frame("b.rs", 2, "b", "m"),
        frame("c.rs", 3, "c", "m"),
        frame("d.rs", 4, "d", "n"),
    ];
    assert_eq!(e.location(), Some(&expected[..]));
}

#[test]
fn chain_of_foreign_failure_is_new() {
    let earlier = Error::new("other".to_string(), "x.rs", 1, "x", "m");
    let earlier = Error::chain(earlier, "y.rs", 2, "y", "m");
    assert_eq!(earlier.location().map(|l| l.len()), Some(2));
    let e = Error::chain("bad input".to_string(), "z.rs", 5, "z", "m");
    assert_eq!(e.location(), Some(&[frame("z.rs", 5, "z", "m")][..]));
    assert_eq!(e.message(), "bad input");
    let f = Error::chain(Failure::Foreign("bad input".to_string()), "z.rs", 5, "z", "m");
    assert_eq!(f.location(), e.location());
}

#[test]
fn context_reads_last_pushed_first() {
    let e = Error::plain("boom".to_string()).context("a").context("b");
    assert_eq!(e.message(), "b: a: boom");
}

#[test]
fn display_lists_frames_with_index() {
    let e = Error::new("boom".to_string(), "src/a.rs", 12, "load", "app::cfg");
    let e = Error::chain(e, "src/main.rs", 40, "main", "app").context("loading");
    assert_eq!(
        e.to_string(),
        "loading: boom\n#0 src/a.rs:12 app::cfg::load()\n#1 src/main.rs:40 app::main()"
    );
}

#[test]
fn location_renders_as_path_and_call() {
    let l = frame("src/lib.rs", 1234, "parse", "Config");
    assert_eq!(l.to_string(), "src/lib.rs:1234 Config::parse()");
    let l = frame("m.rs", 0, "f", "m");
    assert_eq!(l.to_string(), "m.rs:0 m::f()");
}

#[test]
fn rendered_locations_follow_chain_order() {
    let e = Error::new("boom".to_string(), "a.rs", 1, "a", "m");
    let e = Error::chain(e, "b.rs", 22, "b", "T");
    assert_eq!(
        e.rendered_locations(),
        vec!["a.rs:1 m::a()".to_string(), "b.rs:22 T::b()".to_string()]
    );
}

fn step_c(input: &str) -> conerror::Result<i32> {
    match input.parse::<i32>() {
        Ok(v) => Ok(v),
        Err(err) => Err(Error::chain(err.to_string(), "src/calc.rs", 30, "c", "calc")),
    }
}

fn step_b(input: &str) -> conerror::Result<i32> {
    step_c(input).map_err(|err| Error::chain(err, "src/calc.rs", 20, "b", "calc"))
}

fn step_a(input: &str) -> conerror::Result<i32> {
    step_b(input).map_err(|err| Error::chain(err, "src/calc.rs", 10, "a", "calc"))
}

#[test]
fn three_calls_give_three_frames_innermost_first() {
    assert_eq!(step_a("12").ok(), Some(12));
    let e = step_a("x1").unwrap_err();
    let expected = [
        frame("src/calc.rs", 30, "c", "calc"),
        frame("src/calc.rs", 20, "b", "calc"),
        frame("src/calc.rs", 10, "a", "calc"),
    ];
    assert_eq!(e.location(), Some(&expected[..]));
    assert_eq!(e.message(), "x1".parse::<i32>().unwrap_err().to_string());
    assert_eq!(e.message(), "invalid digit found in string");
}
