use axum_starter::concurrent::ConcurrentPrepareSet;
use axum_starter::effect::{extension_only, graceful_only, route_only, serve_only, Effect};
use axum_starter::error::{tag_outcome, PrepareError, StartError};
use axum_starter::fallible::{into_effect, IntoFallibleEffect};
use axum_starter::pipeline::ServerPrepare;
use axum_starter::router::{Fallback, Merge, Nest, Route, RouteChange};

type Eff = Effect<u32, &'static str, u32, u8>;

fn err(name: &str, cause: &str) -> PrepareError {
    PrepareError::new(name.to_string(), cause.to_string())
}

fn full(x: u32, r: &'static str, g: Option<u32>, s: u8) -> Eff {
    let e = Eff::new().with_extension(x).with_route(r).with_server(s);
    match g {
        Some(g) => e.with_graceful(g),
        None => e,
    }
}

fn parts(e: Eff) -> (Vec<u32>, Vec<&'static str>, Option<u32>, Vec<u8>) {
    e.split_effect()
}

#[test]
fn empty_effect_has_no_contribution() {
    assert_eq!(parts(Eff::new()), (vec![], vec![], None, vec![]));
}

#[test]
fn combine_keeps_left_then_right_order() {
    let c = full(1, "/a", None, 10).combine(full(2, "/b", None, 20));
    assert_eq!(parts(c), (vec![1, 2], vec!["/a", "/b"], None, vec![10, 20]));
}

#[test]
fn combine_is_associative_on_values() {
    let l = full(1, "/a", None, 1)
        .combine(full(2, "/b", Some(7), 2))
        .combine(full(3, "/c", Some(8), 3));
    let r = full(1, "/a", None, 1).combine(full(2, "/b", Some(7), 2).combine(full(3, "/c", Some(8), 3)));
    assert_eq!(parts(l), parts(r));
    assert_eq!(parts(full(1, "/a", None, 1).combine(full(2, "/b", Some(7), 2)).combine(full(3, "/c", Some(8), 3))),
        (vec![1, 2, 3], vec!["/a", "/b", "/c"], Some(7), vec![1, 2, 3]));
}

#[test]
fn graceful_first_wins_among_three() {
    let a: Eff = route_only("/a");
    let b: Eff = graceful_only(200);
    let c: Eff = graceful_only(300);
    let (_, _, g, _) = parts(a.combine(b).combine(c));
    assert_eq!(g, Some(200));
}

#[test]
fn with_graceful_keeps_first_signal() {
    let (_, _, g, _) = parts(Eff::new().with_graceful(1).with_graceful(2));
    assert_eq!(g, Some(1));
}

#[test]
fn empty_is_neutral_on_both_sides() {
    let left = Eff::new().combine(full(4, "/x", Some(9), 5));
    let right = full(4, "/x", Some(9), 5).combine(Eff::new());
    assert_eq!(parts(left), (vec![4], vec!["/x"], Some(9), vec![5]));
    assert_eq!(parts(right), (vec![4], vec!["/x"], Some(9), vec![5]));
}

#[test]
fn single_facet_constructors() {
    assert_eq!(parts(extension_only(3)), (vec![3], vec![], None, vec![]));
    assert_eq!(parts(route_only("/r")), (vec![], vec!["/r"], None, vec![]));
    assert_eq!(parts(graceful_only(5)), (vec![], vec![], Some(5), vec![]));
    assert_eq!(parts(serve_only(6)), (vec![], vec![], None, vec![6]));
}

#[test]
fn into_effect_passes_outcomes_on() {
    let ok: Result<Eff, PrepareError> = into_effect(extension_only::<u32, &'static str, u32, u8>(1));
    assert_eq!(parts(ok.ok().unwrap()), (vec![1], vec![], None, vec![]));
    let failed: Result<Eff, String> = Err("boom".to_string());
    let r = into_effect(failed);
    assert_eq!(r.err(), Some("boom".to_string()));
    let direct: Result<Eff, String> = IntoFallibleEffect::into_effect(Ok(route_only("/d")));
    assert_eq!(parts(direct.ok().unwrap()).1, vec!["/d"]);
}

#[test]
fn empty_set_yields_neutral_effect() {
    let set: ConcurrentPrepareSet<u32, &'static str, u32, u8> = ConcurrentPrepareSet::new();
    let r = set.to_prepared_effect();
    assert_eq!(parts(r.ok().unwrap()), (vec![], vec![], None, vec![]));
}

#[test]
fn set_combines_in_join_order() {
    let set = ConcurrentPrepareSet::new()
        .join(Ok(extension_only(1)))
        .join(Ok(graceful_only(9)))
        .join(Ok(extension_only(2)));
    let r: Eff = set.to_prepared_effect().ok().unwrap();
    assert_eq!(parts(r), (vec![1, 2], vec![], Some(9), vec![]));
}

#[test]
fn set_reports_first_error_in_join_order() {
    let set: ConcurrentPrepareSet<u32, &'static str, u32, u8> = ConcurrentPrepareSet::new()
        .join(Err(err("first", "fast failure")))
        .join(Ok(extension_only(2)))
        .join(Err(err("third", "slow failure")));
    let e = set.to_prepared_effect().err().unwrap();
    assert_eq!(e.preparer, "first");
    assert_eq!(e.cause, "fast failure");
}

#[test]
fn set_from_outcomes_matches_joins() {
    let outcomes: Vec<Result<Eff, PrepareError>> = vec![
        Ok(extension_only(1)),
        Err(err("second", "bad")),
        Err(err("third", "worse")),
    ];
    let e = ConcurrentPrepareSet::from_outcomes(outcomes).to_prepared_effect().err().unwrap();
    assert_eq!(e.preparer, "second");
    let ok: Vec<Result<Eff, PrepareError>> = vec![Ok(extension_only(1)), Ok(route_only("/h")), Ok(extension_only(2))];
    let r = ConcurrentPrepareSet::from_outcomes(ok).to_prepared_effect().ok().unwrap();
    assert_eq!(parts(r), (vec![1, 2], vec!["/h"], None, vec![]));
}

#[test]
fn pipeline_fails_fast_and_skips_later_steps() {
    let mut third_ran = false;
    let mut p: ServerPrepare<(), u32, &'static str, u32, u8> =
        ServerPrepare::with_config(()).init_logger(Ok(()));
    let steps: Vec<Box<dyn FnMut(&mut bool) -> Result<Eff, PrepareError>>> = vec![
        Box::new(|_| Ok(extension_only(1))),
        Box::new(|_| Err(err("second", "cannot bind"))),
        Box::new(|flag: &mut bool| {
            *flag = true;
            Ok(extension_only(3))
        }),
    ];
    for mut step in steps {
        if p.should_run_next() {
            p = p.append(step(&mut third_ran));
        }
    }
    assert!(!third_ran);
    match p.prepare_start() {
        Err(StartError::Prepare(e)) => {
            assert_eq!(e.preparer, "second");
            assert_eq!(e.cause, "cannot bind");
        }
        _ => panic!("expected the second step's error"),
    }
}

#[test]
fn logger_failure_short_circuits() {
    let mut ran = false;
    let mut p: ServerPrepare<(), u32, &'static str, u32, u8> =
        ServerPrepare::with_config(()).init_logger(Err("no logger".to_string()));
    if p.should_run_next() {
        ran = true;
        p = p.append(Ok(extension_only(1)));
    }
    assert!(!ran);
    match p.prepare_start() {
        Err(StartError::LoggerInit(m)) => assert_eq!(m, "no logger"),
        _ => panic!("expected the logger's error"),
    }
}

#[test]
fn stopped_pipeline_ignores_later_outcomes() {
    let p: ServerPrepare<(), u32, &'static str, u32, u8> = ServerPrepare::with_config(())
        .append(Err(err("one", "x")))
        .append(Err(err("two", "y")))
        .append(Ok(extension_only(5)));
    assert!(!p.should_run_next());
    match p.prepare_start() {
        Err(StartError::Prepare(e)) => assert_eq!(e.preparer, "one"),
        _ => panic!("expected the first error"),
    }
}

#[test]
fn end_to_end_health_route_and_two_extensions() {
    let p: ServerPrepare<u16, u32, &'static str, u32, u8> = ServerPrepare::with_config(8080u16).init_logger(Ok(()));
    assert_eq!(**p.configure(), 8080);
    let p = p.append(Ok(route_only("/health")));
    let set = ConcurrentPrepareSet::new().join(Ok(extension_only(10))).join(Ok(extension_only(20)));
    let p = p.append_concurrent(set);
    assert!(p.should_run_next());
    let (ext, routes, graceful, servers) = p.prepare_start().ok().unwrap().split_effect();
    assert_eq!(ext, vec![10, 20]);
    assert_eq!(routes, vec!["/health"]);
    assert_eq!(graceful, None);
    assert!(servers.is_empty());
}

#[test]
fn concurrent_set_error_stops_pipeline() {
    let set: ConcurrentPrepareSet<u32, &'static str, u32, u8> =
        ConcurrentPrepareSet::new().join(Ok(extension_only(1))).join(Err(err("member", "down")));
    let p: ServerPrepare<(), u32, &'static str, u32, u8> = ServerPrepare::with_config(()).append_concurrent(set);
    match p.prepare_start() {
        Err(StartError::Prepare(e)) => assert_eq!(e.preparer, "member"),
        _ => panic!("expected the member's error"),
    }
}

#[test]
fn route_mutations_keep_their_parts() {
    let r = Route::new("/health", 1u8);
    assert_eq!((r.path, r.service), ("/health", 1));
    let n = Nest::new("/api", "sub");
    assert_eq!((n.path, n.router), ("/api", "sub"));
    let m = Merge::new("other");
    assert_eq!(m.0, "other");
    let f = Fallback::new(42u32);
    assert_eq!(f.handle, 42);
    let changes: Vec<RouteChange<u8, &str, u32>> = vec![RouteChange::Route(r), RouteChange::Fallback(f)];
    let e: Effect<u32, RouteChange<u8, &str, u32>, u32, u8> = route_only(RouteChange::Nest(n));
    assert_eq!(changes.len(), 2);
    assert!(matches!(e.split_effect().1[0], RouteChange::Nest(_)));
}

#[test]
fn prepare_error_keeps_tag_and_cause() {
    let e = err("Db", "refused");
    assert_eq!(e.preparer, "Db");
    assert_eq!(e.cause, "refused");
    let l = StartError::Launch("address in use".to_string());
    assert!(matches!(l, StartError::Launch(ref m) if m == "address in use"));
}

#[test]
fn messages_name_the_failing_phase() {
    assert_eq!(err("Database", "timed out").message(), "Database failed: timed out");
    assert_eq!(StartError::Prepare(err("Cache", "full")).message(), "Cache failed: full");
    assert_eq!(
        StartError::LoggerInit("already set".to_string()).message(),
        "logger initialisation failed: already set"
    );
    assert_eq!(StartError::Launch("in use".to_string()).message(), "launch failed: in use");
}

#[test]
fn tag_outcome_attaches_preparer_name() {
    let failed: Result<u8, PrepareError> = tag_outcome("Migrate".to_string(), Err("disk".to_string()));
    assert_eq!(failed, Err(err("Migrate", "disk")));
    let ok: Result<u8, PrepareError> = tag_outcome("Migrate".to_string(), Ok(7));
    assert_eq!(ok, Ok(7));
}
