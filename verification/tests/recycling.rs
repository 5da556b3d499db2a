use recycler::OptionRecycler;
use recycler::Recycler;
use recycler::StringRecycler;
use recycler::TrashRecycler;
use recycler::VecRecycler;
use recycler::make_recycler;

#[test]
fn trash_recreate_copies() {
    let mut r = make_recycler::<u64>();
    let v: u64 = 7;
    assert_eq!(r.recreate(&v), 7);
    r.recycle(v);
    assert_eq!(r.recreate(&v), 7);
}

#[test]
fn trash_default_matches_make() {
    let mut r: TrashRecycler<i32> = Default::default();
    assert_eq!(r.recreate(&-3), -3);
}

#[test]
fn string_round_trip() {
    let mut r = make_recycler::<String>();
    let reference = String::from("hello");
    let copy = r.recreate(&reference);
    assert_eq!(copy, reference);
}

#[test]
fn string_new_from_fills() {
    let mut r = StringRecycler::default();
    let s = r.new_from("abc");
    assert_eq!(s, "abc");
}

#[test]
fn string_recycle_clears_before_stashing() {
    // If recycling failed to clear the buffer, the withdrawn buffer would
    // still hold "hello" and the assertion below would fail.
    let mut r = StringRecycler::default();
    r.recycle(String::from("hello"));
    let s = r.new();
    assert_eq!(s, "");
    assert!(s.capacity() >= 5);
}

#[test]
fn string_stash_reuse_keeps_capacity() {
    let mut r = StringRecycler::default();
    let mut big = String::new();
    for _ in 0..40 {
        big.push('x');
    }
    let cap = big.capacity();
    assert!(cap >= 40);
    r.recycle(big);
    let small = r.new_from("hi");
    assert_eq!(small, "hi");
    assert!(small.capacity() >= cap);
}

#[test]
fn vec_recreate_preserves_order() {
    let mut r = make_recycler::<Vec<String>>();
    let reference = vec![String::from("a"), String::from("b"), String::from("c")];
    let copy = r.recreate(&reference);
    assert_eq!(copy, reference);
    assert_eq!(copy[0], "a");
    assert_eq!(copy[1], "b");
    assert_eq!(copy[2], "c");
}

#[test]
fn vec_recycle_then_recreate_reuses_shell() {
    let mut r = make_recycler::<Vec<String>>();
    let reference = vec![String::from("a"), String::from("b"), String::from("c")];
    let first = r.recreate(&reference);
    let outer_cap = first.capacity();
    assert!(outer_cap >= 3);
    r.recycle(first);
    let shorter = vec![String::from("d"), String::from("e")];
    let second = r.recreate(&shorter);
    assert_eq!(second, shorter);
    assert!(second.capacity() >= outer_cap);
}

#[test]
fn recycling_empty_containers_is_harmless() {
    let mut vr = make_recycler::<Vec<String>>();
    vr.recycle(Vec::new());
    let empty: Vec<String> = Vec::new();
    assert_eq!(vr.recreate(&empty), empty);

    let mut or = make_recycler::<Option<String>>();
    or.recycle(None);
    assert_eq!(or.recreate(&None), None);

    let mut sr = make_recycler::<String>();
    sr.recycle(String::new());
    assert_eq!(sr.new(), "");
}

#[test]
fn option_round_trip() {
    let mut r: OptionRecycler<StringRecycler> = make_recycler::<Option<String>>();
    let present = Some(String::from("inner"));
    assert_eq!(r.recreate(&present), present);
    assert_eq!(r.recreate(&None), None);
    r.recycle(present);
    // The stashed inner buffer comes back out through the inner recycler.
    let reused = r.recreate(&Some(String::from("in")));
    assert_eq!(reused, Some(String::from("in")));
}

#[test]
fn pair_round_trip() {
    let mut r = make_recycler::<(u64, String)>();
    let reference = (5u64, String::from("five"));
    let copy = r.recreate(&reference);
    assert_eq!(copy, reference);
    r.recycle(copy);
    assert_eq!(r.recreate(&reference), reference);
}

#[test]
fn triple_round_trip() {
    let mut r = make_recycler::<(u64, String, Vec<u64>)>();
    let reference = (1u64, String::from("one"), vec![2u64, 3u64]);
    let copy = r.recreate(&reference);
    assert_eq!(copy, reference);
}

#[test]
fn builder_populates_like_recreate() {
    let mut r: VecRecycler<StringRecycler> = make_recycler::<Vec<String>>();
    let (mut built, strings) = r.new();
    built.push(strings.new_from("x"));
    built.push(strings.new_from("y"));
    assert_eq!(built, vec![String::from("x"), String::from("y")]);
}

#[test]
fn nested_round_trip() {
    let mut r = make_recycler::<Vec<Vec<String>>>();
    let reference = vec![
        vec![String::from("x"), String::from("y")],
        vec![String::from("z")],
    ];
    let copy = r.recreate(&reference);
    assert_eq!(copy, reference);
}

#[test]
fn nested_scenario_reuses_all_shells() {
    let mut r = make_recycler::<Vec<Vec<String>>>();
    let reference = vec![
        vec![String::from("x"), String::from("y")],
        vec![String::from("z")],
    ];
    let first = r.recreate(&reference);
    assert_eq!(first, reference);
    let outer_cap = first.capacity();
    let inner_cap = first[0].capacity();
    let text_cap = first[0][0].capacity();
    r.recycle(first);
    let second = r.recreate(&reference);
    assert_eq!(second, reference);
    // The outer shell, the inner sequence shells, and the text buffers all
    // come back out of the stashes, keeping their prior capacity.
    assert!(second.capacity() >= outer_cap);
    assert!(second.iter().any(|inner| inner.capacity() >= inner_cap));
    assert!(
        second
            .iter()
            .any(|inner| inner.iter().any(|s| s.capacity() >= text_cap))
    );
}
