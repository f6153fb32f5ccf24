use ingots::dynamic::{Action, DynamicIngot, Event, Stage};
use ingots::engine::IngotEngine;
use std::path::PathBuf;

fn sample() -> IngotEngine<char> {
    let mut engine = IngotEngine::new();
    engine.register(String::from("/api"), 'A');
    engine.register(String::from("/"), 'B');
    engine
}

#[test]
fn first_registered_prefix_wins() {
    let engine = sample();
    assert_eq!(engine.find_ingot_for_url("/api/x"), Some(&'A'));
    assert_eq!(engine.dispatch("/api/x"), Some(0));
}

#[test]
fn root_binding_catches_other_paths() {
    let engine = sample();
    assert_eq!(engine.find_ingot_for_url("/other"), Some(&'B'));
    assert_eq!(engine.dispatch("/other"), Some(1));
}

#[test]
fn no_matching_prefix_gives_nothing() {
    let mut engine = IngotEngine::new();
    engine.register(String::from("/api"), 'A');
    assert_eq!(engine.find_ingot_for_url("/other"), None);
    assert_eq!(engine.dispatch("/other"), None);
}

#[test]
fn empty_engine_serves_nothing() {
    let engine: IngotEngine<u32> = IngotEngine::new();
    assert_eq!(engine.len(), 0);
    assert_eq!(engine.dispatch("/"), None);
    assert_eq!(engine.find_ingot_for_url(""), None);
}

#[test]
fn order_beats_specificity() {
    let mut engine = IngotEngine::new();
    engine.register(String::from("/"), 'B');
    engine.register(String::from("/api"), 'A');
    assert_eq!(engine.find_ingot_for_url("/api/x"), Some(&'B'));
}

#[test]
fn prefix_match_is_literal() {
    let mut engine = IngotEngine::new();
    engine.register(String::from("/api"), 1u32);
    assert_eq!(engine.dispatch("/apiary"), Some(0));
    assert_eq!(engine.dispatch("/ap"), None);
    assert_eq!(engine.dispatch("/API/x"), None);
    assert_eq!(engine.dispatch("x/api"), None);
}

#[test]
fn empty_prefix_matches_every_path() {
    let mut engine = IngotEngine::new();
    engine.register(String::new(), 7u32);
    assert_eq!(engine.find_ingot_for_url("/anything"), Some(&7));
    assert_eq!(engine.find_ingot_for_url(""), Some(&7));
}

#[test]
fn duplicate_prefix_keeps_the_earlier_binding() {
    let mut engine = IngotEngine::new();
    engine.register(String::from("/p"), 'x');
    engine.register(String::from("/p"), 'y');
    assert_eq!(engine.len(), 2);
    assert_eq!(engine.find_ingot_for_url("/p/1"), Some(&'x'));
}

#[test]
fn unregister_unknown_prefix_is_a_no_op() {
    let mut engine = sample();
    let removed = engine.unregister("/never");
    assert_eq!(removed, Vec::<char>::new());
    assert_eq!(engine.len(), 2);
    assert_eq!(engine.find_ingot_for_url("/api/x"), Some(&'A'));
    assert_eq!(engine.find_ingot_for_url("/other"), Some(&'B'));
}

#[test]
fn unregister_removes_every_binding_of_the_prefix() {
    let mut engine = IngotEngine::new();
    engine.register(String::from("/p"), 'x');
    engine.register(String::from("/"), 'r');
    engine.register(String::from("/p"), 'y');
    let removed = engine.unregister("/p");
    assert_eq!(removed, vec!['x', 'y']);
    assert_eq!(engine.len(), 1);
    assert_eq!(engine.find_ingot_for_url("/p/1"), Some(&'r'));
    assert_eq!(engine.unregister("/p"), Vec::<char>::new());
    assert_eq!(engine.len(), 1);
}

#[test]
fn unregister_matches_the_prefix_exactly() {
    let mut engine = sample();
    assert_eq!(engine.unregister("/ap"), Vec::<char>::new());
    assert_eq!(engine.unregister("/api/"), Vec::<char>::new());
    assert_eq!(engine.len(), 2);
    assert_eq!(engine.unregister("/api"), vec!['A']);
    assert_eq!(engine.find_ingot_for_url("/api/x"), Some(&'B'));
}

#[test]
fn replace_swaps_the_handle_in_place() {
    let mut engine = IngotEngine::new();
    engine.register(String::from("/p"), "old");
    engine.register(String::from("/"), "root");
    assert_eq!(engine.find_ingot_for_url("/p/page"), Some(&"old"));
    assert_eq!(engine.replace("/p", "new"), Ok("old"));
    assert_eq!(engine.len(), 2);
    assert_eq!(engine.dispatch("/p/page"), Some(0));
    assert_eq!(engine.find_ingot_for_url("/p/page"), Some(&"new"));
    assert_eq!(engine.find_ingot_for_url("/q"), Some(&"root"));
}

#[test]
fn replace_of_unknown_prefix_hands_the_handle_back() {
    let mut engine = sample();
    assert_eq!(engine.replace("/p", 'N'), Err('N'));
    assert_eq!(engine.len(), 2);
    assert_eq!(engine.find_ingot_for_url("/api/x"), Some(&'A'));
    assert_eq!(engine.find_ingot_for_url("/p"), Some(&'B'));
}

#[test]
fn replace_touches_only_the_earliest_binding_of_a_prefix() {
    let mut engine = IngotEngine::new();
    engine.register(String::from("/p"), 1u32);
    engine.register(String::from("/p"), 2u32);
    assert_eq!(engine.replace("/p", 3u32), Ok(1));
    assert_eq!(*engine.instance(0), 3);
    assert_eq!(*engine.instance(1), 2);
}

#[test]
fn lookup_finds_the_earliest_binding_of_a_prefix() {
    let mut engine = IngotEngine::new();
    engine.register(String::from("/"), 'r');
    engine.register(String::from("/p"), 'x');
    engine.register(String::from("/p"), 'y');
    assert_eq!(engine.lookup("/p"), Some(1));
    assert_eq!(engine.lookup("/"), Some(0));
    assert_eq!(engine.lookup("/p/"), None);
    assert_eq!(engine.lookup(""), None);
    assert_eq!(engine.prefix(1), "/p");
    assert_eq!(engine.prefix(0), "/");
    assert_eq!(*engine.instance(2), 'y');
}

#[test]
fn reload_swaps_in_a_fresh_handle_and_drains_the_old_one() {
    fn load(handle: &mut DynamicIngot) {
        for event in [
            Event::ImageOpened,
            Event::VersionRead(Some(1)),
            Event::EntryResolved,
            Event::DeallocatorResolved,
            Event::InstanceConstructed,
        ] {
            handle.advance(event);
        }
    }
    let mut first = DynamicIngot::open(PathBuf::from("libp.so"));
    load(&mut first);
    assert_eq!(first.advance(Event::CallStarted), Action::Forward);
    let mut fresh = first.reload();
    load(&mut fresh);
    let mut engine = IngotEngine::new();
    engine.register(String::from("/p"), first);
    assert_eq!(engine.dispatch("/p/page"), Some(0));
    let mut old = match engine.replace("/p", fresh) {
        Ok(old) => old,
        Err(_) => panic!("the prefix is bound"),
    };
    let serving = engine.find_ingot_for_url("/p/page").unwrap();
    assert!(serving.is_loaded());
    assert_eq!(serving.in_flight(), 0);
    assert_eq!(old.in_flight(), 1);
    assert_eq!(old.unload(), Action::Idle);
    assert_eq!(old.stage(), Stage::Draining);
    assert_eq!(old.advance(Event::CallReturned), Action::InvokeDeallocator);
    assert_eq!(old.advance(Event::InstanceDestroyed), Action::ReleaseImage);
    assert_eq!(old.advance(Event::ImageReleased), Action::Idle);
    assert_eq!(old.stage(), Stage::Closed);
    assert!(engine.find_ingot_for_url("/p/page").unwrap().is_loaded());
}

#[test]
fn bound_handles_count_their_calls_in_place() {
    let mut handle = DynamicIngot::open(PathBuf::from("libq.so"));
    for event in [
        Event::ImageOpened,
        Event::VersionRead(Some(1)),
        Event::EntryResolved,
        Event::DeallocatorResolved,
        Event::InstanceConstructed,
    ] {
        handle.advance(event);
    }
    let mut engine = IngotEngine::new();
    engine.register(String::from("/"), 0usize);
    let mut handles = IngotEngine::new();
    handles.register(String::from("/q"), handle);
    let at = handles.dispatch("/q/1").unwrap();
    assert_eq!(handles.instance_mut(at).advance(Event::CallStarted), Action::Forward);
    assert_eq!(handles.instance(at).in_flight(), 1);
    assert_eq!(handles.prefix(at), "/q");
    assert_eq!(handles.instance_mut(at).advance(Event::CallReturned), Action::Idle);
    assert_eq!(handles.instance(at).in_flight(), 0);
    *engine.instance_mut(0) += 5;
    assert_eq!(engine.find_ingot_for_url("/x"), Some(&5));
    assert_eq!(engine.len(), 1);
}
