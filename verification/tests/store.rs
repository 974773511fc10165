use mathilda::components::{Life, Player};
use mathilda::fixed::Fixed;
use mathilda::input::{Input, Key};
use mathilda::session::Session;
use mathilda::store::{Components, EntityId, Store};

fn with_health(raw: i64) -> Components {
    let mut parts = Components::none();
    parts.life = Some(Life { health: Fixed::from_raw(raw) });
    parts
}

#[test]
fn store_hands_out_ascending_ids() {
    let mut store = Store::new();
    assert_eq!(store.len(), 0);
    let a = store.create();
    let b = store.create_with(with_health(5));
    let c = store.create();
    assert_eq!(a, EntityId { index: 0 });
    assert_eq!(b, EntityId { index: 1 });
    assert_eq!(c, EntityId { index: 2 });
    assert_eq!(store.len(), 3);
    assert_eq!(store.next_index(), 3);
    assert_eq!(store.row(1).id, b);
    assert_eq!(store.row(1).parts, with_health(5));
    assert_eq!(store.get(a), Some(Components::none()));
}

#[test]
fn store_lookup_of_missing_entity_is_absent() {
    let mut store = Store::new();
    let a = store.create();
    assert_eq!(store.get(EntityId { index: 9 }), None);
    assert!(!store.contains(EntityId { index: 9 }));
    assert!(store.contains(a));
    assert!(store.delete(a));
    assert_eq!(store.get(a), None);
    assert!(!store.delete(a));
    assert!(!store.put(a, with_health(1)));
    assert_eq!(store.len(), 0);
}

#[test]
fn store_delete_keeps_order_and_never_reuses_ids() {
    let mut store = Store::new();
    let a = store.create_with(with_health(1));
    let b = store.create_with(with_health(2));
    let c = store.create_with(with_health(3));
    assert!(store.delete(b));
    assert_eq!(store.len(), 2);
    assert_eq!(store.row(0).id, a);
    assert_eq!(store.row(1).id, c);
    let d = store.create();
    assert_eq!(d, EntityId { index: 3 });
    assert_eq!(store.find(c), Some(1));
    assert_eq!(store.find(d), Some(2));
    assert_eq!(store.find(b), None);
    store.clear();
    assert_eq!(store.len(), 0);
    assert_eq!(store.create(), EntityId { index: 4 });
}

#[test]
fn store_put_and_set_replace_components() {
    let mut store = Store::new();
    let a = store.create();
    let mut parts = with_health(7);
    parts.player = Some(Player {});
    assert!(store.put(a, parts));
    assert_eq!(store.get(a), Some(parts));
    store.set_parts(0, with_health(8));
    assert_eq!(store.get(a), Some(with_health(8)));
    store.remove_at(0);
    assert_eq!(store.len(), 0);
}

#[test]
fn store_add_entities_appends_in_order() {
    let mut store = Store::new();
    let list = vec![with_health(1), with_health(2)];
    store.add_entities(&list);
    assert_eq!(store.len(), 2);
    assert_eq!(store.row(0).parts, with_health(1));
    assert_eq!(store.row(1).parts, with_health(2));
    assert_eq!(store.add_entity(with_health(3)), Some(EntityId { index: 2 }));
}

#[test]
fn latch_keeps_each_key_once() {
    let mut input = Input::new();
    assert_eq!(input.len(), 0);
    input.press(Key::Up);
    input.press(Key::Space);
    input.press(Key::Up);
    assert_eq!(input.len(), 2);
    assert_eq!(input.key(0), Key::Up);
    assert_eq!(input.key(1), Key::Space);
    assert!(input.contains(Key::Space));
    assert!(!input.contains(Key::R));
    input.release(Key::Up);
    assert_eq!(input.len(), 1);
    assert_eq!(input.key(0), Key::Space);
    input.release(Key::Other(3));
    assert_eq!(input.len(), 1);
    input.press(Key::Other(3));
    input.press(Key::Other(4));
    assert_eq!(input.len(), 3);
    input.clear();
    assert_eq!(input.len(), 0);
    assert!(!input.contains(Key::Space));
}

#[test]
fn session_counts_and_clears() {
    let mut session = Session::new();
    assert_eq!(session.score, 0);
    session.award(3);
    session.award(2);
    assert_eq!(session.score, 5);
    session.award(usize::MAX);
    assert_eq!(session.score, i32::MAX);
    session.clear();
    assert_eq!(session.score, 0);
}
