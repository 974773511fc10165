use mathilda::components::{Enemy, Life, Player};
use mathilda::fixed::Fixed;
use mathilda::resources::{get_shader, shader_file_name, ShaderError};
use mathilda::store::{Components, EntityId, Store};
use mathilda::time::FrameAccumTimer;
use std::cell::Cell;

fn fx(raw: i64) -> Fixed {
    Fixed::from_raw(raw)
}

#[test]
fn shader_words_are_little_endian() {
    let bytes: [u8; 8] = [0x03, 0x02, 0x23, 0x07, 0xff, 0xff, 0xff, 0xff];
    assert_eq!(get_shader(Some(&bytes)), Ok(vec![0x0723_0203, 0xffff_ffff]));
    let one: [u8; 4] = [1, 0, 0, 0x80];
    assert_eq!(get_shader(Some(&one)), Ok(vec![0x8000_0001]));
    let none: [u8; 0] = [];
    assert_eq!(get_shader(Some(&none)), Ok(vec![]));
}

#[test]
fn shader_that_is_missing_is_not_found() {
    assert_eq!(get_shader(None), Err(ShaderError::NotFound));
}

#[test]
fn shader_of_odd_length_is_invalid() {
    let bytes: [u8; 5] = [1, 2, 3, 4, 5];
    assert_eq!(get_shader(Some(&bytes)), Err(ShaderError::InvalidData));
    assert_eq!(get_shader(Some(&bytes[..3])), Err(ShaderError::InvalidData));
    assert_eq!(get_shader(Some(&bytes[..1])), Err(ShaderError::InvalidData));
}

#[test]
fn shader_file_name_adds_the_suffix() {
    assert_eq!(shader_file_name("sprite/simple.vert"), "sprite/simple.vert.hlsl.spirv");
    assert_eq!(shader_file_name(""), ".hlsl.spirv");
}

#[test]
fn accumulating_timer_calls_back_at_its_interval() {
    let mut timer = FrameAccumTimer::new(3, fx(10_000_000));
    let calls = Cell::new(0);
    let seen = Cell::new(None);
    timer.advance(4_000);
    timer.trigger(|t: &FrameAccumTimer| {
        calls.set(calls.get() + 1);
        seen.set(t.frame_time_smooth());
    });
    assert_eq!(calls.get(), 0);
    assert_eq!(timer.frame_time_smooth(), None);
    assert_eq!(timer.frames_per_second_smooth(), None);
    timer.advance(8_000);
    timer.trigger(|t: &FrameAccumTimer| {
        calls.set(calls.get() + 1);
        seen.set(t.frame_time_smooth());
    });
    assert_eq!(calls.get(), 1);
    assert_eq!(seen.get(), Some(fx(6_000_000)));
    assert_eq!(timer.frame_time_smooth(), Some(fx(6_000_000)));
    assert_eq!(timer.frame_time(), fx(8_000_000));
    assert_eq!(timer.delta(), fx(8_000));
    assert_eq!(timer.lifetime(), fx(12_000));
    assert_eq!(timer.frames_per_second(), Some(fx(125_000_000)));
    assert_eq!(timer.frames_per_second_smooth(), Some(fx(166_666_666)));
    timer.advance(3_000);
    timer.trigger(|_t: &FrameAccumTimer| calls.set(calls.get() + 1));
    assert_eq!(calls.get(), 1);
    timer.advance(5_000);
    timer.trigger(|t: &FrameAccumTimer| {
        calls.set(calls.get() + 1);
        seen.set(t.frame_time_smooth());
    });
    assert_eq!(calls.get(), 2);
    assert_eq!(seen.get(), Some(fx(5_333_333)));
}

#[test]
fn accumulating_timer_update_reads_the_clock() {
    let mut timer = FrameAccumTimer::new(20, fx(1_000_000_000_000));
    timer.update();
    assert_eq!(timer.lifetime(), timer.delta());
    timer.trigger(|_t: &FrameAccumTimer| panic!("no callback is due"));
    assert_eq!(timer.frame_time_smooth(), None);
}

#[test]
fn components_are_reached_by_their_type() {
    let mut store = Store::new();
    let id = store.create();
    assert_eq!(store.component::<Life>(id), None);
    assert!(store.attach(id, Life { health: fx(4) }));
    assert!(store.attach(id, Player {}));
    assert_eq!(store.component::<Life>(id), Some(Life { health: fx(4) }));
    assert_eq!(store.component::<Player>(id), Some(Player {}));
    assert_eq!(store.component::<Enemy>(id), None);
    assert!(store.attach(id, Life { health: fx(9) }));
    assert_eq!(store.component::<Life>(id), Some(Life { health: fx(9) }));
    let mut expected = Components::none();
    expected.life = Some(Life { health: fx(9) });
    expected.player = Some(Player {});
    assert_eq!(store.get(id), Some(expected));
    assert!(store.detach::<Player>(id));
    assert_eq!(store.component::<Player>(id), None);
    let missing = EntityId { index: 5 };
    assert!(!store.attach(missing, Enemy {}));
    assert!(!store.detach::<Enemy>(missing));
    assert_eq!(store.component::<Enemy>(missing), None);
    assert_eq!(store.len(), 1);
}
