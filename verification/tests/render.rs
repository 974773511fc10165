use mathilda::components::{Camera, Color, Sprite, Transform};
use mathilda::fixed::Fixed;
use mathilda::graphics::{
    get_aligned, get_buffer_size, plan_passes, sprite_args, Renderer, SpriteArgs, BUFFER_SIZE,
};
use mathilda::store::{Components, EntityId, Store};
use mathilda::systems::render;
use mathilda::systems::render::collect_draws;
use mathilda::vector::{Vec2, Vec3};

fn fx(raw: i64) -> Fixed {
    Fixed::from_raw(raw)
}

fn item(n: i64) -> SpriteArgs {
    sprite_args(
        Transform {
            position: Vec3::new(fx(n), fx(0), fx(0)),
            scale: Vec2::new(fx(1), fx(1)),
            rotation: Vec3::zero(),
        },
        Sprite {
            color: Color { r: fx(0), g: fx(0), b: fx(0), a: fx(0) },
            sprite: Vec2::new(fx(46_000_000), fx(2_000_000)),
        },
    )
}

fn drawable(n: i64) -> Components {
    let mut parts = Components::none();
    parts.transform = Some(Transform {
        position: Vec3::new(fx(n), fx(0), fx(0)),
        scale: Vec2::new(fx(1), fx(1)),
        rotation: Vec3::zero(),
    });
    parts.sprite = Some(Sprite {
        color: Color { r: fx(0), g: fx(0), b: fx(0), a: fx(0) },
        sprite: Vec2::new(fx(46_000_000), fx(2_000_000)),
    });
    parts
}

fn lens() -> Camera {
    Camera {
        eye: Vec3::new(fx(1), fx(2), fx(3)),
        target: Vec3::new(fx(0), fx(0), fx(100_000_000)),
        up: Vec3::new(fx(0), fx(1_000_000), fx(0)),
        aspect: fx(1_500_000),
        fovy: fx(90_000_000),
        znear: fx(100_000),
        zfar: fx(100_000_000),
    }
}

fn check_passes(count: usize, capacity: usize) {
    let items: Vec<SpriteArgs> = (0..count).map(|n| item(n as i64)).collect();
    let passes = plan_passes(&items, capacity, 256);
    assert_eq!(passes.len(), (count + capacity - 1) / capacity);
    let mut seen = 0usize;
    for pass in &passes {
        assert!(!pass.is_empty() && pass.len() <= capacity);
        for (j, draw) in pass.iter().enumerate() {
            assert_eq!(draw.offset, 256 * j as u64);
            assert_eq!(draw.args, items[seen]);
            seen += 1;
        }
    }
    assert_eq!(seen, count);
}

#[test]
fn aligned_is_next_multiple() {
    assert_eq!(get_aligned(80, 256), 256);
    assert_eq!(get_aligned(256, 256), 512);
    assert_eq!(get_aligned(255, 256), 256);
    assert_eq!(get_aligned(0, 4), 4);
    assert_eq!(get_aligned(7, 4), 8);
    assert_eq!(get_aligned(9, 1), 10);
}

#[test]
fn buffer_size_of_small_record() {
    assert_eq!(get_buffer_size::<[u8; 80]>(), 256 * 16384);
    assert_eq!(get_buffer_size::<[u8; 256]>(), 512 * 16384);
    assert_eq!(get_buffer_size::<()>(), 256 * 16384);
}

#[test]
fn sprite_args_scale_the_atlas_cell() {
    let args = item(5);
    assert_eq!(args.position, Vec3::new(fx(5), fx(0), fx(0)));
    assert_eq!(args.texturecoords, Vec2::new(fx(736_000_000), fx(32_000_000)));
    assert_eq!(args.texturesize, Vec2::new(fx(16_000_000), fx(16_000_000)));
    assert_eq!(args.size, Vec2::new(fx(1), fx(1)));
}

#[test]
fn passes_for_no_items() {
    check_passes(0, 4);
}

#[test]
fn passes_for_one_item() {
    check_passes(1, 4);
}

#[test]
fn passes_for_one_less_than_capacity() {
    check_passes(3, 4);
}

#[test]
fn passes_for_exactly_the_capacity() {
    check_passes(4, 4);
}

#[test]
fn passes_for_one_more_than_capacity() {
    check_passes(5, 4);
}

#[test]
fn passes_for_three_times_the_capacity() {
    check_passes(12, 4);
    check_passes(3, 1);
}

#[test]
fn render_is_nothing_without_surface_or_camera() {
    let mut store = Store::new();
    store.create_with(drawable(1));
    let mut parts = Components::none();
    parts.camera = Some(lens());
    let eye = store.create_with(parts);
    let blind = Renderer { swapchain: true, camera: None, width: 800, height: 600 };
    assert!(render(&store, &blind).is_none());
    let dark = Renderer { swapchain: false, camera: Some(eye), width: 800, height: 600 };
    assert!(render(&store, &dark).is_none());
    let lost =
        Renderer { swapchain: true, camera: Some(EntityId { index: 77 }), width: 800, height: 600 };
    assert!(render(&store, &lost).is_none());
    let wrong =
        Renderer { swapchain: true, camera: Some(EntityId { index: 0 }), width: 800, height: 600 };
    assert!(render(&store, &wrong).is_none());
}

#[test]
fn render_without_sprites_draws_the_background_only() {
    let mut store = Store::new();
    let mut parts = Components::none();
    parts.camera = Some(lens());
    let eye = store.create_with(parts);
    let renderer = Renderer { swapchain: true, camera: Some(eye), width: 800, height: 600 };
    let frame = render(&store, &renderer).unwrap();
    assert_eq!(frame.passes.len(), 0);
    assert_eq!(frame.background.position, lens().eye);
    assert_eq!(frame.background.aspect, fx(1_500_000));
    assert_eq!(frame.camera, lens());
    assert_eq!((frame.width, frame.height), (800, 600));
}

#[test]
fn render_draws_every_sprite_once_in_order() {
    let mut store = Store::new();
    store.create_with(drawable(10));
    store.create();
    let mut parts = drawable(20);
    parts.camera = Some(lens());
    let eye = store.create_with(parts);
    let mut bare = drawable(30);
    bare.sprite = None;
    store.create_with(bare);
    store.create_with(drawable(40));
    assert_eq!(collect_draws(&store), vec![item(10), item(20), item(40)]);
    let renderer = Renderer { swapchain: true, camera: Some(eye), width: 1, height: 1 };
    let frame = render(&store, &renderer).unwrap();
    assert_eq!(frame.passes.len(), 1);
    let pass = &frame.passes[0];
    assert_eq!(pass.len(), 3);
    assert_eq!((pass[0].offset, pass[1].offset, pass[2].offset), (0, 256, 512));
    assert_eq!((pass[0].args, pass[1].args, pass[2].args), (item(10), item(20), item(40)));
}

#[test]
fn render_splits_at_the_capacity_of_the_buffer() {
    let capacity = BUFFER_SIZE as usize;
    let mut store = Store::new();
    let mut parts = Components::none();
    parts.camera = Some(lens());
    let eye = store.create_with(parts);
    for n in 0..capacity {
        store.create_with(drawable(n as i64));
    }
    let renderer = Renderer { swapchain: true, camera: Some(eye), width: 1, height: 1 };
    let full = render(&store, &renderer).unwrap();
    assert_eq!(full.passes.len(), 1);
    assert_eq!(full.passes[0].len(), capacity);
    assert_eq!(full.passes[0][capacity - 1].offset, 256 * (capacity as u64 - 1));
    store.create_with(drawable(-1));
    let split = render(&store, &renderer).unwrap();
    assert_eq!(split.passes.len(), 2);
    assert_eq!(split.passes[0].len(), capacity);
    assert_eq!(split.passes[1].len(), 1);
    assert_eq!(split.passes[1][0].offset, 0);
    assert_eq!(split.passes[1][0].args, item(-1));
    assert_eq!(split.passes[0][5].args, item(5));
}
