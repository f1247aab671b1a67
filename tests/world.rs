use sprite_world::{
    Animation, Image, Key, Sprite, SpriteSheet, World, FRAME_BYTES, JUMP_VELOCITY, SUBUNITS,
    TERMINAL_VELOCITY, WORLD_HEIGHT, WORLD_WIDTH,
};

fn background(rgba: [u8; 4]) -> Image {
    let mut data = Vec::new();
    for _ in 0..(WORLD_WIDTH * WORLD_HEIGHT) {
        data.extend_from_slice(&rgba);
    }
    Image::from_rgba(WORLD_WIDTH as u16, WORLD_HEIGHT as u16, data).unwrap()
}

fn plain_sprite(w: u16, h: u16, rgba: [u8; 4]) -> Sprite {
    let mut data = Vec::new();
    for _ in 0..(w as usize * h as usize) {
        data.extend_from_slice(&rgba);
    }
    let texture = Image::from_rgba(w, h, data).unwrap();
    let sheet = SpriteSheet::new(texture, vec![Animation::new((0, 0), 1, 0)], (w, h));
    Sprite::new(sheet)
}

fn player_world() -> World {
    let mut player = plain_sprite(50, 37, [1, 2, 3, 255]);
    player.position = (100 * SUBUNITS, 0);
    World::new(vec![player], background([0, 0, 0, 255]))
}

fn pixel(frame: &[u8], x: usize, y: usize) -> [u8; 4] {
    let i = (y * WORLD_WIDTH as usize + x) * 4;
    [frame[i], frame[i + 1], frame[i + 2], frame[i + 3]]
}

#[test]
fn friction_dead_zone_snaps_to_rest() {
    let mut world = player_world();
    world.sprites[0].velocity.0 = 2500;
    world.update_movement();
    assert_eq!(world.sprites[0].velocity.0, 0);
    world.update_physics();
    assert_eq!(world.sprites[0].velocity.0, 0);
}

#[test]
fn held_keys_accelerate() {
    let mut world = player_world();
    world.key_held(Key::Right);
    world.update_movement();
    assert_eq!(world.sprites[0].velocity.0, 3000);
    world.update_movement();
    assert_eq!(world.sprites[0].velocity.0, 6000);
    world.key_released(Key::Right);
    world.key_held(Key::Left);
    assert!(!world.right_held && world.left_held);
    world.update_movement();
    assert_eq!(world.sprites[0].velocity.0, 3000);
    world.key_held(Key::Right);
    world.update_movement();
    assert_eq!(world.sprites[0].velocity.0, 3000);
    world.key_released(Key::Other);
    assert!(world.right_held && world.left_held);
}

#[test]
fn run_speed_caps_acceleration() {
    let mut world = player_world();
    world.key_held(Key::Right);
    world.sprites[0].velocity.0 = 47500;
    world.update_movement();
    assert_eq!(world.sprites[0].velocity.0, 47500);
    world.sprites[0].velocity.0 = 47400;
    world.update_movement();
    assert_eq!(world.sprites[0].velocity.0, 50400);
}

#[test]
fn movement_rounds_velocity_to_thousandths() {
    let mut world = player_world();
    world.sprites[0].velocity.0 = 31234;
    world.update_movement();
    assert_eq!(world.sprites[0].velocity.0, 31230);
    world.sprites[0].velocity.0 = -31235;
    world.update_movement();
    assert_eq!(world.sprites[0].velocity.0, -31240);
}

#[test]
fn gravity_accelerates_in_air() {
    let mut world = player_world();
    world.update_physics();
    assert_eq!(world.sprites[0].velocity.1, 1000);
    assert_eq!(world.sprites[0].position.1, 0);
    world.update_physics();
    assert_eq!(world.sprites[0].velocity.1, 2000);
    assert_eq!(world.sprites[0].position.1, 200);
}

#[test]
fn terminal_velocity_holds() {
    let mut world = player_world();
    world.sprites[0].position.1 = -1000 * SUBUNITS;
    for _ in 0..200 {
        world.update_movement();
        world.update_physics();
        assert!(world.sprites[0].velocity.1 <= TERMINAL_VELOCITY);
    }
    assert_eq!(world.sprites[0].velocity.1, TERMINAL_VELOCITY);
}

#[test]
fn body_lands_and_rests_on_floor() {
    let mut world = player_world();
    world.sprites[0].position.1 = 106 * SUBUNITS + 9000;
    world.sprites[0].velocity.1 = 10000;
    world.update_physics();
    assert_eq!(world.sprites[0].position.1, 107 * SUBUNITS);
    assert_eq!(world.sprites[0].velocity.1, 0);
    assert!(world.sprites[0].collision_y());
    for _ in 0..10 {
        world.update_movement();
        world.update_physics();
        assert_eq!(world.sprites[0].position.1, 107 * SUBUNITS);
        assert_eq!(world.sprites[0].velocity.1, 0);
    }
}

#[test]
fn jump_leaves_the_floor() {
    let mut world = player_world();
    world.sprites[0].position.1 = 107 * SUBUNITS;
    world.set_velocity_y(JUMP_VELOCITY, 0);
    world.update_physics();
    assert_eq!(world.sprites[0].position.1, 107 * SUBUNITS - 14000);
    assert_eq!(world.sprites[0].velocity.1, JUMP_VELOCITY + 1000);
}

#[test]
fn walls_stop_horizontal_motion() {
    let mut world = player_world();
    world.sprites[0].position.0 = 0;
    world.sprites[0].velocity.0 = -3000;
    world.update_physics();
    assert_eq!(world.sprites[0].velocity.0, 0);
    assert_eq!(world.sprites[0].position.0, -600);

    world.sprites[0].position.0 = 206 * SUBUNITS;
    world.sprites[0].velocity.0 = 10000;
    world.update_physics();
    assert_eq!(world.sprites[0].velocity.0, 9900);
    assert_eq!(world.sprites[0].position.0, 206 * SUBUNITS + 2000);
    world.sprites[0].position.0 = 207 * SUBUNITS;
    world.sprites[0].velocity.0 = 10000;
    world.update_physics();
    assert_eq!(world.sprites[0].velocity.0, 0);
}

#[test]
fn friction_depends_on_floor_contact() {
    let mut world = player_world();
    world.sprites[0].velocity.0 = 10000;
    world.update_physics();
    assert_eq!(world.sprites[0].velocity.0, 9900);

    world.sprites[0].position.1 = 107 * SUBUNITS;
    world.sprites[0].velocity = (-10000, 0);
    world.update_physics();
    assert_eq!(world.sprites[0].velocity.0, -9000);

    world.sprites[0].velocity.0 = 500;
    world.update_physics();
    assert_eq!(world.sprites[0].velocity.0, 0);
}

#[test]
fn position_x_rounds_to_hundredths() {
    let mut world = player_world();
    world.sprites[0].velocity.0 = 2900;
    world.update_physics();
    assert_eq!(world.sprites[0].position.0, 100 * SUBUNITS + 600);
}

#[test]
fn collision_uses_height() {
    let mut s = plain_sprite(50, 37, [0, 0, 0, 0]);
    s.position.1 = 106 * SUBUNITS + 9999;
    assert!(!s.collision_y());
    s.position.1 = 107 * SUBUNITS;
    assert!(s.collision_y());
}

#[test]
fn selecting_an_animation() {
    let texture = Image::from_rgba(8, 4, vec![0; 128]).unwrap();
    let clips = vec![Animation::new((0, 0), 2, 100), Animation::new((0, 2), 2, 50)];
    let sheet = SpriteSheet::new(texture, clips, (2, 2));
    assert_eq!(sheet.sheet_dimensions, (8, 4));
    let mut world = World::new(vec![Sprite::new(sheet)], background([0, 0, 0, 255]));
    world.set_sprite_animation(0, 1);
    assert_eq!(world.sprites[0].sprite_sheet.current_animation, 1);
    assert_eq!(world.sprites[0].get_sheet_offset(), (0, 2));
    world.sprites[0].run_animation(50);
    assert_eq!(world.sprites[0].get_sheet_offset(), (2, 2));
    assert_eq!(world.sprites[0].sprite_sheet.animations[0].current_frame, 0);
}

#[test]
fn draw_blends_sprites_over_background() {
    let mut s = plain_sprite(2, 2, [200, 100, 50, 128]);
    s.position = (3 * SUBUNITS, 5 * SUBUNITS);
    let mut world = World::new(vec![s], background([10, 20, 30, 255]));
    let mut frame = vec![0u8; FRAME_BYTES];
    world.draw_at(&mut frame, 1000);
    assert_eq!(pixel(&frame, 3, 5), [104, 59, 39, 255]);
    assert_eq!(pixel(&frame, 4, 6), [104, 59, 39, 255]);
    assert_eq!(pixel(&frame, 5, 5), [10, 20, 30, 255]);
    assert_eq!(pixel(&frame, 0, 0), [10, 20, 30, 255]);
}

#[test]
fn later_sprites_draw_on_top() {
    let mut a = plain_sprite(2, 1, [200, 0, 0, 255]);
    a.position = (0, 0);
    let mut b = plain_sprite(1, 1, [0, 200, 0, 255]);
    b.position = (SUBUNITS, 0);
    let mut world = World::new(vec![a, b], background([0, 0, 0, 255]));
    let mut frame = vec![0u8; FRAME_BYTES];
    world.draw(&mut frame);
    assert_eq!(pixel(&frame, 0, 0), [200, 0, 0, 255]);
    assert_eq!(pixel(&frame, 1, 0), [0, 200, 0, 255]);
}

#[test]
fn off_buffer_pixels_land_on_first_pixel() {
    let mut s = plain_sprite(1, 2, [255, 255, 255, 255]);
    s.position = (7 * SUBUNITS, 143 * SUBUNITS);
    let mut world = World::new(vec![s], background([0, 0, 0, 255]));
    let mut frame = vec![0u8; FRAME_BYTES];
    world.draw_at(&mut frame, 0);
    assert_eq!(pixel(&frame, 7, 143), [255, 255, 255, 255]);
    assert_eq!(pixel(&frame, 0, 0), [255, 255, 255, 255]);
}

#[test]
fn draw_twice_at_same_time_is_identical() {
    let texture_data: Vec<u8> = (0..(8 * 4 * 4)).map(|i| (i * 7 % 256) as u8).collect();
    let texture = Image::from_rgba(8, 4, texture_data).unwrap();
    let sheet = SpriteSheet::new(texture, vec![Animation::new((0, 0), 4, 100)], (2, 2));
    let mut s = Sprite::new(sheet);
    s.position = (20 * SUBUNITS, 30 * SUBUNITS);
    let mut world = World::new(vec![s], background([10, 20, 30, 255]));
    let mut first = vec![0u8; FRAME_BYTES];
    world.draw_at(&mut first, 500);
    assert_eq!(world.sprites[0].get_sheet_offset(), (2, 0));
    let mut second = vec![9u8; FRAME_BYTES];
    world.draw_at(&mut second, 500);
    assert_eq!(first, second);
    assert_eq!(world.sprites[0].get_sheet_offset(), (2, 0));
}
