use neural_galaga::sprites::{col, enemy_sprite_region, explosion_region, Sprite, SpriteRegion};

fn r(x: u32, width: u32, height: u32) -> SpriteRegion {
    SpriteRegion { x, width, height }
}

#[test]
fn column_helper() {
    assert_eq!(col(0), 0);
    assert_eq!(col(11), 176);
}

#[test]
fn sheet_regions() {
    assert_eq!(Sprite::Player.region(), r(0, 16, 16));
    assert_eq!(Sprite::Bullet.region(), r(144, 4, 8));
    assert_eq!(Sprite::EnemyBullet.region(), r(160, 4, 8));
    assert_eq!(Sprite::LivesIcon.region(), r(176, 8, 8));
    assert_eq!(Sprite::ShotgunBall.region(), r(288, 4, 4));
    assert_eq!(Sprite::PowerupLife.region(), r(292, 16, 16));
    assert_eq!(Sprite::PowerupShield.region(), r(372, 16, 16));
}

#[test]
fn enemy_regions_by_row_and_frame() {
    assert_eq!(enemy_sprite_region(0, false), r(16, 16, 16));
    assert_eq!(enemy_sprite_region(0, true), r(32, 16, 16));
    assert_eq!(enemy_sprite_region(1, false), r(48, 16, 16));
    assert_eq!(enemy_sprite_region(2, true), r(96, 16, 16));
    assert_eq!(enemy_sprite_region(3, false), r(112, 16, 16));
    assert_eq!(enemy_sprite_region(3, true), r(128, 16, 16));
    assert_eq!(enemy_sprite_region(7, true), r(32, 16, 16));
}

#[test]
fn explosion_frames() {
    assert_eq!(explosion_region(0), r(192, 24, 24));
    assert_eq!(explosion_region(3), r(264, 24, 24));
}
