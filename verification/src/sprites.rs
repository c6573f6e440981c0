//! Where each sprite lies in the sprite sheet.
use vstd::prelude::*;

verus! {

/// A sprite's place in the sheet: its pixel x-offset and its size (every
/// sprite starts at the sheet's top row).
#[derive(Clone, Copy, Debug, PartialEq, Eq, Structural)]
pub struct SpriteRegion {
    /// Pixel x-offset in the sprite sheet.
    pub x: u32,
    pub width: u32,
    pub height: u32,
}

/// Column helper — the first 12 columns of the sheet are 16px-wide cells.
pub fn col(c: u32) -> (x: u32)
    requires
        c * 16 <= u32::MAX,
    ensures
        x == c * 16,
{
    c * 16
}

/// The sprites of the sheet. The first twelve lie in 16 px columns
/// (player, yellow, red, green and black-and-white enemies with two frames
/// each, the two bullets, the lives icon); then come four 24 px explosion
/// frames, the 4 px shotgun ball and six 16 px powerups.
#[derive(Clone, Copy, Debug, PartialEq, Eq, Structural)]
pub enum Sprite {
    Player,
    YellowF1,
    YellowF2,
    RedF1,
    RedF2,
    GreenF1,
    GreenF2,
    BwF1,
    BwF2,
    Bullet,
    EnemyBullet,
    LivesIcon,
    Explode1,
    Explode2,
    Explode3,
    Explode4,
    ShotgunBall,
    PowerupLife,
    PowerupRate,
    PowerupSpeed,
    PowerupDouble,
    PowerupTriple,
    PowerupShield,
}

/// The sheet region of each sprite.
pub open spec fn spec_sprite_region(s: Sprite) -> SpriteRegion {
    match s {
        Sprite::Player => SpriteRegion { x: 0, width: 16, height: 16 },
        Sprite::YellowF1 => SpriteRegion { x: 16, width: 16, height: 16 },
        Sprite::YellowF2 => SpriteRegion { x: 32, width: 16, height: 16 },
        Sprite::RedF1 => SpriteRegion { x: 48, width: 16, height: 16 },
        Sprite::RedF2 => SpriteRegion { x: 64, width: 16, height: 16 },
        Sprite::GreenF1 => SpriteRegion { x: 80, width: 16, height: 16 },
        Sprite::GreenF2 => SpriteRegion { x: 96, width: 16, height: 16 },
        Sprite::BwF1 => SpriteRegion { x: 112, width: 16, height: 16 },
        Sprite::BwF2 => SpriteRegion { x: 128, width: 16, height: 16 },
        Sprite::Bullet => SpriteRegion { x: 144, width: 4, height: 8 },
        Sprite::EnemyBullet => SpriteRegion { x: 160, width: 4, height: 8 },
        Sprite::LivesIcon => SpriteRegion { x: 176, width: 8, height: 8 },
        Sprite::Explode1 => SpriteRegion { x: 192, width: 24, height: 24 },
        Sprite::Explode2 => SpriteRegion { x: 216, width: 24, height: 24 },
        Sprite::Explode3 => SpriteRegion { x: 240, width: 24, height: 24 },
        Sprite::Explode4 => SpriteRegion { x: 264, width: 24, height: 24 },
        Sprite::ShotgunBall => SpriteRegion { x: 288, width: 4, height: 4 },
        Sprite::PowerupLife => SpriteRegion { x: 292, width: 16, height: 16 },
        Sprite::PowerupRate => SpriteRegion { x: 308, width: 16, height: 16 },
        Sprite::PowerupSpeed => SpriteRegion { x: 324, width: 16, height: 16 },
        Sprite::PowerupDouble => SpriteRegion { x: 340, width: 16, height: 16 },
        Sprite::PowerupTriple => SpriteRegion { x: 356, width: 16, height: 16 },
        Sprite::PowerupShield => SpriteRegion { x: 372, width: 16, height: 16 },
    }
}

impl Sprite {
    /// The sheet region of this sprite.
    pub fn region(self) -> (r: SpriteRegion)
        ensures
            r == spec_sprite_region(self),
    {
        match self {
            Sprite::Player => SpriteRegion { x: 0, width: 16, height: 16 },
            Sprite::YellowF1 => SpriteRegion { x: 16, width: 16, height: 16 },
            Sprite::YellowF2 => SpriteRegion { x: 32, width: 16, height: 16 },
            Sprite::RedF1 => SpriteRegion { x: 48, width: 16, height: 16 },
            Sprite::RedF2 => SpriteRegion { x: 64, width: 16, height: 16 },
            Sprite::GreenF1 => SpriteRegion { x: 80, width: 16, height: 16 },
            Sprite::GreenF2 => SpriteRegion { x: 96, width: 16, height: 16 },
            Sprite::BwF1 => SpriteRegion { x: 112, width: 16, height: 16 },
            Sprite::BwF2 => SpriteRegion { x: 128, width: 16, height: 16 },
            Sprite::Bullet => SpriteRegion { x: 144, width: 4, height: 8 },
            Sprite::EnemyBullet => SpriteRegion { x: 160, width: 4, height: 8 },
            Sprite::LivesIcon => SpriteRegion { x: 176, width: 8, height: 8 },
            Sprite::Explode1 => SpriteRegion { x: 192, width: 24, height: 24 },
            Sprite::Explode2 => SpriteRegion { x: 216, width: 24, height: 24 },
            Sprite::Explode3 => SpriteRegion { x: 240, width: 24, height: 24 },
            Sprite::Explode4 => SpriteRegion { x: 264, width: 24, height: 24 },
            Sprite::ShotgunBall => SpriteRegion { x: 288, width: 4, height: 4 },
            Sprite::PowerupLife => SpriteRegion { x: 292, width: 16, height: 16 },
            Sprite::PowerupRate => SpriteRegion { x: 308, width: 16, height: 16 },
            Sprite::PowerupSpeed => SpriteRegion { x: 324, width: 16, height: 16 },
            Sprite::PowerupDouble => SpriteRegion { x: 340, width: 16, height: 16 },
            Sprite::PowerupTriple => SpriteRegion { x: 356, width: 16, height: 16 },
            Sprite::PowerupShield => SpriteRegion { x: 372, width: 16, height: 16 },
        }
    }
}

/// The sprite of an enemy by its sprite row and animation frame: rows 0 to 3
/// are the yellow, red, green and black-and-white enemies (columns 1 to 8,
/// two frames each); any other row shows the yellow one.
pub open spec fn spec_enemy_sprite_region(row: usize, anim_frame: bool) -> SpriteRegion {
    let c: u32 = if 1 <= row <= 3 {
        (1 + 2 * row + if anim_frame {
            1int
        } else {
            0int
        }) as u32
    } else if anim_frame {
        2
    } else {
        1
    };
    SpriteRegion { x: (16 * c) as u32, width: 16, height: 16 }
}

/// The sprite of an enemy by its sprite row and animation frame.
pub fn enemy_sprite_region(row: usize, anim_frame: bool) -> (r: SpriteRegion)
    ensures
        r == spec_enemy_sprite_region(row, anim_frame),
{
    let s = match (row, anim_frame) {
        (0, false) => Sprite::YellowF1,
        (0, true) => Sprite::YellowF2,
        (1, false) => Sprite::RedF1,
        (1, true) => Sprite::RedF2,
        (2, false) => Sprite::GreenF1,
        (2, true) => Sprite::GreenF2,
        (3, false) => Sprite::BwF1,
        (3, true) => Sprite::BwF2,
        (_, false) => Sprite::YellowF1,
        (_, true) => Sprite::YellowF2,
    };
    s.region()
}

/// The sprite of explosion frame `frame` (0 to 3).
pub fn explosion_region(frame: u8) -> (r: SpriteRegion)
    requires
        frame < 4,
    ensures
        r == (SpriteRegion { x: (192 + 24 * frame) as u32, width: 24, height: 24 }),
{
    let s = match frame {
        0 => Sprite::Explode1,
        1 => Sprite::Explode2,
        2 => Sprite::Explode3,
        _ => Sprite::Explode4,
    };
    s.region()
}

/// The image that the `image` crate decodes `data` into, as width, height
/// and RGBA bytes row by row, or `None` when `data` is not an image it can
/// decode.
pub uninterp spec fn decoded_rgba(data: Seq<u8>) -> Option<(nat, nat, Seq<u8>)>;

/// Decodes `data` with `image::load_from_memory` and reads it back with
/// `to_rgba8`, `dimensions` and `into_raw`. Trusted: the result is the
/// crate's decoding of `data` (named `decoded_rgba`), `None` exactly when
/// decoding fails, and, as its source shows, the RGBA buffer of a decoded
/// image holds four bytes per pixel.
#[verifier::external_body]
fn decode_rgba(data: &[u8]) -> (r: Option<(u32, u32, Vec<u8>)>)
    ensures
        match r {
            None => decoded_rgba(data@) is None,
            Some((w, h, px)) => {
                &&& decoded_rgba(data@) == Some((w as nat, h as nat, px@))
                &&& px@.len() == w * h * 4
            },
        },
{
    match image::load_from_memory(data) {
        Ok(img) => {
            let rgba = img.to_rgba8();
            let (w, h) = rgba.dimensions();
            Some((w, h, rgba.into_raw()))
        },
        Err(_) => None,
    }
}

/// A decoded sprite sheet: `width` by `height` pixels, four RGBA bytes each,
/// row by row.
#[derive(Clone, Debug)]
pub struct SheetImage {
    pub width: u32,
    pub height: u32,
    pub rgba: Vec<u8>,
}

impl SheetImage {
    /// Decode a sprite sheet from the bytes of an image file; `None` when the
    /// bytes are not an image the `image` crate can decode.
    pub fn load_from_memory(data: &[u8]) -> (r: Option<SheetImage>)
        ensures
            match r {
                None => decoded_rgba(data@) is None,
                Some(img) => {
                    &&& decoded_rgba(data@) == Some((img.width as nat, img.height as nat, img.rgba@))
                    &&& img.rgba@.len() == img.width * img.height * 4
                },
            },
    {
        match decode_rgba(data) {
            Some((width, height, rgba)) => Some(SheetImage { width, height, rgba }),
            None => None,
        }
    }
}

} // verus!
