use vstd::prelude::*;
use crate::physics::{whole, SUBUNITS, WORLD_WIDTH};
use crate::raster::{blend, blend_spec, Image, Rgba};
use crate::sprite::Sprite;

verus! {

/// Bytes in one RGBA8 frame of the world.
pub const FRAME_BYTES: usize = 147456;

/// What the compositor reads of a sprite.
pub struct Layer {
    pub size: (u16, u16),
    pub position: (i64, i64),
    pub offset: (u16, u16),
    pub texture: Image,
}

pub open spec fn layer_of(s: Sprite) -> Layer {
    Layer {
        size: s.size,
        position: s.position,
        offset: s.sprite_sheet.current().current_position,
        texture: s.sprite_sheet.texture,
    }
}

pub open spec fn layers_of(sprites: Seq<Sprite>) -> Seq<Layer> {
    sprites.map_values(|s: Sprite| layer_of(s))
}

/// The buffer byte where pixel `z` of the layer's frame lands: its world
/// position scaled to the buffer, or byte 0 when that falls outside it.
pub open spec fn target_index(l: Layer, z: int) -> int {
    let x = z % (l.size.0 as int);
    let y = z / (l.size.0 as int);
    let row = (y + whole(l.position.1 as int)) * WORLD_WIDTH as int;
    let i = (row + x + whole(l.position.0 as int)) * 4;
    if 0 <= i < FRAME_BYTES as int { i } else { 0 }
}

/// Pixel `z` of the layer's frame, read from the sheet at the frame's offset.
pub open spec fn source_pixel(l: Layer, z: int) -> Rgba {
    let x = z % (l.size.0 as int);
    let y = z / (l.size.0 as int);
    l.texture.pixel_spec(x + l.offset.0 as int, y + l.offset.1 as int)
}

pub open spec fn pixel_at(buf: Seq<u8>, i: int) -> Rgba {
    Rgba { r: buf[i], g: buf[i + 1], b: buf[i + 2], a: buf[i + 3] }
}

pub open spec fn put_pixel(buf: Seq<u8>, i: int, p: Rgba) -> Seq<u8> {
    buf.update(i, p.r).update(i + 1, p.g).update(i + 2, p.b).update(i + 3, p.a)
}

/// `buf` with the first `n` pixels of the layer's frame blended in, in order.
pub open spec fn paint_pixels(buf: Seq<u8>, l: Layer, n: nat) -> Seq<u8>
    decreases n,
{
    if n == 0 {
        buf
    } else {
        let prev = paint_pixels(buf, l, (n - 1) as nat);
        let i = target_index(l, n - 1);
        put_pixel(prev, i, blend_spec(pixel_at(prev, i), source_pixel(l, n - 1)))
    }
}

/// `buf` with the first `k` layers painted over it, later ones on top.
pub open spec fn paint_layers(buf: Seq<u8>, layers: Seq<Layer>, k: nat) -> Seq<u8>
    decreases k,
{
    if k == 0 {
        buf
    } else {
        let l = layers[k - 1];
        paint_pixels(paint_layers(buf, layers, (k - 1) as nat), l, (l.size.0 * l.size.1) as nat)
    }
}

/// The frame: every sprite painted over the background, in list order.
pub open spec fn compose(background: Seq<u8>, sprites: Seq<Sprite>) -> Seq<u8> {
    paint_layers(background, layers_of(sprites), sprites.len())
}

proof fn lemma_paint_len(buf: Seq<u8>, l: Layer, n: nat)
    requires
        buf.len() == FRAME_BYTES,
    ensures
        paint_pixels(buf, l, n).len() == FRAME_BYTES,
    decreases n,
{
    if n > 0 {
        lemma_paint_len(buf, l, (n - 1) as nat);
    }
}

pub proof fn lemma_paint_layers_len(buf: Seq<u8>, layers: Seq<Layer>, k: nat)
    requires
        buf.len() == FRAME_BYTES,
    ensures
        paint_layers(buf, layers, k).len() == FRAME_BYTES,
    decreases k,
{
    if k > 0 {
        lemma_paint_layers_len(buf, layers, (k - 1) as nat);
        let l = layers[k - 1];
        lemma_paint_len(paint_layers(buf, layers, (k - 1) as nat), l, (l.size.0 * l.size.1) as nat);
    }
}

/// The whole pixel of a fixed-point coordinate, rounded toward zero.
pub fn whole_exec(p: i64) -> (r: i64)
    ensures
        r == whole(p as int),
        -1000000000000000 <= r <= 1000000000000000,
{
    let q = p as i128;
    let s = SUBUNITS as i128;
    let t: i128 = if q >= 0 { q / s } else { -((-q) / s) };
    t as i64
}

/// Blends every pixel of the sprite's current frame into `frame`.
pub fn paint_sprite(frame: &mut Vec<u8>, sprite: &Sprite)
    requires
        old(frame)@.len() == FRAME_BYTES,
        sprite.wf(),
    ensures
        final(frame)@ == paint_pixels(old(frame)@, layer_of(*sprite), (sprite.size.0 * sprite.size.1) as nat),
{
    let ghost l = layer_of(*sprite);
    let ghost start = frame@;
    let w = sprite.size.0 as usize;
    let h = sprite.size.1 as usize;
    proof {
        assert(w * h <= 65535 * 65535) by (nonlinear_arith) requires w <= 65535, h <= 65535;
    }
    let n: usize = w * h;
    let offset = sprite.get_sheet_offset();
    let tx = whole_exec(sprite.position.0);
    let ty = whole_exec(sprite.position.1);
    let mut z: usize = 0;
    while z < n
        invariant
            frame@.len() == FRAME_BYTES,
            n == w * h,
            w == sprite.size.0,
            h == sprite.size.1,
            l == layer_of(*sprite),
            offset == l.offset,
            tx == whole(sprite.position.0 as int),
            ty == whole(sprite.position.1 as int),
            -1000000000000000 <= tx <= 1000000000000000,
            -1000000000000000 <= ty <= 1000000000000000,
            sprite.wf(),
            0 <= z <= n,
            frame@ == paint_pixels(start, l, z as nat),
        decreases n - z,
    {
        proof {
            assert(w > 0) by (nonlinear_arith) requires z < n, n == w * h;
            assert(z / w < h) by (nonlinear_arith) requires z < n, n == w * h, w > 0;
        }
        let x = z % w;
        let y = z / w;
        let row: i64 = (y as i64 + ty) * (WORLD_WIDTH as i64);
        let at: i64 = (row + x as i64 + tx) * 4;
        let i: usize = if 0 <= at && at < FRAME_BYTES as i64 { at as usize } else { 0 };
        assert(i == target_index(l, z as int));
        let src = sprite.get_sprite_sheet().get_pixel((x + offset.0 as usize) as u32, (y + offset.1 as usize) as u32);
        assert(src == source_pixel(l, z as int));
        let dst = Rgba { r: frame[i], g: frame[i + 1], b: frame[i + 2], a: frame[i + 3] };
        let out = blend(dst, src);
        frame[i] = out.r;
        frame[i + 1] = out.g;
        frame[i + 2] = out.b;
        frame[i + 3] = out.a;
        z = z + 1;
        assert(frame@ =~= paint_pixels(start, l, z as nat));
    }
}

} // verus!
