use invaders::video::{Display, BACKGROUND, DISPLAY_H, DISPLAY_W, GREEN, RED, VRAM_LEN, WHITE};

fn light(vram: &mut [u8], x: usize, y: usize) {
    vram[y * 32 + x / 8] |= 1 << (x % 8);
}

fn decode(vram: &[u8]) -> Vec<u32> {
    let mut d = Display::power_up();
    d.draw_pixel(vram);
    d.raster
}

fn at(raster: &[u32], x: usize, y: usize) -> u32 {
    raster[DISPLAY_W * (255 - x) + y]
}

#[test]
fn power_up_raster_size() {
    let d = Display::power_up();
    assert_eq!(d.raster.len(), DISPLAY_W * DISPLAY_H);
}

#[test]
fn blank_memory_gives_background() {
    let vram = vec![0u8; VRAM_LEN];
    let r = decode(&vram);
    assert_eq!(r.len(), DISPLAY_W * DISPLAY_H);
    assert!(r.iter().all(|&p| p == BACKGROUND));
}

#[test]
fn lit_pixel_is_rotated() {
    let mut vram = vec![0u8; VRAM_LEN];
    light(&mut vram, 100, 7);
    let r = decode(&vram);
    assert_eq!(r[DISPLAY_W * 155 + 7], WHITE);
    assert_eq!(r.iter().filter(|&&p| p != BACKGROUND).count(), 1);
}

#[test]
fn first_byte_bit_order() {
    let mut vram = vec![0u8; VRAM_LEN];
    vram[0] = 0x01;
    let r = decode(&vram);
    // native (0, 0) lands on the last output row, first column
    assert_eq!(r[DISPLAY_W * 255], WHITE);
    vram[0] = 0x80;
    let r = decode(&vram);
    assert_eq!(r[DISPLAY_W * 248], WHITE);
    assert_eq!(r[DISPLAY_W * 255], BACKGROUND);
}

#[test]
fn color_zones() {
    let mut vram = vec![0u8; VRAM_LEN];
    light(&mut vram, 30, 5);
    light(&mut vram, 5, 50);
    light(&mut vram, 5, 10);
    light(&mut vram, 15, 0);
    light(&mut vram, 210, 100);
    light(&mut vram, 200, 3);
    light(&mut vram, 220, 3);
    light(&mut vram, 221, 3);
    light(&mut vram, 128, 128);
    light(&mut vram, 63, 223);
    light(&mut vram, 64, 223);
    let r = decode(&vram);
    assert_eq!(at(&r, 30, 5), GREEN);
    assert_eq!(at(&r, 5, 50), GREEN);
    assert_eq!(at(&r, 5, 10), WHITE);
    assert_eq!(at(&r, 15, 0), GREEN);
    assert_eq!(at(&r, 210, 100), RED);
    assert_eq!(at(&r, 200, 3), RED);
    assert_eq!(at(&r, 220, 3), RED);
    assert_eq!(at(&r, 221, 3), WHITE);
    assert_eq!(at(&r, 128, 128), WHITE);
    assert_eq!(at(&r, 63, 223), GREEN);
    assert_eq!(at(&r, 64, 223), WHITE);
    assert_eq!(at(&r, 129, 128), BACKGROUND);
}

#[test]
fn redraw_replaces_frame() {
    let mut d = Display::power_up();
    let mut vram = vec![0u8; VRAM_LEN];
    light(&mut vram, 128, 128);
    d.draw_pixel(&vram);
    assert_eq!(at(&d.raster, 128, 128), WHITE);
    let blank = vec![0u8; VRAM_LEN];
    d.draw_pixel(&blank);
    assert_eq!(at(&d.raster, 128, 128), BACKGROUND);
}
