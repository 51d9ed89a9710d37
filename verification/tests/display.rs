use chip8::ui::game::{get_braille_for_bits, get_quarter_for_bits, Game};
use chip8::vm::exec::Step;
use chip8::vm::Vm;

fn fresh_vm() -> Vm {
    let mut vm = Vm::new();
    vm.load_program(&[]).unwrap();
    vm
}

fn pixel(vm: &Vm, x: usize, y: usize) -> bool {
    (vm.vram[y] >> (63 - x)) & 1 == 1
}

fn put_sprite(vm: &mut Vm, addr: usize, rows: &[u8]) {
    vm.mem[addr..addr + rows.len()].copy_from_slice(rows);
    vm.reg_i = addr as u16;
}

#[test]
fn clear_display_unsets_every_pixel() {
    let mut vm = fresh_vm();
    put_sprite(&mut vm, 0x300, &[0xFF, 0x81, 0xFF]);
    vm.reg8[0] = 10;
    vm.reg8[1] = 10;
    vm.drw(0, 1, 3).unwrap();
    assert!(vm.vram.iter().any(|&row| row != 0), "the draw left pixels");

    assert_eq!(vm.cls().unwrap(), Step::Next);
    for y in 0..32 {
        for x in 0..64 {
            assert!(!pixel(&vm, x, y), "pixel ({}, {}) still set", x, y);
        }
    }
}

#[test]
fn draw_sets_pixels_and_reports_no_collision_on_blank_screen() {
    let mut vm = fresh_vm();
    put_sprite(&mut vm, 0x300, &[0b1010_0000]);
    vm.reg8[0] = 8;
    vm.reg8[1] = 4;
    vm.drw(0, 1, 1).unwrap();
    assert_eq!(vm.reg8[0xF], 0);
    assert!(pixel(&vm, 8, 4));
    assert!(!pixel(&vm, 9, 4));
    assert!(pixel(&vm, 10, 4));
    assert!(!pixel(&vm, 11, 4));
}

#[test]
fn draw_twice_is_idempotent_and_reports_the_collision() {
    let mut vm = fresh_vm();
    put_sprite(&mut vm, 0x300, &[0xF0, 0x90, 0xF0]);
    vm.reg8[0] = 20;
    vm.reg8[1] = 10;

    vm.drw(0, 1, 3).unwrap();
    assert_eq!(vm.reg8[0xF], 0, "first draw on a blank screen collides with nothing");
    let after_first = vm.vram;

    vm.drw(0, 1, 3).unwrap();
    assert_eq!(vm.reg8[0xF], 1, "the second identical draw erases the first");
    assert!(vm.vram.iter().all(|&row| row == 0));

    vm.drw(0, 1, 3).unwrap();
    assert_eq!(vm.reg8[0xF], 0);
    assert_eq!(vm.vram, after_first, "drawing again restores the picture");
}

#[test]
fn draw_zero_height_sprite_clears_the_flag_only() {
    let mut vm = fresh_vm();
    vm.reg8[0xF] = 1;
    vm.drw(0, 1, 0).unwrap();
    assert_eq!(vm.reg8[0xF], 0);
    assert!(vm.vram.iter().all(|&row| row == 0));
}

#[test]
fn draw_wraps_at_the_right_and_bottom_edges() {
    let mut vm = fresh_vm();
    put_sprite(&mut vm, 0x300, &[0xFF, 0xFF, 0xFF, 0xFF]);
    vm.reg8[0] = 60;
    vm.reg8[1] = 30;
    vm.drw(0, 1, 4).unwrap();
    assert_eq!(vm.reg8[0xF], 0);

    let lit_cols = [60, 61, 62, 63, 0, 1, 2, 3];
    let lit_rows = [30, 31, 0, 1];
    for y in 0..32 {
        for x in 0..64 {
            let expected = lit_cols.contains(&x) && lit_rows.contains(&y);
            assert_eq!(
                pixel(&vm, x, y),
                expected,
                "pixel ({}, {}) after the wrapped draw",
                x,
                y
            );
        }
    }
}

#[test]
fn draw_collision_only_where_pixels_overlap() {
    let mut vm = fresh_vm();
    put_sprite(&mut vm, 0x300, &[0b1000_0000]);
    vm.reg8[0] = 0;
    vm.reg8[1] = 0;
    vm.drw(0, 1, 1).unwrap();
    assert_eq!(vm.reg8[0xF], 0);

    // A second sprite one column over shares no pixel.
    vm.reg8[0] = 1;
    vm.drw(0, 1, 1).unwrap();
    assert_eq!(vm.reg8[0xF], 0);

    // Back on the original column the single pixel collides.
    vm.reg8[0] = 0;
    vm.drw(0, 1, 1).unwrap();
    assert_eq!(vm.reg8[0xF], 1);
    assert!(!pixel(&vm, 0, 0), "the collided pixel toggled off");
    assert!(pixel(&vm, 1, 0), "the neighbour pixel stayed");
}

#[test]
fn game_reports_framebuffer_dimensions() {
    let vm = fresh_vm();
    let game = Game::new(&vm.vram);
    assert_eq!(game.vram_width(), 64);
    assert_eq!(game.vram_height(), 32);
}

#[test]
fn quarter_blocks_cover_all_sixteen_patterns() {
    assert_eq!(get_quarter_for_bits(0b0000), Some(' '));
    assert_eq!(get_quarter_for_bits(0b0001), Some('▗'));
    assert_eq!(get_quarter_for_bits(0b0010), Some('▖'));
    assert_eq!(get_quarter_for_bits(0b0011), Some('▄'));
    assert_eq!(get_quarter_for_bits(0b0100), Some('▝'));
    assert_eq!(get_quarter_for_bits(0b0101), Some('▐'));
    assert_eq!(get_quarter_for_bits(0b0110), Some('▞'));
    assert_eq!(get_quarter_for_bits(0b0111), Some('▟'));
    assert_eq!(get_quarter_for_bits(0b1000), Some('▘'));
    assert_eq!(get_quarter_for_bits(0b1001), Some('▚'));
    assert_eq!(get_quarter_for_bits(0b1010), Some('▌'));
    assert_eq!(get_quarter_for_bits(0b1011), Some('▙'));
    assert_eq!(get_quarter_for_bits(0b1100), Some('▀'));
    assert_eq!(get_quarter_for_bits(0b1101), Some('▜'));
    assert_eq!(get_quarter_for_bits(0b1110), Some('▛'));
    assert_eq!(get_quarter_for_bits(0b1111), Some('█'));
    assert_eq!(get_quarter_for_bits(16), None);
    assert_eq!(get_quarter_for_bits(255), None);
}

#[test]
fn braille_blocks_map_to_the_braille_page() {
    assert_eq!(get_braille_for_bits(0), Some(' '));
    assert_eq!(get_braille_for_bits(1), Some('\u{2801}'));
    assert_eq!(get_braille_for_bits(0xFF), Some('\u{28FF}'));
    assert_eq!(get_braille_for_bits(0x55), Some('\u{2855}'));
}
