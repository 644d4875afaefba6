use stage0::build_id::BuildId;
use stage0::gpio::{pin_reset_word, pin_set_word, toggled};
use stage0::regs::reg32;
use stage0::startup::{init_start, init_step, run_init, DataLayout, InitPhase, Memory, MemOp};
use stage0::timing::{delay_cycles, delay_ms};

fn layout(sidata: u32, sdata: u32, edata: u32, sbss: u32, ebss: u32) -> DataLayout {
    DataLayout { sidata, sdata, edata, sbss, ebss }
}

#[test]
fn empty_regions_make_no_access() {
    let l = layout(0x100, 0x100, 0x100, 0x100, 0x100);
    let (next, op) = init_step(&l, init_start());
    assert_eq!(op, MemOp::Finished);
    assert_eq!(next.phase, InitPhase::Finished);
    let mut mem = Memory { base: 0x100, words: vec![7, 8, 9] };
    assert_eq!(run_init(&mut mem, &l), 0);
    assert_eq!(mem.words, vec![7, 8, 9]);
    let mut none = Memory { base: 0, words: Vec::new() };
    assert_eq!(run_init(&mut none, &layout(0x40, 0x40, 0x40, 0x80, 0x80)), 0);
}

#[test]
fn init_copies_image_and_zeroes_bss() {
    // words: [0..4) image, [4..7) data, [7..10) bss, [10] untouched
    let mut mem = Memory { base: 0x2000, words: vec![1, 2, 3, 4, 0, 0, 0, 9, 9, 9, 5] };
    let l = layout(0x2000, 0x2010, 0x201C, 0x201C, 0x2028);
    let n = run_init(&mut mem, &l);
    assert_eq!(n, 6);
    assert_eq!(mem.words, vec![1, 2, 3, 4, 1, 2, 3, 0, 0, 0, 5]);
}

#[test]
fn init_step_order() {
    let l = layout(0x0, 0x10, 0x14, 0x20, 0x24);
    let (c, op) = init_step(&l, init_start());
    assert_eq!(op, MemOp::CopyWord { from: 0x0, to: 0x10 });
    let (c, op) = init_step(&l, c);
    assert_eq!(op, MemOp::ZeroWord { at: 0x20 });
    let (_, op) = init_step(&l, c);
    assert_eq!(op, MemOp::Finished);
}

#[test]
fn pin_words() {
    assert_eq!(pin_set_word(3), 0x8);
    assert_eq!(pin_reset_word(3), 0x0008_0000);
    assert_eq!(toggled(0x8, 3), 0);
    assert_eq!(toggled(0x1, 3), 0x9);
    assert_eq!(reg32(0x4800_0418).addr, 0x4800_0418);
}

#[test]
fn delays_count_spins() {
    assert_eq!(delay_cycles(0), 0);
    assert_eq!(delay_cycles(17), 17);
    assert_eq!(delay_ms(0), 0);
    assert_eq!(delay_ms(3), 12_000);
}

#[test]
fn build_id_is_kept_byte_for_byte() {
    let good = b"@FWID\nstage=stage0\ntarget=NUCLEO-L432KC\ngit=nogit\nbuilt=unknown\n".to_vec();
    let bad = vec![0xFF, 0x00, b'=', b'\n', 0x80];
    let a = BuildId::embed(good.clone());
    let b = BuildId::embed(bad.clone());
    assert_eq!(a.as_bytes(), &good);
    assert_eq!(b.as_bytes(), &bad);
    assert_eq!(a.len(), good.len());
    assert_eq!(BuildId::embed(Vec::new()).len(), 0);
}
