use shm_window::pool::{BufferLayout, PoolBuilder, PoolStep};
use shm_window::redraw::{advance_cursor, fill_region, paint_motif, MOTIF_LEN};
use shm_window::window::Window;

const MOTIF: [u8; 16] = [
    0x00, 0x00, 0x00, 0x00, 0x42, 0x42, 0x42, 0x42, 0xBB, 0xBB, 0xBB, 0xBB, 0xCA, 0xCA, 0xCA, 0xCA,
];

#[test]
fn cursor_wraps_as_observed() {
    let mut c = 0usize;
    let mut seen = Vec::new();
    for _ in 0..8 {
        c = advance_cursor(c, 120, 16);
        seen.push(c);
    }
    assert_eq!(seen, vec![16, 32, 48, 64, 80, 96, 112, 8]);
    assert_eq!(advance_cursor(104, 120, 16), 16);
}

#[test]
fn cursor_on_full_window_region() {
    assert_eq!(advance_cursor(307168, 307200, 16), 307184);
    assert_eq!(advance_cursor(307184, 307200, 16), 16);
}

#[test]
fn motif_written_at_offset() {
    let mut region = vec![0xFFu8; 40];
    paint_motif(&mut region, 8);
    assert_eq!(&region[8..24], &MOTIF[..]);
    assert!(region[..8].iter().all(|b| *b == 0xFF));
    assert!(region[24..].iter().all(|b| *b == 0xFF));
    assert_eq!(MOTIF_LEN, 16);
}

#[test]
fn region_filled() {
    let mut region = vec![0u8; 33];
    fill_region(&mut region, 0xFF);
    assert!(region.iter().all(|b| *b == 0xFF));
    assert_eq!(region.len(), 33);
}

fn window(width: i32, height: i32, n: usize) -> Window {
    let l = BufferLayout::new(width, height).unwrap();
    let mut b = PoolBuilder::new(b"w", l, n);
    while let PoolStep::Create(_) = b.next_step() {
        b.segment_created();
    }
    b.finish()
}

#[test]
fn redraw_rotates_buffers() {
    for n in 1..5usize {
        let mut w = window(4, 4, n);
        let mut prev = w.current();
        for m in 1..=12usize {
            let p = w.redraw();
            assert_eq!(p.buffer, m % n);
            assert_eq!(w.current(), m % n);
            if n >= 2 {
                assert_ne!(p.buffer, prev);
            }
            prev = p.buffer;
        }
    }
}

#[test]
fn redraw_advances_only_the_targeted_cursor() {
    let mut w = window(30, 1, 2);
    let p = w.redraw();
    assert_eq!(p.buffer, 1);
    assert_eq!(w.cursor(1), 16);
    assert_eq!(w.cursor(0), 0);
    assert_eq!((p.width, p.height), (30, 1));
    assert!(w.callback_pending());
    let p = w.frame_done();
    assert_eq!(p.buffer, 0);
    assert_eq!(w.cursor(0), 16);
    assert!(w.callback_pending());
}

#[test]
fn write_offset_held_inside_region() {
    let mut w = window(30, 1, 1);
    let mut offsets = Vec::new();
    let mut cursors = Vec::new();
    for _ in 0..8 {
        let p = w.redraw();
        offsets.push(p.offset);
        cursors.push(w.cursor(0));
    }
    assert_eq!(cursors, vec![16, 32, 48, 64, 80, 96, 112, 8]);
    assert_eq!(offsets, vec![16, 32, 48, 64, 80, 96, 104, 8]);
    for o in offsets {
        assert!(o + MOTIF_LEN <= 120);
    }
}
