use cafe_rs::arena::Arena;
use cafe_rs::graphics::buffer::{buffer_len, element_count};
use cafe_rs::graphics::display::{AspectRatio, ScanMode, ScanTarget, TvMode, DRC, TV};
use cafe_rs::graphics::memory::{allocation_target, release_target, ResourceFlags, SCAN_BUFFER_ALIGN};
use cafe_rs::graphics::shader::{shader_counts, Stream};
use cafe_rs::graphics::sync::SwapStatus;
use cafe_rs::graphics::types::{Color, Rect};
use cafe_rs::graphics::view::{mip_extent, mip_len, View2D};

fn flags(scan: bool, color: bool, depth: bool, m1: bool, m2: bool) -> ResourceFlags {
    ResourceFlags { scan_buffer: scan, color_buffer: color, depth_buffer: depth, force_mem1: m1, force_mem2: m2 }
}

#[test]
fn rects() {
    assert_eq!(Rect::zero(), Rect { y: 0, x: 0, h: 0, w: 0 });
    assert_eq!(Rect::quad(1, 2, 3), Rect { y: 1, x: 2, h: 3, w: 3 });
    let a = Rect::quad(0, 0, 10);
    let b = Rect::quad(5, 5, 10);
    let c = Rect::quad(10, 0, 4);
    assert!(a.overlap(b) && b.overlap(a));
    // touching edges do not overlap
    assert!(!a.overlap(c) && !c.overlap(a));
    assert!(!Rect::zero().overlap(a) && !a.overlap(Rect::zero()));
    assert!(a.overlap(a));
}

#[test]
fn colours() {
    assert_eq!(Color::from_rgb((1, 2, 3)).rgba(), (1, 2, 3, 255));
}

#[test]
fn screens() {
    assert_eq!(TV::size(ScanMode::NTSC, AspectRatio::Standard), (640, 480));
    assert_eq!(TV::size(ScanMode::NTSCp, AspectRatio::Widescreen), (854, 480));
    assert_eq!(TV::size(ScanMode::PAL, AspectRatio::Standard), (1280, 720));
    assert_eq!(TV::size(ScanMode::FHDi, AspectRatio::Widescreen), (1920, 1080));
    assert_eq!(TV::mode(ScanMode::NTSC, AspectRatio::Widescreen), TvMode::Wide480);
    assert_eq!(TV::mode(ScanMode::HD, AspectRatio::Standard), TvMode::Wide720);
    assert_eq!(TV::mode(ScanMode::FHD, AspectRatio::Standard), TvMode::Wide1080);
    assert_eq!(TV::scan_target(), ScanTarget::Tv);
    assert_eq!(DRC::size(), (854, 480));
    assert_eq!(DRC::scan_target(), ScanTarget::Drc);
}

#[test]
fn tv_size_is_the_resolution_of_its_mode() {
    let res = |m: TvMode| match m {
        TvMode::Standard480 => (640, 480),
        TvMode::Wide480 => (854, 480),
        TvMode::Wide720 => (1280, 720),
        TvMode::Wide1080 => (1920, 1080),
    };
    for s in [ScanMode::NTSC, ScanMode::NTSCp, ScanMode::PAL, ScanMode::HD, ScanMode::FHD, ScanMode::FHDi] {
        for a in [AspectRatio::Standard, AspectRatio::Widescreen] {
            assert_eq!(TV::size(s, a), res(TV::mode(s, a)));
        }
    }
}

#[test]
fn graphics_memory_routing() {
    assert_eq!(allocation_target(flags(true, false, false, false, false), 64), (Arena::Foreground, SCAN_BUFFER_ALIGN));
    assert_eq!(allocation_target(flags(true, false, false, true, false), 64), (Arena::Foreground, 0x1000));
    assert_eq!(allocation_target(flags(true, false, false, true, true), 64), (Arena::Mem2, 64));
    assert_eq!(allocation_target(flags(false, true, false, false, false), 256), (Arena::Mem1, 256));
    assert_eq!(allocation_target(flags(false, false, true, false, true), 256), (Arena::Mem2, 256));
    assert_eq!(allocation_target(flags(false, false, false, true, false), 8), (Arena::Mem1, 8));
    assert_eq!(allocation_target(flags(false, false, false, false, false), 8), (Arena::Mem2, 8));
    for f in [flags(true, true, true, true, true), flags(false, true, false, false, false), flags(true, false, false, false, false)] {
        assert_eq!(release_target(f), allocation_target(f, 4).0);
    }
}

#[test]
fn buffers_and_streams() {
    assert_eq!(element_count(7), 7);
    assert_eq!(element_count((1usize << 32) + 5), 5);
    assert_eq!(buffer_len(9), 9);
    assert_eq!(Stream::S0.into_u32(), 0);
    assert_eq!(Stream::S15.into_u32(), 15);
}

#[test]
fn swap_status_starts_empty() {
    let s = SwapStatus::empty();
    assert_eq!((s.swaps, s.flips, s.last_flip.0, s.last_vsync.0), (0, 0, 0, 0));
}

#[test]
fn view_geometry() {
    let v = View2D::new(2, 3, 4);
    assert_eq!((v.width(), v.height(), v.pitch()), (2, 3, 4));
    assert_eq!(v.texel_offset(2, 1, 12), 9);
    assert_eq!(v.row_bounds(1, 12), Some((4, 6)));
    assert_eq!(v.row_bounds(3, 12), None);
    assert_eq!(v.row_bounds(2, 11), None);
}

#[test]
fn copy_2d_fills_rows_from_the_start_row() {
    let v = View2D::new(2, 3, 4);
    let mut data = [0u8; 12];
    let src = [1u8, 2, 3, 4, 5, 6];
    v.copy_from_slice_2d(&mut data, &src, Rect { y: 1, x: 0, h: 5, w: 2 });
    // rows 1 and 2 are written (the view has 3 rows); columns 2 and 3 are padding
    assert_eq!(data, [0, 0, 0, 0, 1, 2, 0, 0, 3, 4, 0, 0]);
}

#[test]
fn copy_2d_past_the_last_row_writes_nothing() {
    let v = View2D::new(2, 3, 4);
    let mut data = [9u8; 12];
    v.copy_from_slice_2d(&mut data, &[1, 2, 3], Rect { y: 3, x: 0, h: 1, w: 3 });
    assert_eq!(data, [9u8; 12]);
}

#[test]
fn copy_2d_honours_the_rectangle_columns() {
    // a 4-wide picture in rows of 5; copy a 2x2 block to row 1, column 1
    let v = View2D::new(4, 3, 5);
    let mut data = [0u8; 15];
    v.copy_from_slice_2d(&mut data, &[1, 2, 3, 4], Rect { y: 1, x: 1, h: 2, w: 2 });
    assert_eq!(data, [0, 0, 0, 0, 0, 0, 1, 2, 0, 0, 0, 3, 4, 0, 0]);
}

#[test]
fn copy_2d_narrow_rect_at_the_right_edge() {
    let v = View2D::new(3, 2, 3);
    let mut data = [7u8; 6];
    v.copy_from_slice_2d(&mut data, &[1, 2, 3], Rect { y: 0, x: 2, h: 3, w: 1 });
    // the third source row has no view row to land in
    assert_eq!(data, [7, 7, 1, 7, 7, 2]);
}

#[test]
fn mip_levels() {
    assert_eq!(mip_extent(100, 3), 12);
    assert_eq!(mip_extent(1, 5), 1);
    assert_eq!(mip_extent(64, 0), 64);
    let offsets = [0u32, 100, 150, 170, 0, 0, 0, 0, 0, 0, 0, 0, 0];
    assert_eq!(mip_len(0, 4, 400, 180, &offsets), 400);
    assert_eq!(mip_len(1, 4, 400, 180, &offsets), 100);
    assert_eq!(mip_len(2, 4, 400, 180, &offsets), 50);
    assert_eq!(mip_len(3, 4, 400, 180, &offsets), 30);
}

#[test]
fn shader_record_counts() {
    let c = shader_counts(1, 2, 3, 4, 5, 6, 1024);
    assert_eq!(
        (c.num_uniform_blocks, c.num_uniforms, c.num_initial_values, c.num_loops),
        (1, 2, 3, 4)
    );
    assert_eq!((c.num_samplers, c.num_attribs, c.shader_size), (5, 6, 1024));
    // a length past 32 bits keeps its low 32 bits in the record
    assert_eq!(shader_counts(0, 0, 0, 0, 0, 0, usize::MAX).shader_size, u32::MAX);
}
