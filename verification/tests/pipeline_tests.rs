use tile_pipeline::config::AppConfig;
use tile_pipeline::framebuffer::{copy_tile, new_frame};
use tile_pipeline::merger::merger_step;
use tile_pipeline::messages::{ResultMessage, TilePixels, WorkMessage};
use tile_pipeline::pipeline::render_all;
use tile_pipeline::render::render_tile;
use tile_pipeline::scheduler::schedule_order;
use tile_pipeline::tile::get_tile_bounds;
use tile_pipeline::worker::{new_tile_buffer, simulated_load_millis, worker_step, WorkerAction};

fn cfg(width: u32, height: u32, tile_size: u8, threads: usize) -> AppConfig {
    AppConfig::new(width, height, tile_size, threads, 8, 16, 100).unwrap()
}

/// The pixel block `render_tile` produces for one tile of `c`.
fn rendered(c: &AppConfig, t: u32) -> Vec<u8> {
    let mut buf = new_tile_buffer(c);
    render_tile(t, &mut buf);
    buf
}

/// Checks that `frame` holds, inside every tile's bounds, the bytes that
/// tile's render produced, at the right tile-local offsets.
fn assert_frame_complete(c: &AppConfig, frame: &[u8]) {
    assert_eq!(frame.len(), (c.width * c.height * 4) as usize);
    let ts = c.tile_size as usize;
    for t in 0..c.tiles() {
        let block = rendered(c, t);
        let (x_min, y_min, x_max, y_max) = get_tile_bounds(c, t);
        for y in y_min..=y_max {
            for x in x_min..=x_max {
                let dst = ((y * c.width + x) * 4) as usize;
                let src = (((y - y_min) as usize * ts) + (x - x_min) as usize) * 4;
                assert_eq!(&frame[dst..dst + 4], &block[src..src + 4]);
            }
        }
    }
}

#[test]
fn render_tile_fills_solid_color() {
    let mut buf = vec![0u8; 6 * 4];
    render_tile(3, &mut buf);
    let first = [buf[0], buf[1], buf[2], buf[3]];
    assert_eq!(first[3], 255);
    for pixel in buf.chunks(4) {
        assert_eq!(pixel, &first);
    }
}

#[test]
fn render_tile_is_deterministic() {
    let mut a = vec![0u8; 16];
    let mut b = vec![0u8; 16];
    render_tile(11, &mut a);
    render_tile(11, &mut b);
    assert_eq!(a, b);
}

#[test]
fn copy_tile_writes_only_its_rectangle() {
    let c = cfg(8, 8, 4, 2);
    let mut frame = new_frame(&c);
    let block = rendered(&c, 1);
    copy_tile(&c, 1, &block, &mut frame);
    let (x_min, y_min, x_max, y_max) = get_tile_bounds(&c, 1);
    assert_eq!((x_min, y_min, x_max, y_max), (4, 0, 7, 3));
    for y in 0..8u32 {
        for x in 0..8u32 {
            let dst = ((y * 8 + x) * 4) as usize;
            if x >= 4 && y <= 3 {
                let src = (((y - y_min) as usize * 4) + (x - x_min) as usize) * 4;
                assert_eq!(&frame[dst..dst + 4], &block[src..src + 4]);
            } else {
                assert_eq!(&frame[dst..dst + 4], &[0, 0, 0, 0]);
            }
        }
    }
}

#[test]
fn worker_step_renders_a_tile() {
    let c = cfg(64, 64, 32, 2);
    let mut scratch = new_tile_buffer(&c);
    match worker_step(&c, WorkMessage::Process(2), &mut scratch) {
        WorkerAction::Rendered(tp) => {
            assert_eq!(tp.tile_idx, 2);
            assert_eq!(tp.pixels, rendered(&c, 2));
            assert_eq!(tp.pixels, scratch);
        }
        WorkerAction::Exit => panic!("a tile message must render"),
    }
}

#[test]
fn worker_step_exits_on_stop() {
    let c = cfg(64, 64, 32, 2);
    let mut scratch = new_tile_buffer(&c);
    let before = scratch.clone();
    assert!(matches!(worker_step(&c, WorkMessage::Stop, &mut scratch), WorkerAction::Exit));
    assert_eq!(scratch, before);
}

#[test]
fn merger_step_merges_and_stops() {
    let c = cfg(8, 8, 4, 2);
    let mut frame = new_frame(&c);
    let block = rendered(&c, 0);
    let stop = merger_step(
        &c,
        ResultMessage::Merge(TilePixels { tile_idx: 0, pixels: block.clone() }),
        &mut frame,
    );
    assert!(!stop);
    assert_eq!(&frame[0..4], &block[0..4]);
    let before = frame.clone();
    let stop = merger_step(&c, ResultMessage::Stop, &mut frame);
    assert!(stop);
    assert_eq!(frame, before);
}

#[test]
fn full_run_covers_the_frame() {
    // width=64, height=64, tile_size=32, two workers: four tiles; after a
    // full run the four tile rectangles partition the buffer, each holding
    // the color its tile's render produced, and every alpha byte is set.
    let c = cfg(64, 64, 32, 2);
    let mut frame = new_frame(&c);
    render_all(&c, &mut frame);
    assert_frame_complete(&c, &frame);
    for pixel in frame.chunks(4) {
        assert_eq!(pixel[3], 255);
    }
}

#[test]
fn full_run_with_clipped_tiles() {
    let c = cfg(50, 30, 16, 2);
    let mut frame = new_frame(&c);
    render_all(&c, &mut frame);
    assert_frame_complete(&c, &frame);
}

#[test]
fn single_worker_processes_all_tiles() {
    // worker_count = 1: one worker, with its one reusable scratch block,
    // renders every scheduled tile; the merged frame is still complete.
    let c = cfg(16, 16, 8, 1);
    let order = schedule_order(&c);
    let mut scratch = new_tile_buffer(&c);
    let mut frame = new_frame(&c);
    for &t in order.iter() {
        match worker_step(&c, WorkMessage::Process(t), &mut scratch) {
            WorkerAction::Rendered(tp) => {
                let stop = merger_step(&c, ResultMessage::Merge(tp), &mut frame);
                assert!(!stop);
            }
            WorkerAction::Exit => panic!("a tile message must render"),
        }
    }
    assert!(merger_step(&c, ResultMessage::Stop, &mut frame));
    assert_frame_complete(&c, &frame);
}

#[test]
fn simulated_load_stays_in_range() {
    let c = cfg(64, 64, 32, 2);
    for _ in 0..32 {
        let ms = simulated_load_millis(&c);
        assert!(1 <= ms && ms <= c.max_load_millis);
    }
    let quick = AppConfig::new(64, 64, 32, 2, 8, 16, 1).unwrap();
    assert_eq!(simulated_load_millis(&quick), 1);
}
