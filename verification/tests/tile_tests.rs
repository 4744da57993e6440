use tile_pipeline::config::AppConfig;
use tile_pipeline::tile::get_tile_bounds;

fn cfg(width: u32, height: u32, tile_size: u8) -> AppConfig {
    AppConfig::new(width, height, tile_size, 2, 8, 16, 100).unwrap()
}

#[test]
fn bounds_of_interior_tiles() {
    let c = cfg(64, 64, 32);
    assert_eq!(get_tile_bounds(&c, 0), (0, 0, 31, 31));
    assert_eq!(get_tile_bounds(&c, 1), (32, 0, 63, 31));
    assert_eq!(get_tile_bounds(&c, 2), (0, 32, 31, 63));
    assert_eq!(get_tile_bounds(&c, 3), (32, 32, 63, 63));
}

#[test]
fn bounds_of_clipped_tiles() {
    let c = cfg(100, 50, 30);
    // 4 columns, 2 rows; the right column and bottom row are clipped.
    assert_eq!(get_tile_bounds(&c, 0), (0, 0, 29, 29));
    assert_eq!(get_tile_bounds(&c, 3), (90, 0, 99, 29));
    assert_eq!(get_tile_bounds(&c, 4), (0, 30, 29, 49));
    assert_eq!(get_tile_bounds(&c, 7), (90, 30, 99, 49));
}

#[test]
fn bounds_of_single_pixel_image() {
    let c = cfg(1, 1, 255);
    assert_eq!(get_tile_bounds(&c, 0), (0, 0, 0, 0));
}

#[test]
fn bounds_stay_inside_image() {
    let c = cfg(97, 41, 16);
    let tiles = c.tiles();
    for t in 0..tiles {
        let (x_min, y_min, x_max, y_max) = get_tile_bounds(&c, t);
        assert!(x_min <= x_max);
        assert!(y_min <= y_max);
        assert!(x_max < c.width);
        assert!(y_max < c.height);
    }
}

#[test]
fn bounds_are_deterministic() {
    let c = cfg(100, 50, 30);
    for t in 0..c.tiles() {
        let first = get_tile_bounds(&c, t);
        let second = get_tile_bounds(&c, t);
        assert_eq!(first, second);
    }
}

#[test]
fn bounds_partition_the_image() {
    // Every pixel lies in exactly one tile's bounds.
    let c = cfg(97, 41, 16);
    let tiles = c.tiles();
    let mut owners = vec![0u32; (c.width * c.height) as usize];
    for t in 0..tiles {
        let (x_min, y_min, x_max, y_max) = get_tile_bounds(&c, t);
        for y in y_min..=y_max {
            for x in x_min..=x_max {
                owners[(y * c.width + x) as usize] += 1;
            }
        }
    }
    for count in owners {
        assert_eq!(count, 1);
    }
}
