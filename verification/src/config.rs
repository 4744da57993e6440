//! Run configuration: image dimensions, tile size, worker count and timing
//! parameters, validated once before the pipeline starts.

use vstd::prelude::*;

verus! {

/// Number of bytes per pixel (RGBA).
pub const COLOR_CHANNELS: usize = 4;

/// Ceiling of `a / b` for non-negative `a` and positive `b`.
pub open spec fn div_ceil(a: int, b: int) -> int
    recommends
        a >= 0,
        b >= 1,
{
    (a + b - 1) / b
}

/// Immutable run parameters, shared read-only by every component.
#[derive(Clone, Copy, Debug)]
pub struct AppConfig {
    /// Image width in pixels.
    pub width: u32,
    /// Image height in pixels.
    pub height: u32,
    /// Side length of a square tile, in pixels.
    pub tile_size: u8,
    /// Number of worker threads.
    pub num_threads: usize,
    /// Interval between redraw requests, in milliseconds.
    pub redraw_interval_ms: u64,
    /// Upper bound on the simulated per-tile render latency, in milliseconds.
    pub max_load_millis: u64,
}

/// Why a configuration was rejected.
#[derive(Clone, Copy, Debug, PartialEq, Eq, Structural)]
pub enum ConfigError {
    /// The image width is zero.
    ZeroWidth,
    /// The image height is zero.
    ZeroHeight,
    /// The tile size is zero.
    ZeroTileSize,
    /// The worker count is zero.
    ZeroThreads,
    /// The worker count exceeds the available parallelism.
    TooManyThreads,
    /// The maximum simulated latency is zero.
    ZeroMaxLatency,
    /// The frame buffer would not fit in memory.
    ImageTooLarge,
    /// The tile count would not fit in 32 bits.
    TooManyTiles,
}

impl AppConfig {
    /// Number of tile columns.
    pub open spec fn spec_tiles_x(&self) -> int {
        div_ceil(self.width as int, self.tile_size as int)
    }

    /// Number of tile rows.
    pub open spec fn spec_tiles_y(&self) -> int {
        div_ceil(self.height as int, self.tile_size as int)
    }

    /// Total number of tiles.
    pub open spec fn spec_tiles(&self) -> int {
        self.spec_tiles_x() * self.spec_tiles_y()
    }

    /// Size in bytes of the frame buffer for the whole image.
    pub open spec fn spec_frame_bytes(&self) -> int {
        self.width * self.height * 4
    }

    /// A configuration the pipeline may run with.
    pub open spec fn valid(&self) -> bool {
        &&& self.width >= 1
        &&& self.height >= 1
        &&& self.tile_size >= 1
        &&& self.num_threads >= 1
        &&& self.max_load_millis >= 1
        &&& self.spec_frame_bytes() <= usize::MAX
        &&& self.spec_tiles() <= u32::MAX
    }

    /// Validates the run parameters, rejecting each invalid combination with
    /// the reason; `max_threads` is the machine's available parallelism,
    /// supplied by the caller.
    pub fn new(
        width: u32,
        height: u32,
        tile_size: u8,
        num_threads: usize,
        max_threads: usize,
        redraw_interval_ms: u64,
        max_load_millis: u64,
    ) -> (r: Result<AppConfig, ConfigError>)
        ensures
            r matches Err(ConfigError::ZeroWidth) <==> width == 0,
            r matches Err(ConfigError::ZeroHeight) <==> (width >= 1 && height == 0),
            r matches Err(ConfigError::ZeroTileSize) <==> (width >= 1 && height >= 1 && tile_size == 0),
            r matches Err(ConfigError::ZeroThreads)
                <==> (width >= 1 && height >= 1 && tile_size >= 1 && num_threads == 0),
            r matches Err(ConfigError::TooManyThreads)
                <==> (width >= 1 && height >= 1 && tile_size >= 1 && num_threads >= 1
                    && num_threads > max_threads),
            r matches Err(ConfigError::ZeroMaxLatency)
                <==> (width >= 1 && height >= 1 && tile_size >= 1 && num_threads >= 1
                    && num_threads <= max_threads && max_load_millis == 0),
            r matches Err(ConfigError::ImageTooLarge)
                <==> (width >= 1 && height >= 1 && tile_size >= 1 && num_threads >= 1
                    && num_threads <= max_threads && max_load_millis >= 1
                    && width * height * 4 > usize::MAX),
            r matches Err(ConfigError::TooManyTiles)
                <==> (width >= 1 && height >= 1 && tile_size >= 1 && num_threads >= 1
                    && num_threads <= max_threads && max_load_millis >= 1
                    && width * height * 4 <= usize::MAX
                    && div_ceil(width as int, tile_size as int)
                        * div_ceil(height as int, tile_size as int) > u32::MAX),
            r matches Ok(c) ==> c == (AppConfig {
                width,
                height,
                tile_size,
                num_threads,
                redraw_interval_ms,
                max_load_millis,
            }) && c.valid() && num_threads <= max_threads,
            r is Ok <==> (width >= 1 && height >= 1 && tile_size >= 1 && num_threads >= 1
                && num_threads <= max_threads && max_load_millis >= 1
                && width * height * 4 <= usize::MAX
                && div_ceil(width as int, tile_size as int)
                    * div_ceil(height as int, tile_size as int) <= u32::MAX),
    {
        if width == 0 {
            return Err(ConfigError::ZeroWidth);
        }
        if height == 0 {
            return Err(ConfigError::ZeroHeight);
        }
        if tile_size == 0 {
            return Err(ConfigError::ZeroTileSize);
        }
        if num_threads == 0 {
            return Err(ConfigError::ZeroThreads);
        }
        if num_threads > max_threads {
            return Err(ConfigError::TooManyThreads);
        }
        if max_load_millis == 0 {
            return Err(ConfigError::ZeroMaxLatency);
        }
        proof {
            lemma_mul_le(width as int, height as int, u32::MAX as int, u32::MAX as int);
        }
        let frame_bytes: u128 = width as u128 * height as u128 * 4;
        if frame_bytes > usize::MAX as u128 {
            return Err(ConfigError::ImageTooLarge);
        }
        let tx: u128 = (width as u128 + tile_size as u128 - 1) / tile_size as u128;
        let ty: u128 = (height as u128 + tile_size as u128 - 1) / tile_size as u128;
        proof {
            vstd::arithmetic::div_mod::lemma_div_nonincreasing(
                width + tile_size - 1,
                tile_size as int,
            );
            vstd::arithmetic::div_mod::lemma_div_nonincreasing(
                height + tile_size - 1,
                tile_size as int,
            );
            lemma_mul_le(tx as int, ty as int, 0x2_0000_0000, 0x2_0000_0000);
        }
        if tx * ty > u32::MAX as u128 {
            return Err(ConfigError::TooManyTiles);
        }
        Ok(AppConfig { width, height, tile_size, num_threads, redraw_interval_ms, max_load_millis })
    }

    /// Returns the number of worker threads to use.
    pub fn threads(&self) -> (r: usize)
        ensures
            r == self.num_threads,
    {
        self.num_threads
    }

    /// Number of tile columns: the image width divided by the tile size,
    /// rounded up.
    pub fn tiles_x(&self) -> (r: u32)
        requires
            self.valid(),
        ensures
            r == self.spec_tiles_x(),
    {
        proof {
            lemma_div_ceil_bounds(self.width as int, self.tile_size as int);
            lemma_div_ceil_bounds(self.height as int, self.tile_size as int);
            lemma_tiles_x_fits(*self);
        }
        ((self.width as u64 + self.tile_size as u64 - 1) / self.tile_size as u64) as u32
    }

    /// Number of tile rows: the image height divided by the tile size,
    /// rounded up.
    pub fn tiles_y(&self) -> (r: u32)
        requires
            self.valid(),
        ensures
            r == self.spec_tiles_y(),
    {
        proof {
            lemma_div_ceil_bounds(self.width as int, self.tile_size as int);
            lemma_div_ceil_bounds(self.height as int, self.tile_size as int);
            lemma_tiles_x_fits(*self);
        }
        ((self.height as u64 + self.tile_size as u64 - 1) / self.tile_size as u64) as u32
    }

    /// Total number of tiles: the product of the column and row counts of
    /// ceiling-divided tiles.
    pub fn tiles(&self) -> (r: u32)
        requires
            self.valid(),
        ensures
            r == self.spec_tiles(),
            r == div_ceil(self.width as int, self.tile_size as int)
                * div_ceil(self.height as int, self.tile_size as int),
            r >= 1,
    {
        proof {
            lemma_div_ceil_bounds(self.width as int, self.tile_size as int);
            lemma_div_ceil_bounds(self.height as int, self.tile_size as int);
            lemma_mul_le(1, 1, self.spec_tiles_x(), self.spec_tiles_y());
        }
        let tx = self.tiles_x();
        let ty = self.tiles_y();
        tx * ty
    }

    /// Size in bytes of one (unclipped) tile's RGBA pixel block.
    pub fn tiles_pixel_bytes(&self) -> (r: usize)
        ensures
            r == self.tile_size * self.tile_size * 4,
    {
        proof {
            lemma_mul_le(self.tile_size as int, self.tile_size as int, 255, 255);
        }
        self.tile_size as usize * self.tile_size as usize * COLOR_CHANNELS
    }
}

/// Products of non-negative factors grow with each factor.
pub proof fn lemma_mul_le(x: int, y: int, xb: int, yb: int) by (nonlinear_arith)
    requires
        0 <= x <= xb,
        0 <= y <= yb,
    ensures
        x * y <= xb * yb,
{
}

/// For `a >= 1` and `b >= 1`, the ceiling of `a / b` lies in `[1, a]`.
pub proof fn lemma_div_ceil_bounds(a: int, b: int)
    requires
        a >= 1,
        b >= 1,
    ensures
        1 <= div_ceil(a, b) <= a,
        b * div_ceil(a, b) >= a,
        b * (div_ceil(a, b) - 1) < a,
{
    let q = (a + b - 1) / b;
    let r = (a + b - 1) % b;
    vstd::arithmetic::div_mod::lemma_fundamental_div_mod(a + b - 1, b);
    vstd::arithmetic::div_mod::lemma_mod_bound(a + b - 1, b);
    assert(a + b - 1 == q * b + r);
    assert(0 <= r < b);
    assert(q >= 1) by (nonlinear_arith)
        requires
            a + b - 1 == q * b + r,
            0 <= r < b,
            a >= 1,
            b >= 1,
    ;
    assert(q <= a) by (nonlinear_arith)
        requires
            a + b - 1 == q * b + r,
            0 <= r < b,
            a >= 1,
            b >= 1,
    ;
    assert(b * q >= a && b * (q - 1) < a) by (nonlinear_arith)
        requires
            a + b - 1 == q * b + r,
            0 <= r < b,
            b >= 1,
    ;
}

/// In a valid configuration both tile counts fit in 32 bits.
proof fn lemma_tiles_x_fits(c: AppConfig)
    requires
        c.valid(),
    ensures
        c.spec_tiles_x() <= u32::MAX,
        c.spec_tiles_y() <= u32::MAX,
{
    lemma_div_ceil_bounds(c.width as int, c.tile_size as int);
    lemma_div_ceil_bounds(c.height as int, c.tile_size as int);
    lemma_mul_le(c.spec_tiles_x(), 1, c.spec_tiles_x(), c.spec_tiles_y());
    lemma_mul_le(1, c.spec_tiles_y(), c.spec_tiles_x(), c.spec_tiles_y());
}

} // verus!
