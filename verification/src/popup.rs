//! What the break popup needs decided before it is drawn: which globals to
//! bind, which pixel format to take, how large the buffer pool is, what its
//! file is called and what the file holds.
//!
//! Nothing here talks to the compositor. The caller hands over what the
//! compositor said, as plain values, and performs what is decided.

use crate::text::{decimal_text, push_decimal, text_equals};
use vstd::prelude::*;
use vstd::string::StringExecFns;

verus! {

/// The width assumed where the compositor has named no size.
pub const FALLBACK_WIDTH: i32 = 1920;

/// The height assumed where the compositor has named no size.
pub const FALLBACK_HEIGHT: i32 = 1080;

/// Bytes per pixel: every format that is chosen has 32 bits.
pub const BYTES_PER_PIXEL: i32 = 4;

/// Bytes that the pool file holds for each pixel of one buffer.
pub const TILE_LEN: usize = 8;

/// The size of a surface in pixels.
#[derive(Clone, Copy, Debug, PartialEq, Eq, Structural)]
pub struct SurfaceSize {
    /// Pixels in a row.
    pub width: i32,
    /// Rows.
    pub height: i32,
}

/// A pixel format that a compositor can advertise for shared memory.
#[derive(Clone, Copy, Debug, PartialEq, Eq, Structural)]
pub enum PixelFormat {
    /// 32 bits, alpha, red, green, blue.
    Argb8888,
    /// 32 bits, unused, red, green, blue.
    Xrgb8888,
    /// 32 bits, unused, blue, green, red.
    Xbgr8888,
    /// Any other format, by its code.
    Other(u32),
}

/// The layout of the shared-memory pool behind the popup.
#[derive(Clone, Copy, Debug, PartialEq, Eq, Structural)]
pub struct PoolLayout {
    /// Pixels in a row.
    pub width: i32,
    /// Rows.
    pub height: i32,
    /// Bytes in a row.
    pub stride: i32,
    /// Bytes in the pool: two buffers.
    pub pool_size: i32,
}

/// The globals that the popup cannot do without, each bound or not.
#[derive(Clone, Copy, Debug, PartialEq, Eq, Structural)]
pub struct Globals {
    /// The compositor is bound.
    pub compositor: bool,
    /// The window-manager base is bound.
    pub base: bool,
    /// The shared-memory global is bound.
    pub shm: bool,
}

/// A global that the compositor did not advertise.
#[derive(Clone, Copy, Debug, PartialEq, Eq, Structural)]
pub enum MissingGlobal {
    /// No compositor.
    Compositor,
    /// No window-manager base.
    Base,
    /// No shared memory.
    Shm,
}

/// A global that the popup binds.
#[derive(Clone, Copy, Debug, PartialEq, Eq, Structural)]
pub enum GlobalKind {
    /// `wl_compositor`.
    Compositor,
    /// `wl_shm`.
    Shm,
    /// `xdg_wm_base`.
    WmBase,
}

/// A global to bind, with the version to bind it at.
#[derive(Clone, Copy, Debug, PartialEq, Eq, Structural)]
pub struct Binding {
    /// Which global.
    pub kind: GlobalKind,
    /// The version to ask for.
    pub version: u32,
}

/// The binding that an advertised global calls for: the compositor and the
/// window-manager base at version 1, shared memory at the advertised
/// version, nothing for any other interface.
pub open spec fn binding_of(interface: Seq<char>, version: u32) -> Option<Binding> {
    if interface == "wl_compositor"@ {
        Some(Binding { kind: GlobalKind::Compositor, version: 1 })
    } else if interface == "wl_shm"@ {
        Some(Binding { kind: GlobalKind::Shm, version })
    } else if interface == "xdg_wm_base"@ {
        Some(Binding { kind: GlobalKind::WmBase, version: 1 })
    } else {
        None
    }
}

/// Decides whether and how to bind a global that the registry announced.
pub fn binding_for(interface: &str, version: u32) -> (r: Option<Binding>)
    ensures
        r == binding_of(interface@, version),
{
    if text_equals(interface, "wl_compositor") {
        Some(Binding { kind: GlobalKind::Compositor, version: 1 })
    } else if text_equals(interface, "wl_shm") {
        Some(Binding { kind: GlobalKind::Shm, version })
    } else if text_equals(interface, "xdg_wm_base") {
        Some(Binding { kind: GlobalKind::WmBase, version: 1 })
    } else {
        None
    }
}

/// Makes sure that all necessary globals are bound; names the first that is
/// not, in the order compositor, base, shared memory.
pub fn check_for_globals(data: &Globals) -> (r: Result<(), MissingGlobal>)
    ensures
        r == if !data.compositor {
            Err::<(), MissingGlobal>(MissingGlobal::Compositor)
        } else if !data.base {
            Err::<(), MissingGlobal>(MissingGlobal::Base)
        } else if !data.shm {
            Err::<(), MissingGlobal>(MissingGlobal::Shm)
        } else {
            Ok::<(), MissingGlobal>(())
        },
{
    if !data.compositor {
        return Err(MissingGlobal::Compositor);
    }
    if !data.base {
        return Err(MissingGlobal::Base);
    }
    if !data.shm {
        return Err(MissingGlobal::Shm);
    }
    Ok(())
}

impl MissingGlobal {
    /// The words that name the missing global.
    pub fn message(&self) -> (text: &'static str)
        ensures
            text@ == match *self {
                MissingGlobal::Compositor => "no compositor"@,
                MissingGlobal::Base => "no base"@,
                MissingGlobal::Shm => "no wl_shm"@,
            },
    {
        match self {
            MissingGlobal::Compositor => "no compositor",
            MissingGlobal::Base => "no base",
            MissingGlobal::Shm => "no wl_shm",
        }
    }
}

impl PixelFormat {
    /// The name of the format, as it appears in the name of the pool file.
    pub open spec fn name_of(self) -> Seq<char> {
        match self {
            PixelFormat::Argb8888 => "Argb8888"@,
            PixelFormat::Xrgb8888 => "Xrgb8888"@,
            PixelFormat::Xbgr8888 => "Xbgr8888"@,
            PixelFormat::Other(_) => "Other"@,
        }
    }

    /// The name of the format.
    pub fn name(&self) -> (text: &'static str)
        ensures
            text@ == self.name_of(),
    {
        match self {
            PixelFormat::Argb8888 => "Argb8888",
            PixelFormat::Xrgb8888 => "Xrgb8888",
            PixelFormat::Xbgr8888 => "Xbgr8888",
            PixelFormat::Other(_) => "Other",
        }
    }
}

/// The format to draw in, given what the compositor accepts: `Xrgb8888`
/// where it is accepted, else `Argb8888` where that is, else `Xbgr8888`
/// though it was not advertised.
pub open spec fn chosen_format(formats: Seq<PixelFormat>) -> PixelFormat {
    if formats.contains(PixelFormat::Xrgb8888) {
        PixelFormat::Xrgb8888
    } else if formats.contains(PixelFormat::Argb8888) {
        PixelFormat::Argb8888
    } else {
        PixelFormat::Xbgr8888
    }
}

/// Whether `formats` holds `wanted`.
pub fn accepts(formats: &Vec<PixelFormat>, wanted: PixelFormat) -> (r: bool)
    ensures
        r == formats@.contains(wanted),
{
    let n: usize = formats.len();
    let mut i: usize = 0;
    while i < n
        invariant
            n == formats@.len(),
            i <= n,
            forall|k: int| 0 <= k < i ==> formats@[k] != wanted,
        decreases n - i,
    {
        if formats[i] == wanted {
            return true;
        }
        i = i + 1;
    }
    false
}

/// Chooses the format to draw in from those that the compositor accepts.
pub fn choose_format(formats: &Vec<PixelFormat>) -> (format: PixelFormat)
    ensures
        format == chosen_format(formats@),
        !(format is Other),
{
    if accepts(formats, PixelFormat::Xrgb8888) {
        PixelFormat::Xrgb8888
    } else if accepts(formats, PixelFormat::Argb8888) {
        PixelFormat::Argb8888
    } else {
        PixelFormat::Xbgr8888
    }
}

/// Whether the compositor accepts neither of the two preferred formats, so
/// that the choice falls on `Xbgr8888` whether it is accepted or not.
pub fn lacks_preferred_format(formats: &Vec<PixelFormat>) -> (r: bool)
    ensures
        r == (!formats@.contains(PixelFormat::Xrgb8888) && !formats@.contains(
            PixelFormat::Argb8888,
        )),
        r ==> chosen_format(formats@) == PixelFormat::Xbgr8888,
{
    !accepts(formats, PixelFormat::Xrgb8888) && !accepts(formats, PixelFormat::Argb8888)
}

/// The size to draw at: what the compositor named, or the fallback.
pub fn surface_size_or_fallback(size: Option<SurfaceSize>) -> (r: SurfaceSize)
    ensures
        r == match size {
            Some(s) => s,
            None => SurfaceSize { width: FALLBACK_WIDTH, height: FALLBACK_HEIGHT },
        },
{
    match size {
        Some(s) => s,
        None => SurfaceSize { width: FALLBACK_WIDTH, height: FALLBACK_HEIGHT },
    }
}

/// The layout of the pool for a surface: four bytes a pixel, two buffers.
/// `None` where a size in bytes does not fit in 32 bits with sign.
pub open spec fn layout_of(size: SurfaceSize) -> Option<PoolLayout> {
    let stride = size.width * BYTES_PER_PIXEL;
    let buffer = size.height * stride;
    let pool = buffer * 2;
    if i32::MIN <= stride <= i32::MAX && i32::MIN <= buffer <= i32::MAX && i32::MIN <= pool
        <= i32::MAX {
        Some(
            PoolLayout {
                width: size.width,
                height: size.height,
                stride: stride as i32,
                pool_size: pool as i32,
            },
        )
    } else {
        None
    }
}

/// Computes the layout of the pool for a surface.
pub fn pool_layout(size: SurfaceSize) -> (r: Option<PoolLayout>)
    ensures
        r == layout_of(size),
{
    let stride: i32 = match size.width.checked_mul(BYTES_PER_PIXEL) {
        Some(v) => v,
        None => {
            return None;
        },
    };
    let buffer: i32 = match size.height.checked_mul(stride) {
        Some(v) => v,
        None => {
            return None;
        },
    };
    let pool_size: i32 = match buffer.checked_mul(2) {
        Some(v) => v,
        None => {
            return None;
        },
    };
    Some(PoolLayout { width: size.width, height: size.height, stride, pool_size })
}

/// A number with its sign, in decimal.
pub open spec fn signed_text(v: int) -> Seq<char> {
    if v < 0 {
        seq!['-'] + decimal_text((-v) as nat)
    } else {
        decimal_text(v as nat)
    }
}

/// Appends a number with its sign to a string.
fn push_signed(s: &mut String, v: i32)
    ensures
        final(s)@ == old(s)@ + signed_text(v as int),
{
    if v < 0 {
        s.append("-");
        proof {
            reveal_strlit("-");
        }
        let magnitude: u64 = (-(v as i64)) as u64;
        push_decimal(s, magnitude);
    } else {
        push_decimal(s, v as u64);
    }
}

/// The name of the pool file: one file for each size and format, below the
/// runtime directory.
pub open spec fn pool_file_text(runtime_dir: Seq<char>, size: SurfaceSize, format: PixelFormat)
    -> Seq<char> {
    runtime_dir + "/wlbreaktime-pool-"@ + signed_text(size.width as int) + "-"@ + signed_text(
        size.height as int,
    ) + format.name_of()
}

/// Builds the name of the pool file.
pub fn pool_file_name(runtime_dir: &str, size: SurfaceSize, format: PixelFormat) -> (name: String)
    ensures
        name@ == pool_file_text(runtime_dir@, size, format),
{
    let mut name: String = runtime_dir.to_owned();
    name.append("/wlbreaktime-pool-");
    push_signed(&mut name, size.width);
    name.append("-");
    push_signed(&mut name, size.height);
    name.append(format.name());
    name
}

/// The number of pixels that are drawn: the product of width and height,
/// and none where the product is not positive.
pub open spec fn pixel_count(size: SurfaceSize) -> nat {
    if size.width * size.height > 0 {
        (size.width * size.height) as nat
    } else {
        0
    }
}

/// The `k`-th byte of the text that stands for pixel `pixel`: `FF666666`
/// for an even pixel, `FFEEEEEE` for an odd one.
pub open spec fn tile_byte(pixel: int, k: int) -> u8 {
    if k < 2 {
        0x46
    } else if pixel % 2 == 0 {
        0x36
    } else {
        0x45
    }
}

/// The byte at `position` of a pool file for `pixels` pixels: the checker
/// board, then as many bytes `0` again for the second buffer.
pub open spec fn board_byte(pixels: nat, position: int) -> u8 {
    if position < TILE_LEN * pixels {
        tile_byte(position / (TILE_LEN as int), position % (TILE_LEN as int))
    } else {
        0x30
    }
}

/// The content of a pool file for `pixels` pixels.
pub open spec fn board(pixels: nat) -> Seq<u8> {
    Seq::new((2 * TILE_LEN * pixels) as nat, |position: int| board_byte(pixels, position))
}

/// The content of the pool file for a surface of `size`, or `None` where the
/// number of pixels does not fit in 32 bits with sign, or the content does
/// not fit in memory.
pub open spec fn board_of(size: SurfaceSize) -> Option<Seq<u8>> {
    if size.width * size.height > i32::MAX || size.width * size.height < i32::MIN || 2 * TILE_LEN
        * pixel_count(size) > usize::MAX {
        None
    } else {
        Some(board(pixel_count(size)))
    }
}

/// Draws the checker board: the content of the pool file for a surface of
/// `size`.
pub fn draw_checker_board(size: SurfaceSize) -> (r: Option<Vec<u8>>)
    ensures
        r.is_some() == board_of(size).is_some(),
        r matches Some(content) ==> content@ == board_of(size).unwrap(),
{
    let w: i64 = size.width as i64;
    let h: i64 = size.height as i64;
    assert(-0x4000_0000_0000_0000 <= w * h <= 0x4000_0000_0000_0000) by (nonlinear_arith)
        requires
            -0x8000_0000 <= w <= 0x7fff_ffff,
            -0x8000_0000 <= h <= 0x7fff_ffff,
    ;
    let product: i64 = w * h;
    if product > 0x7fff_ffff || product < -0x8000_0000 {
        return None;
    }
    let pixels: u64 = if product > 0 {
        product as u64
    } else {
        0
    };
    if pixels * 16 > usize::MAX as u64 {
        return None;
    }
    let count: usize = pixels as usize;
    let mut content: Vec<u8> = Vec::new();
    let mut pixel: usize = 0;
    while pixel < count
        invariant
            pixel <= count,
            count * 16 <= usize::MAX,
            content@.len() == TILE_LEN * pixel,
            forall|p: int| 0 <= p < content@.len() ==> content@[p] == board_byte(count as nat, p),
        decreases count - pixel,
    {
        let shade: u8 = if pixel % 2 == 0 {
            0x36
        } else {
            0x45
        };
        content.push(0x46);
        content.push(0x46);
        let mut k: usize = 2;
        while k < TILE_LEN
            invariant
                2 <= k <= TILE_LEN,
                pixel < count,
                count * 16 <= usize::MAX,
                shade == tile_byte(pixel as int, 2),
                content@.len() == TILE_LEN * pixel + k,
                forall|p: int|
                    0 <= p < content@.len() ==> content@[p] == board_byte(count as nat, p),
            decreases TILE_LEN - k,
        {
            content.push(shade);
            k = k + 1;
        }
        pixel = pixel + 1;
    }
    let total: usize = count * 16;
    let mut position: usize = count * TILE_LEN;
    while position < total
        invariant
            count * TILE_LEN <= position <= total,
            total == count * 16,
            content@.len() == position,
            forall|p: int| 0 <= p < content@.len() ==> content@[p] == board_byte(count as nat, p),
        decreases total - position,
    {
        content.push(0x30);
        position = position + 1;
    }
    Some(content)
}

/// A pool file holds two buffers' worth of text, the first of them the
/// checker board: its first pixel is dark, and neighbours in the run of
/// pixels differ.
pub proof fn lemma_board_is_checkered(pixels: nat, pixel: int)
    requires
        0 <= pixel,
        pixel + 1 < pixels,
    ensures
        board(pixels).len() == 16 * pixels,
        board(pixels)[2] == 0x36,
        board(pixels)[TILE_LEN * pixel + 2] != board(pixels)[TILE_LEN * (pixel + 1) + 2],
        board(pixels)[TILE_LEN * pixels + TILE_LEN * pixel] == 0x30,
{
}

} // verus!
