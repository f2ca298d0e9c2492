//! The animated-image export: one frame per tick, sampled at exact multiples
//! of the frame period, each reduced to an indexed-colour frame.

use vstd::prelude::*;

verus! {

pub const EXPORT_WIDTH: u16 = 512;

pub const EXPORT_HEIGHT: u16 = 512;

pub const EXPORT_FPS: u32 = 30;

pub const EXPORT_SECONDS: u32 = 3;

/// Speed/quality trade-off of the palette reduction: 1 is best, 30 fastest.
pub const QUANTIZE_SPEED: i32 = 10;

pub const CENTISECONDS_PER_SECOND: u32 = 100;

/// Size, rate and length of an export.
#[derive(Clone, Copy, Debug, PartialEq, Eq, Structural)]
pub struct ExportSettings {
    pub width: u16,
    pub height: u16,
    pub fps: u32,
    pub frame_count: u32,
}

impl ExportSettings {
    pub open spec fn wf(self) -> bool {
        self.fps > 0 && self.frame_count > 0
    }
}

/// The settings every export uses: a square canvas of 512 pixels, 30 frames
/// per second, 3 seconds.
pub fn export_settings() -> (s: ExportSettings)
    ensures
        s.wf(),
        s.width == EXPORT_WIDTH,
        s.height == EXPORT_HEIGHT,
        s.fps == EXPORT_FPS,
        s.frame_count == EXPORT_FPS * EXPORT_SECONDS,
        s.frame_count == 90,
{
    ExportSettings {
        width: EXPORT_WIDTH,
        height: EXPORT_HEIGHT,
        fps: EXPORT_FPS,
        frame_count: EXPORT_FPS * EXPORT_SECONDS,
    }
}

/// The delay between frames in centiseconds at `fps` frames per second,
/// truncated.
pub open spec fn frame_delay_spec(fps: u32) -> int {
    CENTISECONDS_PER_SECOND as int / fps as int
}

/// The delay between frames in centiseconds, truncated (3 at 30 frames per
/// second).
pub fn frame_delay(fps: u32) -> (d: u16)
    requires
        fps > 0,
    ensures
        d == frame_delay_spec(fps),
{
    (CENTISECONDS_PER_SECOND / fps) as u16
}

proof fn lemma_rgba_bytes_fit(width: u16, height: u16)
    ensures
        width * height <= 65535 * 65535,
        width * height * 4 <= 4 * 65535 * 65535,
{
    assert(width * height <= 65535 * 65535) by (nonlinear_arith)
        requires
            width <= 65535,
            height <= 65535,
            0 <= width,
            0 <= height,
    ;
}

/// The number of bytes of an RGBA image of the given size, when it fits in
/// memory addresses.
pub fn rgba_len(width: u16, height: u16) -> (r: Option<usize>)
    ensures
        r is Some <==> width * height * 4 <= usize::MAX,
        r is Some ==> r->Some_0 == width * height * 4,
{
    proof {
        lemma_rgba_bytes_fit(width, height);
    }
    let total: u64 = (width as u64) * (height as u64) * 4;
    if total <= usize::MAX as u64 {
        Some(total as usize)
    } else {
        None
    }
}

/// What the caller renders and encodes for one frame.
#[derive(Clone, Copy, Debug, PartialEq, Eq, Structural)]
pub struct FrameRequest {
    /// Position of the frame in the export, from 0.
    pub index: u32,
    /// Frames per second; the frame samples time `index / fps` seconds.
    pub fps: u32,
    pub width: u16,
    pub height: u16,
    /// Delay after the frame, in centiseconds.
    pub delay: u16,
}

/// Why an export stopped.
#[derive(Clone, Debug)]
pub enum ExportError {
    CreateFramebuffer(String),
    CreateTexture(String),
    FramebufferIncomplete,
    /// The pixels handed over do not have the frame's size.
    PixelCount,
    WriteFrame(String),
    CreateFile(String),
    CreateEncoder(String),
    SetRepeat(String),
}

pub const CREATE_FRAMEBUFFER_PREFIX: &'static str = "Failed to create framebuffer: ";

pub const CREATE_TEXTURE_PREFIX: &'static str = "Failed to create texture: ";

pub const INCOMPLETE_TEXT: &'static str = "Framebuffer is not complete";

pub const PIXEL_COUNT_TEXT: &'static str = "Pixel data does not match the frame size";

pub const WRITE_FRAME_PREFIX: &'static str = "Failed to write GIF frame: ";

pub const CREATE_FILE_PREFIX: &'static str = "Failed to create GIF file: ";

pub const CREATE_ENCODER_PREFIX: &'static str = "Failed to create GIF encoder: ";

pub const SET_REPEAT_PREFIX: &'static str = "Failed to set GIF repeat: ";

impl ExportError {
    pub open spec fn text(self) -> Seq<char> {
        match self {
            ExportError::CreateFramebuffer(e) => CREATE_FRAMEBUFFER_PREFIX@ + e@,
            ExportError::CreateTexture(e) => CREATE_TEXTURE_PREFIX@ + e@,
            ExportError::FramebufferIncomplete => INCOMPLETE_TEXT@,
            ExportError::PixelCount => PIXEL_COUNT_TEXT@,
            ExportError::WriteFrame(e) => WRITE_FRAME_PREFIX@ + e@,
            ExportError::CreateFile(e) => CREATE_FILE_PREFIX@ + e@,
            ExportError::CreateEncoder(e) => CREATE_ENCODER_PREFIX@ + e@,
            ExportError::SetRepeat(e) => SET_REPEAT_PREFIX@ + e@,
        }
    }

    /// The error as shown to the user.
    pub fn message(&self) -> (r: String)
        ensures
            r@ == self.text(),
    {
        let (prefix, detail): (&str, Option<&String>) = match self {
            ExportError::CreateFramebuffer(e) => (CREATE_FRAMEBUFFER_PREFIX, Some(e)),
            ExportError::CreateTexture(e) => (CREATE_TEXTURE_PREFIX, Some(e)),
            ExportError::FramebufferIncomplete => (INCOMPLETE_TEXT, None),
            ExportError::PixelCount => (PIXEL_COUNT_TEXT, None),
            ExportError::WriteFrame(e) => (WRITE_FRAME_PREFIX, Some(e)),
            ExportError::CreateFile(e) => (CREATE_FILE_PREFIX, Some(e)),
            ExportError::CreateEncoder(e) => (CREATE_ENCODER_PREFIX, Some(e)),
            ExportError::SetRepeat(e) => (SET_REPEAT_PREFIX, Some(e)),
        };
        let mut r = String::from_str(prefix);
        match detail {
            Some(e) => r.append(e.as_str()),
            None => {},
        }
        r
    }
}

/// What `gif::Frame::from_rgba_speed` makes of an image: the palette (three
/// bytes per colour), one palette index per pixel, and the index of the
/// transparent colour if any.
pub uninterp spec fn quantized(width: u16, height: u16, rgba: Seq<u8>, speed: i32) -> (
    Seq<u8>,
    Seq<u8>,
    Option<u8>,
);

/// Relies on `gif::Frame::from_rgba_speed`, which reduces an RGBA image to at
/// most 256 colours and always sets a palette; it panics unless the image has
/// `width * height` pixels and `speed` is in 1..=30.
#[verifier::external_body]
fn reduce_palette(width: u16, height: u16, rgba: Vec<u8>, speed: i32) -> (r: (
    Option<Vec<u8>>,
    Vec<u8>,
    Option<u8>,
))
    requires
        rgba@.len() == width * height * 4,
        1 <= speed <= 30,
    ensures
        r.0 is Some,
        (r.0->Some_0@, r.1@, r.2) == quantized(width, height, rgba@, speed),
        r.0->Some_0@.len() <= 768,
        r.1@.len() == width * height,
{
    let mut rgba = rgba;
    let frame = gif::Frame::from_rgba_speed(width, height, &mut rgba, speed);
    (frame.palette, frame.buffer.into_owned(), frame.transparent)
}

/// A frame reduced to indexed colour, ready to be encoded.
#[derive(Clone, Debug)]
pub struct IndexedFrame {
    pub width: u16,
    pub height: u16,
    /// Delay after the frame, in centiseconds.
    pub delay: u16,
    /// Three bytes per colour, at most 256 colours.
    pub palette: Vec<u8>,
    /// One palette index per pixel, row by row.
    pub indices: Vec<u8>,
    pub transparent: Option<u8>,
}

/// Reduces the rendered pixels of `req` to an indexed frame with the
/// request's delay; the pixels must be `width * height` RGBA quadruples.
pub fn encode_frame(req: &FrameRequest, rgba: Vec<u8>) -> (r: Result<IndexedFrame, ExportError>)
    ensures
        r is Err <==> rgba@.len() != req.width * req.height * 4,
        r is Err ==> r->Err_0 is PixelCount,
        r is Ok ==> ({
            let f = r->Ok_0;
            let q = quantized(req.width, req.height, rgba@, QUANTIZE_SPEED);
            &&& f.width == req.width
            &&& f.height == req.height
            &&& f.delay == req.delay
            &&& f.palette@ == q.0
            &&& f.indices@ == q.1
            &&& f.transparent == q.2
            &&& f.palette@.len() <= 768
            &&& f.indices@.len() == req.width * req.height
        }),
{
    proof {
        lemma_rgba_bytes_fit(req.width, req.height);
    }
    let expected: u64 = (req.width as u64) * (req.height as u64) * 4;
    if rgba.len() as u64 != expected {
        return Err(ExportError::PixelCount);
    }
    let (palette, indices, transparent) = reduce_palette(
        req.width,
        req.height,
        rgba,
        QUANTIZE_SPEED,
    );
    let palette = match palette {
        Some(p) => p,
        None => { return Err(ExportError::PixelCount); },
    };
    Ok(
        IndexedFrame {
            width: req.width,
            height: req.height,
            delay: req.delay,
            palette,
            indices,
            transparent,
        },
    )
}

} // verus!
