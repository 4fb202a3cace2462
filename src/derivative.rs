//! The decisions behind making a derivative (a thumbnail or preview) of a
//! photo: which route a file takes, the size of the resized image, how it is
//! turned and encoded, how the external tools are called and what their exit
//! means.

use vstd::prelude::*;
use vstd::string::*;
use crate::exif_data::path_extension;
use crate::media_type::{is_video_extension, top_level_type_of};
use crate::names::{ascii_lowercase, chars_eq, chars_of, extension, file_name, find_last, last_index_of, lower_ascii};

verus! {

/// The edge of the square that a thumbnail covers.
pub const THUMBNAIL_TARGET_SIZE: u32 = 500;

/// The quality of JPEG thumbnails.
pub const JPEG_QUALITY: u8 = 70;

/// How long the video frame extractor may run.
pub const VIDEO_TOOL_TIMEOUT_SECS: u64 = 15;

/// How long the HEIC/HEIF thumbnailer may run.
pub const HEIC_TOOL_TIMEOUT_SECS: u64 = 5;

pub const U32_MAX: u32 = 4294967295;

/// `a / b` rounded to the nearest integer, halves away from zero.
pub open spec fn round_div(a: int, b: int) -> int {
    (2 * a + b) / (2 * b)
}

pub open spec fn at_least_one(x: int) -> int {
    if x < 1 {
        1
    } else {
        x
    }
}

pub open spec fn min_int(a: int, b: int) -> int {
    if a < b {
        a
    } else {
        b
    }
}

/// The size that a `w` by `h` image takes when scaled, keeping its aspect,
/// so that it covers a square of edge `t`: both sides are multiplied by
/// `t / min(w, h)` (the larger of `t / w` and `t / h`) and rounded, and are
/// at least 1. Where a side would exceed `u32::MAX`, it becomes `u32::MAX`
/// and the other side is scaled by the same factor. A side of 0 (no scale
/// can make it cover anything) becomes 1 and the other side `u32::MAX`.
pub open spec fn fill_dimensions(w: int, h: int, t: int) -> (int, int) {
    let max = U32_MAX as int;
    if t == 0 || (w == 0 && h == 0) {
        (1, 1)
    } else if w == 0 {
        (1, max)
    } else if h == 0 {
        (max, 1)
    } else {
        let m = min_int(w, h);
        let nw = at_least_one(round_div(w * t, m));
        let nh = at_least_one(round_div(h * t, m));
        if nw > max {
            (max, at_least_one(round_div(h * max, w)))
        } else if nh > max {
            (at_least_one(round_div(w * max, h)), max)
        } else {
            (nw, nh)
        }
    }
}

fn round_div_exec(a: u128, b: u128) -> (r: u128)
    requires
        b > 0,
        a <= 0x1_0000_0000_0000_0000,
        b <= 0x1_0000_0000,
    ensures
        r as int == round_div(a as int, b as int),
{
    (2 * a + b) / (2 * b)
}

/// The size of a thumbnail of a `width` by `height` image that covers a
/// square of edge `target`.
pub fn resize_dimensions_fill_to(width: u32, height: u32, target: u32) -> (r: (u32, u32))
    ensures
        (r.0 as int, r.1 as int) == fill_dimensions(width as int, height as int, target as int),
        r.0 >= 1 && r.1 >= 1,
{
    if target == 0 || (width == 0 && height == 0) {
        return (1, 1);
    } else if width == 0 {
        return (1, U32_MAX);
    } else if height == 0 {
        return (U32_MAX, 1);
    }
    let w = width as u128;
    let h = height as u128;
    let t = target as u128;
    let max = U32_MAX as u128;
    let m = if w < h {
        w
    } else {
        h
    };
    assert(w * t <= 0xffff_ffff * 0xffff_ffff) by (nonlinear_arith)
        requires
            w <= 0xffff_ffff,
            t <= 0xffff_ffff,
    ;
    assert(h * t <= 0xffff_ffff * 0xffff_ffff) by (nonlinear_arith)
        requires
            h <= 0xffff_ffff,
            t <= 0xffff_ffff,
    ;
    assert(h * max <= 0xffff_ffff * 0xffff_ffff) by (nonlinear_arith)
        requires
            h <= 0xffff_ffff,
            max == 0xffff_ffff,
    ;
    assert(w * max <= 0xffff_ffff * 0xffff_ffff) by (nonlinear_arith)
        requires
            w <= 0xffff_ffff,
            max == 0xffff_ffff,
    ;
    proof {
        assert((2 * (m * t) + m) / (2 * m) == t) by (nonlinear_arith)
            requires
                m >= 1,
        ;
    }
    let mut nw = round_div_exec(w * t, m);
    if nw < 1 {
        nw = 1;
    }
    let mut nh = round_div_exec(h * t, m);
    if nh < 1 {
        nh = 1;
    }
    if nw > max {
        let mut other = round_div_exec(h * max, w);
        if other < 1 {
            other = 1;
        }
        proof {
            assert(other <= max) by (nonlinear_arith)
                requires
                    other == 1 || other == (2 * (h * max) + w) / (2 * w),
                    h <= w,
                    w >= 1,
                    max == 0xffff_ffff,
            ;
        }
        (U32_MAX, other as u32)
    } else if nh > max {
        let mut other = round_div_exec(w * max, h);
        if other < 1 {
            other = 1;
        }
        proof {
            assert(other <= max) by (nonlinear_arith)
                requires
                    other == 1 || other == (2 * (w * max) + h) / (2 * h),
                    w <= h,
                    h >= 1,
                    max == 0xffff_ffff,
            ;
        }
        (other as u32, U32_MAX)
    } else {
        (nw as u32, nh as u32)
    }
}

/// The size of a thumbnail of a `width` by `height` image.
pub fn resize_dimensions_fill(width: u32, height: u32) -> (r: (u32, u32))
    ensures
        (r.0 as int, r.1 as int) == fill_dimensions(
            width as int,
            height as int,
            THUMBNAIL_TARGET_SIZE as int,
        ),
        r.0 >= 1 && r.1 >= 1,
{
    resize_dimensions_fill_to(width, height, THUMBNAIL_TARGET_SIZE)
}

/// Where no side overflows, the fill scale is set by the shorter side: it
/// meets the target edge exactly, and the longer side is at least as long.
pub proof fn lemma_short_side_meets_target(w: int, h: int, t: int)
    requires
        1 <= w <= U32_MAX,
        1 <= h <= U32_MAX,
        1 <= t <= U32_MAX,
    ensures
        ({
            let (nw, nh) = fill_dimensions(w, h, t);
            (nw <= U32_MAX && nh <= U32_MAX && nw != U32_MAX && nh != U32_MAX) ==> (w <= h ==> nw == t
                && nh >= t) && (h <= w ==> nh == t && nw >= t)
        }),
{
    let m = min_int(w, h);
    assert(round_div(m * t, m) == t) by (nonlinear_arith)
        requires
            m >= 1,
    ;
    if w <= h {
        assert(round_div(h * t, w) >= t) by (nonlinear_arith)
            requires
                1 <= w <= h,
                t >= 1,
        ;
    }
    if h <= w {
        assert(round_div(w * t, h) >= t) by (nonlinear_arith)
            requires
                1 <= h <= w,
                t >= 1,
        ;
    }
}

/// The route by which a derivative of a file is made.
#[derive(Clone, Copy, Debug, PartialEq, Eq, Structural)]
pub enum DerivativeKind {
    /// A frame taken by an external video tool.
    Video,
    /// A thumbnail made by an external HEIC/HEIF tool, kept in that format.
    HeicHeif,
    /// An image decoded, resized and encoded in process.
    GenericImage,
}

/// The route for the file at `path`, by its extension (in small letters);
/// none where it has no extension.
pub open spec fn derivative_kind_spec(path: Seq<char>) -> Option<DerivativeKind> {
    match path_extension(path) {
        Some(e) => {
            let l = lower_ascii(e);
            if top_level_type_of(l) == "video"@ {
                Some(DerivativeKind::Video)
            } else if l == seq!['h', 'e', 'i', 'c'] || l == seq!['h', 'e', 'i', 'f'] {
                Some(DerivativeKind::HeicHeif)
            } else {
                Some(DerivativeKind::GenericImage)
            }
        },
        None => None,
    }
}

/// The route by which a derivative of the file at `path` is made.
pub fn derivative_kind(path: &str) -> (r: Option<DerivativeKind>)
    ensures
        r == derivative_kind_spec(path@),
{
    let name = match file_name(path) {
        Some(n) => n,
        None => {
            return None;
        },
    };
    let ext = match extension(name.as_str()) {
        Some(e) => e,
        None => {
            return None;
        },
    };
    let lower = ascii_lowercase(&chars_of(ext.as_str()));
    if is_video_extension(&lower) {
        return Some(DerivativeKind::Video);
    }
    let heic: [char; 4] = ['h', 'e', 'i', 'c'];
    let heif: [char; 4] = ['h', 'e', 'i', 'f'];
    assert(heic@ =~= seq!['h', 'e', 'i', 'c']);
    assert(heif@ =~= seq!['h', 'e', 'i', 'f']);
    if chars_eq(&lower, heic.as_slice()) || chars_eq(&lower, heif.as_slice()) {
        Some(DerivativeKind::HeicHeif)
    } else {
        Some(DerivativeKind::GenericImage)
    }
}

/// How a thumbnail is turned after resizing.
#[derive(Clone, Copy, Debug, PartialEq, Eq, Structural)]
pub enum Rotation {
    Keep,
    Clockwise90,
    Clockwise180,
    Clockwise270,
}

/// The turn that undoes the camera's EXIF orientation code (3, 6 and 8; the
/// mirrored codes are left as they are).
pub open spec fn rotation_spec(orientation: Option<u32>) -> Rotation {
    match orientation {
        Some(o) => if o == 3 {
            Rotation::Clockwise180
        } else if o == 6 {
            Rotation::Clockwise90
        } else if o == 8 {
            Rotation::Clockwise270
        } else {
            Rotation::Keep
        },
        None => Rotation::Keep,
    }
}

pub fn rotation_for(orientation: Option<u32>) -> (r: Rotation)
    ensures
        r == rotation_spec(orientation),
{
    match orientation {
        Some(o) => if o == 3 {
            Rotation::Clockwise180
        } else if o == 6 {
            Rotation::Clockwise90
        } else if o == 8 {
            Rotation::Clockwise270
        } else {
            Rotation::Keep
        },
        None => Rotation::Keep,
    }
}

/// How a thumbnail is written.
#[derive(Clone, Copy, Debug, PartialEq, Eq, Structural)]
pub enum Encoding {
    /// JPEG at the given quality.
    Jpeg(u8),
    /// The format that the file's extension names.
    ByExtension,
}

/// What follows the last `.` of a path.
pub open spec fn after_last_dot(path: Seq<char>) -> Option<Seq<char>> {
    match last_index_of(path, '.') {
        Some(k) => Some(path.subrange(k + 1, path.len() as int)),
        None => None,
    }
}

/// JPEG at a fixed quality for a `.jpg` or `.jpeg` target, else the format
/// of the target's extension; none where the target path has no `.`.
pub open spec fn encoding_spec(save_path: Seq<char>) -> Option<Encoding> {
    match after_last_dot(save_path) {
        Some(a) => if a == seq!['j', 'p', 'g'] || a == seq!['j', 'p', 'e', 'g'] {
            Some(Encoding::Jpeg(JPEG_QUALITY))
        } else {
            Some(Encoding::ByExtension)
        },
        None => None,
    }
}

pub fn encoding_for(save_path: &str) -> (r: Option<Encoding>)
    ensures
        r == encoding_spec(save_path@),
{
    let cs = chars_of(save_path);
    match find_last(&cs, '.') {
        Some(k) => {
            let after = chars_of(save_path.substring_char(k + 1, cs.len()));
            let jpg: [char; 3] = ['j', 'p', 'g'];
            let jpeg: [char; 4] = ['j', 'p', 'e', 'g'];
            assert(jpg@ =~= seq!['j', 'p', 'g']);
            assert(jpeg@ =~= seq!['j', 'p', 'e', 'g']);
            if chars_eq(&after, jpg.as_slice()) || chars_eq(&after, jpeg.as_slice()) {
                Some(Encoding::Jpeg(JPEG_QUALITY))
            } else {
                Some(Encoding::ByExtension)
            }
        },
        None => None,
    }
}

/// How an image decoded in process becomes its thumbnail.
pub struct ThumbnailPlan {
    pub width: u32,
    pub height: u32,
    pub rotation: Rotation,
    pub encoding: Encoding,
}

/// The plan for a `width` by `height` image with the given EXIF orientation,
/// written to `save_path`; none where the target's format cannot be told.
pub fn plan_thumbnail(width: u32, height: u32, orientation: Option<u32>, save_path: &str) -> (r:
    Option<ThumbnailPlan>)
    ensures
        r is Some <==> encoding_spec(save_path@) is Some,
        r matches Some(p) ==> (p.width as int, p.height as int) == fill_dimensions(
            width as int,
            height as int,
            THUMBNAIL_TARGET_SIZE as int,
        ) && p.rotation == rotation_spec(orientation) && Some(p.encoding) == encoding_spec(
            save_path@,
        ),
{
    match encoding_for(save_path) {
        Some(encoding) => {
            let (w, h) = resize_dimensions_fill(width, height);
            Some(ThumbnailPlan { width: w, height: h, rotation: rotation_for(orientation), encoding })
        },
        None => None,
    }
}

/// Where the video tool writes its frame: the target path with what follows
/// its last `.` replaced by `jpg`.
pub open spec fn intermediate_spec(save_path: Seq<char>) -> Option<Seq<char>> {
    match last_index_of(save_path, '.') {
        Some(k) => Some(save_path.subrange(0, k) + ".jpg"@),
        None => None,
    }
}

pub fn intermediate_path(save_path: &str) -> (r: Option<String>)
    ensures
        r matches Some(p) ==> intermediate_spec(save_path@) == Some(p@),
        r is None ==> intermediate_spec(save_path@) is None,
{
    let cs = chars_of(save_path);
    match find_last(&cs, '.') {
        Some(k) => {
            let mut s = String::from_str(save_path.substring_char(0, k));
            s.append(".jpg");
            Some(s)
        },
        None => None,
    }
}

/// An external program to run: its name, its arguments, and how many seconds
/// it may take before it is killed.
pub struct ToolCommand {
    pub program: String,
    pub args: Vec<String>,
    pub timeout_secs: u64,
}

pub open spec fn args_view(args: Seq<String>) -> Seq<Seq<char>> {
    args.map_values(|a: String| a@)
}

/// The command that makes a derivative of `load_path` at `save_path` by the
/// given route, where it takes an external tool.
pub open spec fn tool_command_spec(
    kind: DerivativeKind,
    load_path: Seq<char>,
    save_path: Seq<char>,
    c: ToolCommand,
) -> bool {
    match kind {
        DerivativeKind::Video => {
            &&& intermediate_spec(save_path) is Some
            &&& c.program@ == "ffmpegthumbnailer"@
            &&& args_view(c.args@) == seq![
                "-i"@,
                load_path,
                "-o"@,
                intermediate_spec(save_path)->0,
                "-s"@,
                "500"@,
            ]
            &&& c.timeout_secs == VIDEO_TOOL_TIMEOUT_SECS
        },
        DerivativeKind::HeicHeif => {
            &&& c.program@ == "heif-thumbnailer"@
            &&& args_view(c.args@) == seq!["-s"@, "500"@, load_path, save_path]
            &&& c.timeout_secs == HEIC_TOOL_TIMEOUT_SECS
        },
        DerivativeKind::GenericImage => false,
    }
}

/// The external command for a video or HEIC/HEIF source; none for an image
/// made in process, or for a video whose target path has no `.`.
pub fn tool_command(kind: DerivativeKind, load_path: &str, save_path: &str) -> (r: Option<
    ToolCommand,
>)
    ensures
        r matches Some(c) ==> tool_command_spec(kind, load_path@, save_path@, c),
        r is None ==> kind == DerivativeKind::GenericImage || (kind == DerivativeKind::Video
            && intermediate_spec(save_path@) is None),
{
    match kind {
        DerivativeKind::Video => {
            let out = match intermediate_path(save_path) {
                Some(p) => p,
                None => {
                    return None;
                },
            };
            let mut args: Vec<String> = Vec::new();
            args.push(String::from_str("-i"));
            args.push(String::from_str(load_path));
            args.push(String::from_str("-o"));
            args.push(out);
            args.push(String::from_str("-s"));
            args.push(String::from_str("500"));
            let c = ToolCommand {
                program: String::from_str("ffmpegthumbnailer"),
                args,
                timeout_secs: VIDEO_TOOL_TIMEOUT_SECS,
            };
            assert(args_view(c.args@) =~= seq![
                "-i"@,
                load_path@,
                "-o"@,
                intermediate_spec(save_path@)->0,
                "-s"@,
                "500"@,
            ]);
            Some(c)
        },
        DerivativeKind::HeicHeif => {
            let mut args: Vec<String> = Vec::new();
            args.push(String::from_str("-s"));
            args.push(String::from_str("500"));
            args.push(String::from_str(load_path));
            args.push(String::from_str(save_path));
            let c = ToolCommand {
                program: String::from_str("heif-thumbnailer"),
                args,
                timeout_secs: HEIC_TOOL_TIMEOUT_SECS,
            };
            assert(args_view(c.args@) =~= seq!["-s"@, "500"@, load_path@, save_path@]);
            Some(c)
        },
        DerivativeKind::GenericImage => None,
    }
}

/// How waiting for an external tool ended.
#[derive(Clone, Copy, Debug, PartialEq, Eq, Structural)]
pub enum WaitOutcome {
    /// It exited, with success or not.
    Exited(bool),
    /// It was still running when its time was up.
    TimedOut,
    /// Waiting for it failed.
    WaitFailed,
}

/// What follows the wait for an external tool.
#[derive(Clone, Copy, Debug, PartialEq, Eq, Structural)]
pub enum AfterWait {
    /// The generation is over, with this result.
    Done(bool),
    /// Kill the tool, reap it, and report failure.
    KillThenFail,
    /// Open the frame the video tool wrote, save it as the derivative, and
    /// delete the frame; any failure there fails the generation.
    ConvertIntermediate,
}

pub open spec fn after_wait_spec(kind: DerivativeKind, outcome: WaitOutcome) -> AfterWait {
    match outcome {
        WaitOutcome::Exited(ok) => if !ok {
            AfterWait::Done(false)
        } else if kind == DerivativeKind::Video {
            AfterWait::ConvertIntermediate
        } else {
            AfterWait::Done(true)
        },
        WaitOutcome::TimedOut => AfterWait::KillThenFail,
        WaitOutcome::WaitFailed => AfterWait::KillThenFail,
    }
}

/// What to do once the wait for an external tool has ended. A tool still
/// running at its time limit is killed, and the generation fails.
pub fn after_wait(kind: DerivativeKind, outcome: WaitOutcome) -> (r: AfterWait)
    ensures
        r == after_wait_spec(kind, outcome),
        outcome == WaitOutcome::TimedOut ==> r == AfterWait::KillThenFail,
{
    match outcome {
        WaitOutcome::Exited(ok) => if !ok {
            AfterWait::Done(false)
        } else if kind == DerivativeKind::Video {
            AfterWait::ConvertIntermediate
        } else {
            AfterWait::Done(true)
        },
        WaitOutcome::TimedOut => AfterWait::KillThenFail,
        WaitOutcome::WaitFailed => AfterWait::KillThenFail,
    }
}

} // verus!
