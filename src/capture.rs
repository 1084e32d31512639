//! Acquiring a frame from a capture provider and describing where it is kept.
use vstd::prelude::*;

verus! {

/// Pixels grabbed from one monitor, with where that monitor sits on the
/// virtual desktop. The bytes are read as four channels per pixel.
#[derive(Debug, Clone, PartialEq)]
pub struct RawCaptureFrame {
    pub monitor_id: Option<u32>,
    pub monitor_x: i32,
    pub monitor_y: i32,
    pub width: u32,
    pub height: u32,
    pub pixel_format: String,
    pub bytes: Vec<u8>,
}

/// A capture handed to the interface: its frame is kept in a file, and only
/// the file's path crosses the process boundary.
#[derive(Debug, Clone, PartialEq)]
pub struct CapturePayload {
    pub capture_id: String,
    pub monitor_id: Option<u32>,
    pub monitor_x: i32,
    pub monitor_y: i32,
    pub width: u32,
    pub height: u32,
    pub pixel_format: String,
    pub transfer_mode: String,
    pub image_path: String,
    pub bytes_len: usize,
}

/// Grabs the pixels of a monitor: the one with `monitor_id`, or the default
/// monitor when none is given.
pub trait ScreenCaptureProvider {
    /// What `capture_monitor` returns for `monitor_id`, for an implementation
    /// that states it; `None`, the default, promises nothing.
    open spec fn frame(&self, monitor_id: Option<u32>) -> Option<Result<RawCaptureFrame, Seq<char>>> {
        None
    }

    fn capture_monitor(&self, monitor_id: Option<u32>) -> (r: Result<RawCaptureFrame, String>)
        ensures
            self.frame(monitor_id) matches Some(f) ==> crate::geometry::message_view(r) == f,
    ;
}

/// Relies on `Uuid::new_v4` of uuid and its `Display`: a fresh random id in
/// hyphenated form, 36 characters long.
#[verifier::external_body]
fn new_capture_id() -> (r: String)
    ensures
        r@.len() == 36,
{
    uuid::Uuid::new_v4().to_string()
}

/// Relies on `ImageBuffer::<Rgba<u8>, Vec<u8>>::from_raw` of image, which
/// accepts the buffer exactly when it holds at least four bytes for each of
/// `width * height` pixels, and `into_raw`, which hands the buffer back.
#[verifier::external_body]
fn rgba_buffer(width: u32, height: u32, bytes: Vec<u8>) -> (r: Option<Vec<u8>>)
    ensures
        r is Some <==> 4 * width * height <= bytes@.len(),
        r matches Some(b) ==> b@ == bytes@,
{
    image::ImageBuffer::<image::Rgba<u8>, Vec<u8>>::from_raw(width, height, bytes).map(
        |image| image.into_raw(),
    )
}

/// `name` placed in the directory `dir`, as a path with `/` separators.
pub open spec fn join_path(dir: Seq<char>, name: Seq<char>) -> Seq<char> {
    if dir.len() == 0 || dir.last() == '/' {
        dir + name
    } else {
        dir + seq!['/'] + name
    }
}

/// The directory that holds captures, under the temporary root `base`.
pub open spec fn capture_dir_path(base: Seq<char>) -> Seq<char> {
    join_path(join_path(base, "focus-go-ai-screenshot-tool"@), "captures"@)
}

pub open spec fn decode_failure_message() -> Seq<char> {
    "Failed to decode RGBA buffer"@
}

/// Places `name` in the directory `dir`.
pub fn join_path_exec(dir: &str, name: &str) -> (r: String)
    ensures
        r@ == join_path(dir@, name@),
{
    let n = dir.unicode_len();
    let mut path = dir.to_owned();
    if n == 0 || dir.get_char(n - 1) == '/' {
        path.append(name);
    } else {
        path.append("/");
        path.append(name);
        proof {
            reveal_strlit("/");
        }
    }
    path
}

/// The directory that holds captures under the temporary root `base_dir`.
pub fn capture_directory(base_dir: &str) -> (r: String)
    ensures
        r@ == capture_dir_path(base_dir@),
{
    let app_dir = join_path_exec(base_dir, "focus-go-ai-screenshot-tool");
    join_path_exec(app_dir.as_str(), "captures")
}

/// Describes `frame` as the capture `capture_id`, kept as a PNG file in
/// `capture_dir`, and hands back its pixels for writing there. Fails unless
/// the buffer holds exactly four bytes for each pixel.
pub fn capture_payload(frame: RawCaptureFrame, capture_id: String, capture_dir: &str) -> (r:
    Result<(CapturePayload, Vec<u8>), String>)
    ensures
        r is Err <==> frame.bytes@.len() != 4 * frame.width * frame.height,
        r is Err ==> r->Err_0@ == decode_failure_message(),
        r matches Ok((p, pixels)) ==> {
            &&& p.capture_id@ == capture_id@
            &&& p.monitor_id == frame.monitor_id
            &&& p.monitor_x == frame.monitor_x
            &&& p.monitor_y == frame.monitor_y
            &&& p.width == frame.width
            &&& p.height == frame.height
            &&& p.pixel_format@ == frame.pixel_format@
            &&& p.transfer_mode@ == "file-backed"@
            &&& p.image_path@ == join_path(capture_dir@, capture_id@ + ".png"@)
            &&& p.bytes_len == frame.bytes@.len()
            &&& pixels@ == frame.bytes@
        },
{
    let mut file_name = capture_id.clone();
    file_name.append(".png");
    let image_path = join_path_exec(capture_dir, file_name.as_str());
    let bytes_len = frame.bytes.len();
    let w: u128 = frame.width as u128;
    let h: u128 = frame.height as u128;
    proof {
        vstd::arithmetic::mul::lemma_mul_upper_bound(
            w as int,
            0xffff_ffff,
            h as int,
            0xffff_ffff,
        );
        assert(4 * frame.width * frame.height == 4 * (w * h)) by (nonlinear_arith)
            requires
                w == frame.width,
                h == frame.height,
        ;
    }
    let pixel_count: u128 = w * h;
    if bytes_len as u128 != 4 * pixel_count {
        return Err(String::from_str("Failed to decode RGBA buffer"));
    }
    let pixels = match rgba_buffer(frame.width, frame.height, frame.bytes) {
        Some(b) => b,
        None => {
            return Err(String::from_str("Failed to decode RGBA buffer"));
        },
    };
    let payload = CapturePayload {
        capture_id,
        monitor_id: frame.monitor_id,
        monitor_x: frame.monitor_x,
        monitor_y: frame.monitor_y,
        width: frame.width,
        height: frame.height,
        pixel_format: frame.pixel_format,
        transfer_mode: String::from_str("file-backed"),
        image_path,
        bytes_len,
    };
    Ok((payload, pixels))
}

/// Grabs a frame from `provider` for `monitor_id`, gives it a fresh capture id
/// and describes it as kept under the capture directory of `base_dir`. A
/// provider error is passed on as it came. The caller writes the returned
/// pixels as a PNG file at the payload's `image_path`.
pub fn capture_screen_with_provider<P: ScreenCaptureProvider>(
    provider: &P,
    monitor_id: Option<u32>,
    base_dir: &str,
) -> (r: Result<(CapturePayload, Vec<u8>), String>)
    ensures
        r matches Ok((p, pixels)) ==> {
            &&& p.capture_id@.len() == 36
            &&& p.transfer_mode@ == "file-backed"@
            &&& p.image_path@ == join_path(capture_dir_path(base_dir@), p.capture_id@ + ".png"@)
            &&& p.bytes_len == pixels@.len()
            &&& pixels@.len() == 4 * p.width * p.height
        },
        provider.frame(monitor_id) matches Some(Err(e)) ==> r is Err && r->Err_0@ == e,
        provider.frame(monitor_id) is Some && provider.frame(monitor_id)->Some_0 is Ok ==> {
            let f = provider.frame(monitor_id)->Some_0->Ok_0;
            &&& r is Err <==> f.bytes@.len() != 4 * f.width * f.height
            &&& r is Err ==> r->Err_0@ == decode_failure_message()
            &&& r is Ok ==> {
                let p = r->Ok_0.0;
                &&& p.monitor_id == f.monitor_id
                &&& p.monitor_x == f.monitor_x
                &&& p.monitor_y == f.monitor_y
                &&& p.width == f.width
                &&& p.height == f.height
                &&& p.pixel_format@ == f.pixel_format@
                &&& r->Ok_0.1@ == f.bytes@
            }
        },
{
    let frame = provider.capture_monitor(monitor_id)?;
    let capture_id = new_capture_id();
    let dir = capture_directory(base_dir);
    capture_payload(frame, capture_id, dir.as_str())
}

} // verus!
