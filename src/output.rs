//! Where finished captures go: the output directory, the output file name,
//! and the cropped pixels.
use vstd::prelude::*;
use crate::crop::{CropBounds, PixelSelection};
use crate::text::push_padded;

verus! {

/// The directory chosen for finished captures, if one has been chosen.
pub struct OutputDirectoryState {
    directory: Option<String>,
}

impl View for OutputDirectoryState {
    type V = Option<Seq<char>>;

    closed spec fn view(&self) -> Option<Seq<char>> {
        match self.directory {
            Some(d) => Some(d@),
            None => None,
        }
    }
}

impl OutputDirectoryState {
    pub fn new(directory: Option<String>) -> (r: OutputDirectoryState)
        ensures
            r@ == (match directory {
                Some(d) => Some(d@),
                None => None::<Seq<char>>,
            }),
    {
        OutputDirectoryState { directory }
    }

    pub fn get(&self) -> (r: Option<String>)
        ensures
            r matches Some(d) ==> self@ == Some(d@),
            r is None ==> self@ is None,
    {
        match &self.directory {
            Some(d) => Some(d.clone()),
            None => None,
        }
    }

    pub fn set(&mut self, directory: Option<String>)
        ensures
            final(self)@ == (match directory {
                Some(d) => Some(d@),
                None => None::<Seq<char>>,
            }),
    {
        self.directory = directory;
    }
}

pub open spec fn cancelled_message() -> Seq<char> {
    "Output folder selection cancelled"@
}

/// What resolving the output directory does next.
pub enum OutputDirectoryStep {
    /// Use the directory chosen earlier, without asking.
    UseStored(String),
    /// Ask the user with the folder picker.
    AskPicker,
}

/// The next step of resolving the output directory: the stored directory
/// when there is one, else a question to the user.
pub fn output_directory_step(state: &OutputDirectoryState) -> (r: OutputDirectoryStep)
    ensures
        state@ matches Some(d) ==> r matches OutputDirectoryStep::UseStored(p) && p@ == d,
        state@ is None ==> r is AskPicker,
{
    match state.get() {
        Some(d) => OutputDirectoryStep::UseStored(d),
        None => OutputDirectoryStep::AskPicker,
    }
}

/// Records the answer of the folder picker, once the directory is ready for
/// use: a picked directory becomes the stored one and is returned; a
/// dismissed picker fails and leaves the state as it was.
pub fn store_picked_directory(state: &mut OutputDirectoryState, picked: Option<String>) -> (r:
    Result<String, String>)
    ensures
        picked matches Some(d) ==> r is Ok && r->Ok_0@ == d@ && final(state)@ == Some(d@),
        picked is None ==> r is Err && r->Err_0@ == cancelled_message() && final(state)@ == old(
            state,
        )@,
{
    match picked {
        Some(d) => {
            state.set(Some(d.clone()));
            Ok(d)
        },
        None => Err(String::from_str("Output folder selection cancelled")),
    }
}

/// A local wall-clock time, to the second.
#[derive(Debug, Clone, Copy, PartialEq, Eq, Structural)]
pub struct LocalTimestamp {
    pub year: i32,
    pub month: u32,
    pub day: u32,
    pub hour: u32,
    pub minute: u32,
    pub second: u32,
}

impl LocalTimestamp {
    /// A calendar date and a time of day.
    pub open spec fn wf(self) -> bool {
        &&& 1 <= self.month <= 12
        &&& 1 <= self.day <= 31
        &&& self.hour < 24
        &&& self.minute < 60
        &&& self.second < 61
    }
}

/// The year `y` with at least four digits; a year outside 0 to 9999
/// carries its sign.
pub open spec fn year_text(y: i32) -> Seq<char> {
    if 0 <= y <= 9999 {
        crate::text::padded(y as nat, 4)
    } else if y > 9999 {
        "+"@ + crate::text::decimal(y as nat)
    } else if y > -10000 {
        "-"@ + crate::text::padded((-y) as nat, 4)
    } else {
        "-"@ + crate::text::decimal((-y) as nat)
    }
}

fn push_year(s: &mut String, y: i32)
    ensures
        final(s)@ == old(s)@ + year_text(y),
{
    if 0 <= y && y <= 9999 {
        push_padded(s, y as u32, 4);
    } else if y > 9999 {
        s.append("+");
        crate::text::push_decimal(s, y as u32);
        proof {
            reveal_strlit("+");
        }
        assert(s@ =~= old(s)@ + year_text(y));
    } else {
        let magnitude: u32 = (-(y as i64)) as u32;
        s.append("-");
        if y > -10000 {
            push_padded(s, magnitude, 4);
        } else {
            crate::text::push_decimal(s, magnitude);
        }
        proof {
            reveal_strlit("-");
        }
        assert(s@ =~= old(s)@ + year_text(y));
    }
}

/// `focusgo-YYYYMMDD-HHMMSS.png` for the time `t`.
pub open spec fn output_file_name(t: LocalTimestamp) -> Seq<char> {
    "focusgo-"@ + year_text(t.year) + crate::text::padded(t.month as nat, 2) + crate::text::padded(t.day as nat, 2)
        + "-"@ + crate::text::padded(t.hour as nat, 2) + crate::text::padded(t.minute as nat, 2) + crate::text::padded(t.second as nat, 2)
        + ".png"@
}

/// The file name for a capture finished at `now`.
pub fn generate_output_file_name(now: &LocalTimestamp) -> (r: String)
    requires
        now.wf(),
    ensures
        r@ == output_file_name(*now),
{
    let mut name = String::from_str("focusgo-");
    push_year(&mut name, now.year);
    push_padded(&mut name, now.month, 2);
    push_padded(&mut name, now.day, 2);
    name.append("-");
    push_padded(&mut name, now.hour, 2);
    push_padded(&mut name, now.minute, 2);
    push_padded(&mut name, now.second, 2);
    name.append(".png");
    assert(name@ =~= output_file_name(*now));
    name
}

/// The pixels of the `crop` part of an RGBA image `width` pixels wide, row
/// by row, four bytes each.
pub open spec fn cropped_pixels(rgba: Seq<u8>, width: u32, crop: CropBounds) -> Seq<u8> {
    Seq::new(
        (4 * crop.width * crop.height) as nat,
        |k: int|
            rgba[((crop.y + (k / 4) / (crop.width as int)) * width + crop.x + (k / 4) % (
            crop.width as int)) * 4 + k % 4],
    )
}

/// Relies on `imageops::crop_imm` of image and `SubImage::to_image`: the
/// pixels of the crop rectangle, copied row by row. The buffer is wrapped with
/// `ImageBuffer::from_raw`, which accepts it since it holds exactly four bytes
/// per pixel.
#[verifier::external_body]
fn crop_rgba(rgba: &Vec<u8>, width: u32, height: u32, crop: CropBounds) -> (r: Vec<u8>)
    requires
        rgba@.len() == 4 * width * height,
        crop.x + crop.width <= width,
        crop.y + crop.height <= height,
    ensures
        r@ == cropped_pixels(rgba@, width, crop),
{
    match image::RgbaImage::from_raw(width, height, rgba.clone()) {
        Some(source) => image::imageops::crop_imm(&source, crop.x, crop.y, crop.width, crop.height)
            .to_image()
            .into_raw(),
        None => Vec::new(),
    }
}

/// Crops the decoded capture `rgba`, `width` by `height` pixels, to the
/// selection as `resolve_crop_bounds` clamps it; fails as that does.
pub fn crop_capture(rgba: &Vec<u8>, width: u32, height: u32, selection: &PixelSelection) -> (r:
    Result<(CropBounds, Vec<u8>), String>)
    requires
        rgba@.len() == 4 * width * height,
    ensures
        match crate::crop::crop_outcome(width, height, *selection) {
            Ok(c) => r matches Ok((rc, pixels)) && rc == c && pixels@ == cropped_pixels(
                rgba@,
                width,
                c,
            ),
            Err(e) => r matches Err(m) && m@ == e,
        },
{
    let crop = crate::crop::resolve_crop_bounds(width, height, selection)?;
    proof {
        crate::crop::lemma_crop_within_image(width, height, *selection);
    }
    let pixels = crop_rgba(rgba, width, height, crop);
    Ok((crop, pixels))
}

/// What finishing a capture reports.
pub struct CompleteCaptureOutputResult {
    pub capture_id: String,
    pub saved_path: String,
    pub file_name: String,
    pub output_directory: String,
    pub copied_to_clipboard: bool,
}

/// The report for capture `capture_id`, saved as `file_name` in
/// `output_directory`; `copied_to_clipboard` tells whether the clipboard
/// took the image, which does not undo the saved file.
pub fn complete_capture_result(
    capture_id: String,
    output_directory: String,
    file_name: String,
    copied_to_clipboard: bool,
) -> (r: CompleteCaptureOutputResult)
    ensures
        r.capture_id@ == capture_id@,
        r.saved_path@ == crate::capture::join_path(output_directory@, file_name@),
        r.file_name@ == file_name@,
        r.output_directory@ == output_directory@,
        r.copied_to_clipboard == copied_to_clipboard,
{
    let saved_path = crate::capture::join_path_exec(output_directory.as_str(), file_name.as_str());
    CompleteCaptureOutputResult {
        capture_id,
        saved_path,
        file_name,
        output_directory,
        copied_to_clipboard,
    }
}

} // verus!
