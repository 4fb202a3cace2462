//! The EXIF fields of an image that this library reads: when the photo was
//! taken, and how the camera was held.

use vstd::prelude::*;
use exif::{Context, Value};
use crate::datetime::{DateTime, valid_date, valid_time};
use crate::media_type::{is_image_extension, top_level_type_of};
use crate::names::{chars_of, extension, extension_of, file_name, file_name_of};

verus! {

/// The group of tags that a tag number belongs to.
#[derive(Clone, Copy, Debug, PartialEq, Eq, Structural)]
pub enum TagContext {
    Tiff,
    Exif,
    Other,
}

/// The value of an EXIF field, for the types this library reads.
pub enum ExifValue {
    Byte(Vec<u8>),
    Ascii(Vec<Vec<u8>>),
    Short(Vec<u16>),
    Long(Vec<u32>),
    Other,
}

/// One EXIF field: the directory it stands in (0 for the primary image), its
/// tag and its value.
pub struct ExifEntry {
    pub ifd: u16,
    pub context: TagContext,
    pub number: u16,
    pub value: ExifValue,
}

pub enum ExifValueView {
    Byte(Seq<u8>),
    Ascii(Seq<Seq<u8>>),
    Short(Seq<u16>),
    Long(Seq<u32>),
    Other,
}

pub struct ExifEntryView {
    pub ifd: u16,
    pub context: TagContext,
    pub number: u16,
    pub value: ExifValueView,
}

impl View for ExifValue {
    type V = ExifValueView;

    open spec fn view(&self) -> ExifValueView {
        match self {
            ExifValue::Byte(v) => ExifValueView::Byte(v@),
            ExifValue::Ascii(v) => ExifValueView::Ascii(parts_view(v@)),
            ExifValue::Short(v) => ExifValueView::Short(v@),
            ExifValue::Long(v) => ExifValueView::Long(v@),
            ExifValue::Other => ExifValueView::Other,
        }
    }
}

impl View for ExifEntry {
    type V = ExifEntryView;

    open spec fn view(&self) -> ExifEntryView {
        ExifEntryView { ifd: self.ifd, context: self.context, number: self.number, value: self.value@ }
    }
}

pub open spec fn parts_view(v: Seq<Vec<u8>>) -> Seq<Seq<u8>> {
    v.map_values(|p: Vec<u8>| p@)
}

pub open spec fn entries_view(v: Seq<ExifEntry>) -> Seq<ExifEntryView> {
    v.map_values(|e: ExifEntry| e@)
}

pub const DATE_TIME_ORIGINAL: u16 = 0x9003;

pub const DATE_TIME: u16 = 0x132;

pub const DATE_TIME_DIGITIZED: u16 = 0x9004;

pub const ORIENTATION: u16 = 0x112;

/// The EXIF fields that `kamadak-exif` finds in an image file's bytes, in
/// its order, or `None` where it finds no EXIF data.
pub uninterp spec fn exif_entries_of(data: Seq<u8>) -> Option<Seq<ExifEntryView>>;

/// Relies on `exif::Reader::read_from_container`: the fields of the EXIF data
/// in the container (JPEG, TIFF, PNG, HEIF, WebP) held in the bytes.
#[verifier::external_body]
fn read_exif_entries(data: &Vec<u8>) -> (r: Option<Vec<ExifEntry>>)
    ensures
        r matches Some(v) ==> exif_entries_of(data@) == Some(entries_view(v@)),
        r is None ==> exif_entries_of(data@) is None,
{
    let e = exif::Reader::new().read_from_container(&mut std::io::Cursor::new(data)).ok()?;
    Some(e.fields().map(|f| ExifEntry { ifd: f.ifd_num.0, number: f.tag.1,
        context: match f.tag.0 { Context::Tiff => TagContext::Tiff,
            Context::Exif => TagContext::Exif, _ => TagContext::Other },
        value: match &f.value { Value::Byte(v) => ExifValue::Byte(v.clone()),
            Value::Ascii(v) => ExifValue::Ascii(v.clone()),
            Value::Short(v) => ExifValue::Short(v.clone()),
            Value::Long(v) => ExifValue::Long(v.clone()), _ => ExifValue::Other },
    }).collect())
}

/// The text of an ASCII value of one string, or of one string followed by
/// empty ones.
pub open spec fn single_ascii(v: ExifValueView) -> Option<Seq<u8>> {
    match v {
        ExifValueView::Ascii(parts) => if parts.len() >= 1 && forall|k: int|
            1 <= k < parts.len() ==> (#[trigger] parts[k]).len() == 0 {
            Some(parts[0])
        } else {
            None
        },
        _ => None,
    }
}

pub open spec fn is_digit_byte(b: u8) -> bool {
    48 <= b <= 57
}

pub open spec fn two_digits(b: Seq<u8>, i: int) -> int {
    (b[i] - 48) * 10 + (b[i + 1] - 48)
}

/// Text of the shape `YYYY:MM:DD HH:MM:SS`, all ASCII.
pub open spec fn exif_date_shape(b: Seq<u8>) -> bool {
    &&& b.len() == 19
    &&& forall|k: int|
        0 <= k < 19 && k != 4 && k != 7 && k != 10 && k != 13 && k != 16 ==> is_digit_byte(
            #[trigger] b[k],
        )
    &&& b[4] == 58 && b[7] == 58 && b[10] == 32 && b[13] == 58 && b[16] == 58
}

/// The moment written as `YYYY:MM:DD HH:MM:SS`, if the text has that shape
/// and names a real moment.
pub open spec fn exif_date_time(b: Seq<u8>) -> Option<DateTime> {
    if exif_date_shape(b) {
        let y = two_digits(b, 0) * 100 + two_digits(b, 2);
        let mo = two_digits(b, 5);
        let d = two_digits(b, 8);
        let h = two_digits(b, 11);
        let mi = two_digits(b, 14);
        let s = two_digits(b, 17);
        if valid_date(y, mo, d) && valid_time(h, mi, s) {
            Some(DateTime::spec_new(y, mo, d, h, mi, s))
        } else {
            None
        }
    } else {
        None
    }
}

/// The moment held by a primary-image field with the given tag.
pub open spec fn entry_date(e: ExifEntryView, context: TagContext, number: u16) -> Option<DateTime> {
    if e.ifd == 0 && e.context == context && e.number == number {
        match single_ascii(e.value) {
            Some(t) => exif_date_time(t),
            None => None,
        }
    } else {
        None
    }
}

/// The moment of the first field from `i` on with the given tag that holds
/// one.
pub open spec fn first_entry_date(
    es: Seq<ExifEntryView>,
    i: int,
    context: TagContext,
    number: u16,
) -> Option<DateTime>
    decreases es.len() - i,
{
    if i < 0 || i >= es.len() {
        None
    } else {
        match entry_date(es[i], context, number) {
            Some(d) => Some(d),
            None => first_entry_date(es, i + 1, context, number),
        }
    }
}

/// When the photo was taken: the original date, else the file date, else the
/// digitized date, each from the primary image's fields.
pub open spec fn exif_timestamp_of(es: Seq<ExifEntryView>) -> Option<DateTime> {
    match first_entry_date(es, 0, TagContext::Exif, DATE_TIME_ORIGINAL) {
        Some(d) => Some(d),
        None => match first_entry_date(es, 0, TagContext::Tiff, DATE_TIME) {
            Some(d) => Some(d),
            None => first_entry_date(es, 0, TagContext::Exif, DATE_TIME_DIGITIZED),
        },
    }
}

/// The extension of the final component of a path.
pub open spec fn path_extension(path: Seq<char>) -> Option<Seq<char>> {
    match file_name_of(path) {
        Some(n) => extension_of(n),
        None => None,
    }
}

/// The path's extension stands for an image.
pub open spec fn path_is_image(path: Seq<char>) -> bool {
    match path_extension(path) {
        Some(e) => top_level_type_of(e) == "image"@,
        None => false,
    }
}

/// When the photo at `path`, whose bytes are `data`, was taken, as its EXIF
/// fields say.
pub open spec fn exif_timestamp_spec(path: Seq<char>, data: Seq<u8>) -> Option<DateTime> {
    if path_is_image(path) {
        match exif_entries_of(data) {
            Some(es) => exif_timestamp_of(es),
            None => None,
        }
    } else {
        None
    }
}

/// The first unsigned integer of a value of an integer type.
pub open spec fn first_uint(v: ExifValueView) -> Option<u32> {
    match v {
        ExifValueView::Byte(x) => if x.len() > 0 { Some(x[0] as u32) } else { None },
        ExifValueView::Short(x) => if x.len() > 0 { Some(x[0] as u32) } else { None },
        ExifValueView::Long(x) => if x.len() > 0 { Some(x[0]) } else { None },
        _ => None,
    }
}

pub open spec fn is_orientation_entry(e: ExifEntryView) -> bool {
    e.ifd == 0 && e.context == TagContext::Tiff && e.number == ORIENTATION
}

/// The orientation code of the last primary-image orientation field among
/// the first `n`.
pub open spec fn orientation_among(es: Seq<ExifEntryView>, n: int) -> Option<u32>
    decreases n,
{
    if n <= 0 || n > es.len() {
        None
    } else if is_orientation_entry(es[n - 1]) {
        first_uint(es[n - 1].value)
    } else {
        orientation_among(es, n - 1)
    }
}

pub open spec fn orientation_spec(path: Seq<char>, data: Seq<u8>) -> Option<u32> {
    if path_is_image(path) {
        match exif_entries_of(data) {
            Some(es) => orientation_among(es, es.len() as int),
            None => None,
        }
    } else {
        None
    }
}

fn is_digit_u8(b: u8) -> (r: bool)
    ensures
        r == is_digit_byte(b),
{
    48 <= b && b <= 57
}

fn two_digit_value(b: &Vec<u8>, i: usize) -> (r: u8)
    requires
        i + 1 < b.len(),
        is_digit_byte(b@[i as int]),
        is_digit_byte(b@[i + 1]),
    ensures
        r as int == two_digits(b@, i as int),
{
    (b[i] - 48) * 10 + (b[i + 1] - 48)
}

/// Reads text of the shape `YYYY:MM:DD HH:MM:SS` as a moment.
pub fn parse_exif_date_time(b: &Vec<u8>) -> (r: Option<DateTime>)
    ensures
        r == exif_date_time(b@),
{
    if b.len() != 19 {
        return None;
    }
    let mut k: usize = 0;
    while k < 19
        invariant
            b.len() == 19,
            k <= 19,
            forall|j: int|
                0 <= j < k && j != 4 && j != 7 && j != 10 && j != 13 && j != 16 ==> is_digit_byte(
                    #[trigger] b@[j],
                ),
        decreases 19 - k,
    {
        if k != 4 && k != 7 && k != 10 && k != 13 && k != 16 && !is_digit_u8(b[k]) {
            return None;
        }
        k = k + 1;
    }
    if b[4] != 58 || b[7] != 58 || b[10] != 32 || b[13] != 58 || b[16] != 58 {
        return None;
    }
    let y: i32 = two_digit_value(b, 0) as i32 * 100 + two_digit_value(b, 2) as i32;
    let mo = two_digit_value(b, 5);
    let d = two_digit_value(b, 8);
    let h = two_digit_value(b, 11);
    let mi = two_digit_value(b, 14);
    let s = two_digit_value(b, 17);
    DateTime::new(y, mo, d, h, mi, s)
}

fn single_ascii_text(v: &ExifValue) -> (r: Option<&Vec<u8>>)
    ensures
        r matches Some(t) ==> single_ascii(v@) == Some(t@),
        r is None ==> single_ascii(v@) is None,
{
    match v {
        ExifValue::Ascii(parts) => {
            if parts.len() == 0 {
                return None;
            }
            let mut k: usize = 1;
            while k < parts.len()
                invariant
                    1 <= k <= parts.len(),
                    v@ == ExifValueView::Ascii(parts_view(parts@)),
                    forall|j: int| 1 <= j < k ==> (#[trigger] parts@[j])@.len() == 0,
                decreases parts.len() - k,
            {
                if parts[k].len() != 0 {
                    assert(parts_view(parts@)[k as int].len() != 0);
                    return None;
                }
                k = k + 1;
            }
            let ghost pv = parts_view(parts@);
            assert forall|j: int| 1 <= j < pv.len() implies (#[trigger] pv[j]).len() == 0 by {
                assert(parts@[j]@.len() == 0);
            }
            Some(&parts[0])
        },
        _ => None,
    }
}

fn entry_date_of(e: &ExifEntry, context: TagContext, number: u16) -> (r: Option<DateTime>)
    ensures
        r == entry_date(e@, context, number),
{
    if e.ifd == 0 && e.context == context && e.number == number {
        match single_ascii_text(&e.value) {
            Some(t) => parse_exif_date_time(t),
            None => None,
        }
    } else {
        None
    }
}

fn first_date_with(es: &Vec<ExifEntry>, context: TagContext, number: u16) -> (r: Option<DateTime>)
    ensures
        r == first_entry_date(entries_view(es@), 0, context, number),
{
    let ghost v = entries_view(es@);
    let mut i: usize = 0;
    while i < es.len()
        invariant
            i <= es.len(),
            v == entries_view(es@),
            first_entry_date(v, 0, context, number) == first_entry_date(v, i as int, context, number),
        decreases es.len() - i,
    {
        let d = entry_date_of(&es[i], context, number);
        assert(v[i as int] == es@[i as int]@);
        if d.is_some() {
            return d;
        }
        i = i + 1;
    }
    None
}

/// When the photo was taken, as its EXIF fields say.
pub fn exif_timestamp(es: &Vec<ExifEntry>) -> (r: Option<DateTime>)
    ensures
        r == exif_timestamp_of(entries_view(es@)),
{
    match first_date_with(es, TagContext::Exif, DATE_TIME_ORIGINAL) {
        Some(d) => Some(d),
        None => match first_date_with(es, TagContext::Tiff, DATE_TIME) {
            Some(d) => Some(d),
            None => first_date_with(es, TagContext::Exif, DATE_TIME_DIGITIZED),
        },
    }
}

fn first_uint_of(v: &ExifValue) -> (r: Option<u32>)
    ensures
        r == first_uint(v@),
{
    match v {
        ExifValue::Byte(x) => if x.len() > 0 { Some(x[0] as u32) } else { None },
        ExifValue::Short(x) => if x.len() > 0 { Some(x[0] as u32) } else { None },
        ExifValue::Long(x) => if x.len() > 0 { Some(x[0]) } else { None },
        _ => None,
    }
}

/// The orientation code of the primary image, from the last orientation
/// field.
pub fn exif_orientation(es: &Vec<ExifEntry>) -> (r: Option<u32>)
    ensures
        r == orientation_among(entries_view(es@), es.len() as int),
{
    let ghost v = entries_view(es@);
    let mut n: usize = es.len();
    while n > 0
        invariant
            n <= es.len(),
            v == entries_view(es@),
            orientation_among(v, es.len() as int) == orientation_among(v, n as int),
        decreases n,
    {
        let e = &es[n - 1];
        assert(v[n - 1] == es@[n - 1]@);
        if e.ifd == 0 && e.context == TagContext::Tiff && e.number == ORIENTATION {
            return first_uint_of(&e.value);
        }
        n = n - 1;
    }
    None
}

/// Whether the path's extension stands for an image, whose EXIF fields are
/// then worth reading.
pub fn is_image_path(path: &str) -> (r: bool)
    ensures
        r == path_is_image(path@),
{
    match file_name(path) {
        Some(n) => match extension(n.as_str()) {
            Some(e) => is_image_extension(&chars_of(e.as_str())),
            None => false,
        },
        None => false,
    }
}

/// When the photo at `path`, whose file holds `data`, was taken, as its EXIF
/// fields say; only images are read.
pub fn get_exif_timestamp(path: &str, data: &Vec<u8>) -> (r: Option<DateTime>)
    ensures
        r == exif_timestamp_spec(path@, data@),
{
    if !is_image_path(path) {
        return None;
    }
    match read_exif_entries(data) {
        Some(es) => exif_timestamp(&es),
        None => None,
    }
}

/// The EXIF orientation code of the image at `path`, whose file holds
/// `data`.
pub fn read_exif_orientation(path: &str, data: &Vec<u8>) -> (r: Option<u32>)
    ensures
        r == orientation_spec(path@, data@),
{
    if !is_image_path(path) {
        return None;
    }
    match read_exif_entries(data) {
        Some(es) => exif_orientation(&es),
        None => None,
    }
}

} // verus!
