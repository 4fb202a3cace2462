//! When a photo was taken, by the first source that tells: its companion
//! JSON file, its EXIF fields, then its file name.

use vstd::prelude::*;
use crate::datetime::{DateTime, from_unix_timestamp, unix_moment};
use crate::exif_data::{exif_timestamp_spec, get_exif_timestamp, is_image_path, path_is_image};
use crate::name_timestamp::{get_regex_timestamp, path_timestamp};
use crate::sidecar::{GooglePhotoJsonData, field_seconds, sidecar_seconds};

verus! {

/// The seconds that a companion file, if there is one, gives.
pub open spec fn sidecar_opt_seconds(sidecar: Option<&GooglePhotoJsonData>) -> Option<u64> {
    match sidecar {
        Some(j) => sidecar_seconds(*j),
        None => None,
    }
}

/// The moment of the companion file's seconds; else, where it gives none,
/// what the EXIF fields of the file's bytes (if read) say; else, where that
/// too gives nothing, what the file name says.
pub open spec fn resolved_timestamp(path: Seq<char>, json: Option<u64>, data: Option<Seq<u8>>) -> Option<
    DateTime,
> {
    let first = match json {
        Some(j) => unix_moment((j as i64) as int),
        None => match data {
            Some(d) => exif_timestamp_spec(path, d),
            None => None,
        },
    };
    match first {
        Some(t) => Some(t),
        None => path_timestamp(path),
    }
}

pub open spec fn data_view(data: Option<&Vec<u8>>) -> Option<Seq<u8>> {
    match data {
        Some(d) => Some(d@),
        None => None,
    }
}

/// Whether the bytes of the photo at `path` are worth reading for its EXIF
/// fields: it is an image and its companion file gives no time.
pub fn wants_image_data(path: &str, sidecar: Option<&GooglePhotoJsonData>) -> (r: bool)
    ensures
        r == (sidecar_opt_seconds(sidecar) is None && path_is_image(path@)),
{
    let json = match sidecar {
        Some(j) => j.json_timestamp(),
        None => None,
    };
    json.is_none() && is_image_path(path)
}

/// When the photo at `path` was taken, from its companion file's contents
/// (`None` where there is no readable one) and the photo's bytes (`None`
/// where they were not read).
pub fn get_timestamp_for_path(
    path: &str,
    sidecar: Option<&GooglePhotoJsonData>,
    data: Option<&Vec<u8>>,
) -> (r: Option<DateTime>)
    ensures
        r == resolved_timestamp(path@, sidecar_opt_seconds(sidecar), data_view(data)),
{
    let json = match sidecar {
        Some(j) => j.json_timestamp(),
        None => None,
    };
    let first = match json {
        Some(j) => from_unix_timestamp(j as i64),
        None => match data {
            Some(d) => get_exif_timestamp(path, d),
            None => None,
        },
    };
    match first {
        Some(t) => Some(t),
        None => get_regex_timestamp(path),
    }
}

/// A companion file that gives both the time the photo was taken and its
/// upload time is read for the time it was taken.
pub proof fn lemma_taken_time_wins(path: Seq<char>, data: GooglePhotoJsonData, bytes: Option<Seq<u8>>)
    requires
        field_seconds(data.photo_taken_time) is Some,
        field_seconds(data.creation_time) is Some,
    ensures
        sidecar_seconds(data) == field_seconds(data.photo_taken_time),
        resolved_timestamp(path, sidecar_seconds(data), bytes) == match unix_moment(
            (field_seconds(data.photo_taken_time)->0 as i64) as int,
        ) {
            Some(t) => Some(t),
            None => path_timestamp(path),
        },
{
}

} // verus!
