use vstd::prelude::*;

use crate::error::Error;
use crate::layout::{join_path, joined};
use crate::record::PhotoRecord;
use crate::timestamp::{exif_pattern, exif_shaped, four_digit_year, utc_formatted, utc_representable};

verus! {

/// What is to be written for one photo: the image file and the text of its
/// original-capture-date tag.
#[derive(Debug, Clone)]
pub struct StampJob {
    pub image_path: String,
    pub tag_text: String,
}

/// Works out the stamp of `photo` in the export rooted at `root`: its image
/// path under the root, and its canonical time as EXIF date text.
pub fn stamp_job(root: &str, photo: &PhotoRecord) -> (r: Result<StampJob, Error>)
    ensures
        photo.exif_data@.len() == 0 ==> r == Err::<StampJob, Error>(Error::MissingExifSnapshot),
        photo.exif_data@.len() > 0 && !utc_representable(photo.canonical_seconds() as int)
            ==> r == Err::<StampJob, Error>(Error::TimestampOutOfRange),
        photo.exif_data@.len() > 0 && utc_representable(photo.canonical_seconds() as int) ==> {
            &&& r matches Ok(job)
            &&& job.image_path@ == joined(root@, photo.uri@)
            &&& job.tag_text@ == utc_formatted(photo.canonical_seconds() as int, exif_pattern())
        },
        photo.exif_data@.len() > 0 && four_digit_year(photo.canonical_seconds() as int) ==> (r matches Ok(
            job,
        ) && exif_shaped(job.tag_text@)),
{
    let time = match photo.resolved_time() {
        Ok(t) => t,
        Err(e) => return Err(e),
    };
    let tag_text = time.exif_text();
    let image_path = join_path(root, photo.uri.as_str());
    Ok(StampJob { image_path, tag_text })
}

} // verus!
