use vstd::prelude::*;

use crate::error::Error;
use crate::timestamp::{chosen_seconds, resolve, resolved, Timestamp};

verus! {

/// EXIF data that the network recorded when the photo was uploaded.
#[derive(Debug, Clone)]
pub struct ExifSnapshot {
    /// The address the photo was uploaded from; the repair does not read it.
    pub upload_ip: String,
    /// When the photo was taken, in seconds after the epoch; 0 when the
    /// upload carried no such time.
    pub taken_timestamp: i64,
}

/// One photo of a collection: where its image lies under the export root and
/// the times recorded for it.
#[derive(Debug, Clone)]
pub struct PhotoRecord {
    /// The image's path, relative to the export root.
    pub uri: String,
    /// When the photo was posted, in seconds after the epoch.
    pub creation_timestamp: i64,
    /// The upload-time EXIF snapshots; only the first one is consulted.
    pub exif_data: Vec<ExifSnapshot>,
    pub backup_uri: String,
    /// Present for photos of an album.
    pub title: Option<String>,
}

/// A named collection of photos.
#[derive(Debug, Clone)]
pub struct Album {
    pub name: String,
    pub description: String,
    pub last_modified_timestamp: i64,
    pub photos: Vec<PhotoRecord>,
}

/// The photos that belong to no album.
#[derive(Debug, Clone)]
pub struct Misc {
    pub photos: Vec<PhotoRecord>,
}

impl PhotoRecord {
    /// The canonical time of this record: the first snapshot's taken time,
    /// or the creation time where that is 0.
    pub open spec fn canonical_seconds(&self) -> i64
        recommends
            self.exif_data@.len() > 0,
    {
        chosen_seconds(self.creation_timestamp, self.exif_data@[0].taken_timestamp)
    }

    /// The taken time of the first EXIF snapshot.
    pub fn taken_timestamp(&self) -> (r: Result<i64, Error>)
        ensures
            self.exif_data@.len() == 0 <==> r == Err::<i64, Error>(Error::MissingExifSnapshot),
            r matches Ok(t) ==> t == self.exif_data@[0].taken_timestamp,
            r matches Err(e) ==> e == Error::MissingExifSnapshot,
    {
        if self.exif_data.len() == 0 {
            Err(Error::MissingExifSnapshot)
        } else {
            Ok(self.exif_data[0].taken_timestamp)
        }
    }

    /// Resolves the canonical time of this photo; a record without snapshots
    /// is an error, never resolved from the creation time alone.
    pub fn resolved_time(&self) -> (r: Result<Timestamp, Error>)
        ensures
            self.exif_data@.len() == 0 ==> r == Err::<Timestamp, Error>(Error::MissingExifSnapshot),
            self.exif_data@.len() > 0 ==> r == resolved(
                self.creation_timestamp,
                self.exif_data@[0].taken_timestamp,
            ),
            r matches Ok(t) ==> t.wf(),
    {
        match self.taken_timestamp() {
            Ok(taken) => resolve(self.creation_timestamp, taken),
            Err(e) => Err(e),
        }
    }
}

} // verus!
