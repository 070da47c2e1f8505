use vstd::prelude::*;

use crate::error::Error;
use crate::layout::{album_dir, get_misc_photos_data, join_path, joined, select_album_files, is_json_name, ALBUM_DIR_PATH, MISC_DATA_PATH};
use crate::record::{Album, Misc, PhotoRecord};
use crate::stamp::{stamp_job, StampJob};
use crate::timestamp::{exif_pattern, utc_formatted, utc_representable};

verus! {

/// What the run asks its caller to do next.
#[derive(Debug, Clone)]
pub enum Action {
    /// Read and parse the document of photos outside any album at this path.
    LoadMisc(String),
    /// List the entry names of the album directory at this path.
    ListAlbums(String),
    /// Write the capture-date tag of one image.
    Stamp(StampJob),
    /// Read and parse the album document at this path.
    LoadAlbum(String),
    /// Every photo has been stamped.
    Finished,
    /// The run stopped at its first failure.
    Aborted(Error),
}

/// Where a run stands, which is which outcome it waits for.
#[derive(Debug, Clone, Copy, PartialEq, Eq, Structural)]
pub enum Phase {
    Start,
    AwaitMisc,
    AwaitListing,
    AwaitStamp,
    AwaitAlbum,
    Finished,
    Aborted,
}

/// One run over an export: the photos outside any album first, then each
/// album document in the order listed, one photo at a time; the first
/// failure ends the run.
#[derive(Debug)]
pub struct Pipeline {
    pub root: String,
    pub phase: Phase,
    /// Paths of the album documents still to be visited from `next_album` on.
    pub albums: Vec<String>,
    pub next_album: usize,
    /// The photos of the collection being stamped, and the next one's index.
    pub photos: Vec<PhotoRecord>,
    pub next_photo: usize,
}

/// Whether `a` is the action owed for the photo `p`: the failure that its
/// records give, else its stamp.
pub open spec fn stamp_action_of(root: Seq<char>, p: PhotoRecord, a: Action) -> bool {
    if p.exif_data@.len() == 0 {
        a == Action::Aborted(Error::MissingExifSnapshot)
    } else if !utc_representable(p.canonical_seconds() as int) {
        a == Action::Aborted(Error::TimestampOutOfRange)
    } else {
        &&& a matches Action::Stamp(job)
        &&& job.image_path@ == joined(root, p.uri@)
        &&& job.tag_text@ == utc_formatted(p.canonical_seconds() as int, exif_pattern())
    }
}

/// One step of a run from the state `pre`: the stamp of the next photo of
/// the current collection (or the failure of its records), else the next
/// album document, else the end of the run.
pub open spec fn advances(pre: Pipeline, post: Pipeline, a: Action) -> bool {
    if pre.next_photo < pre.photos@.len() {
        &&& stamp_action_of(pre.root@, pre.photos@[pre.next_photo as int], a)
        &&& a is Stamp ==> post == (Pipeline {
            phase: Phase::AwaitStamp,
            next_photo: (pre.next_photo + 1) as usize,
            ..pre
        })
        &&& a is Aborted ==> post == (Pipeline { phase: Phase::Aborted, ..pre })
    } else if pre.next_album < pre.albums@.len() {
        &&& a == Action::LoadAlbum(pre.albums@[pre.next_album as int])
        &&& post == (Pipeline {
            phase: Phase::AwaitAlbum,
            next_album: (pre.next_album + 1) as usize,
            ..pre
        })
    } else {
        &&& a == Action::Finished
        &&& post == (Pipeline { phase: Phase::Finished, ..pre })
    }
}

/// Each name placed under the directory `dir`, in order.
pub fn album_paths(dir: &str, names: &Vec<String>) -> (r: Vec<String>)
    ensures
        r@.len() == names@.len(),
        forall|i: int| 0 <= i < names@.len() ==> #[trigger] r@[i]@ == joined(dir@, names@[i]@),
{
    let mut out: Vec<String> = Vec::new();
    let mut i: usize = 0;
    while i < names.len()
        invariant
            i <= names@.len(),
            out@.len() == i,
            forall|j: int| 0 <= j < i ==> #[trigger] out@[j]@ == joined(dir@, names@[j]@),
        decreases names@.len() - i,
    {
        out.push(join_path(dir, names[i].as_str()));
        i = i + 1;
    }
    out
}

/// The tag text of a stamp depends on the photo's canonical time alone: two
/// stamps of photos resolved to the same time, the same photo stamped twice
/// among them, carry the same text (and each such stamp is owed, see
/// `stamp_action_of`).
pub proof fn lemma_stamp_text_depends_on_time_only(
    root: Seq<char>,
    p: PhotoRecord,
    q: PhotoRecord,
    first: StampJob,
    second: StampJob,
)
    requires
        p.exif_data@.len() > 0,
        q.exif_data@.len() > 0,
        p.canonical_seconds() == q.canonical_seconds(),
        stamp_action_of(root, p, Action::Stamp(first)),
        stamp_action_of(root, q, Action::Stamp(second)),
    ensures
        first.tag_text@ == second.tag_text@,
{
}

/// Only a photo's path, creation time and first snapshot's taken time decide
/// its stamp: later snapshots, upload addresses, the title and the backup
/// reference never change what is owed for it.
pub proof fn lemma_stamp_ignores_other_fields(root: Seq<char>, p: PhotoRecord, q: PhotoRecord, a: Action)
    requires
        p.uri@ == q.uri@,
        p.creation_timestamp == q.creation_timestamp,
        p.exif_data@.len() == 0 <==> q.exif_data@.len() == 0,
        p.exif_data@.len() > 0 ==> p.exif_data@[0].taken_timestamp == q.exif_data@[0].taken_timestamp,
    ensures
        stamp_action_of(root, p, a) == stamp_action_of(root, q, a),
{
}

impl Pipeline {
    pub open spec fn wf(&self) -> bool {
        &&& self.next_album <= self.albums@.len()
        &&& self.next_photo <= self.photos@.len()
    }

    /// A run over the export rooted at `root` that has not begun.
    pub fn new(root: String) -> (r: Pipeline)
        ensures
            r.wf(),
            r.root == root,
            r.phase == Phase::Start,
            r.albums@.len() == 0,
            r.photos@.len() == 0,
    {
        Pipeline { root, phase: Phase::Start, albums: Vec::new(), next_album: 0, photos: Vec::new(), next_photo: 0 }
    }

    /// Begins the run by asking for the photos outside any album.
    pub fn start(&mut self) -> (r: Action)
        requires
            old(self).phase == Phase::Start,
        ensures
            r matches Action::LoadMisc(p) && p@ == joined(old(self).root@, MISC_DATA_PATH@),
            *final(self) == (Pipeline { phase: Phase::AwaitMisc, ..*old(self) }),
    {
        self.phase = Phase::AwaitMisc;
        Action::LoadMisc(get_misc_photos_data(self.root.as_str()))
    }

    /// Takes the outcome of loading the photos outside any album, and asks
    /// for the listing of the album directory.
    pub fn misc_loaded(&mut self, outcome: Result<Misc, Error>) -> (r: Action)
        requires
            old(self).wf(),
            old(self).phase == Phase::AwaitMisc,
        ensures
            final(self).wf(),
            final(self).root == old(self).root,
            outcome matches Err(e) ==> r == Action::Aborted(e) && *final(self) == (Pipeline {
                phase: Phase::Aborted,
                ..*old(self)
            }),
            outcome matches Ok(m) ==> {
                &&& r matches Action::ListAlbums(p) && p@ == joined(old(self).root@, ALBUM_DIR_PATH@)
                &&& final(self).phase == Phase::AwaitListing
                &&& final(self).photos == m.photos
                &&& final(self).next_photo == 0
                &&& final(self).albums@.len() == 0
                &&& final(self).next_album == 0
            },
    {
        match outcome {
            Err(e) => {
                self.abort(e)
            },
            Ok(m) => {
                self.photos = m.photos;
                self.next_photo = 0;
                self.albums = Vec::new();
                self.next_album = 0;
                self.phase = Phase::AwaitListing;
                Action::ListAlbums(album_dir(self.root.as_str()))
            },
        }
    }

    fn abort(&mut self, e: Error) -> (r: Action)
        ensures
            r == Action::Aborted(e),
            *final(self) == (Pipeline { phase: Phase::Aborted, ..*old(self) }),
    {
        self.phase = Phase::Aborted;
        Action::Aborted(e)
    }

    /// Moves on to the next photo of the current collection, else to the next
    /// album document, else ends the run.
    fn advance(&mut self) -> (r: Action)
        requires
            old(self).wf(),
        ensures
            final(self).wf(),
            advances(*old(self), *final(self), r),
    {
        if self.next_photo < self.photos.len() {
            match stamp_job(self.root.as_str(), &self.photos[self.next_photo]) {
                Ok(job) => {
                    self.next_photo = self.next_photo + 1;
                    self.phase = Phase::AwaitStamp;
                    Action::Stamp(job)
                },
                Err(e) => self.abort(e),
            }
        } else if self.next_album < self.albums.len() {
            let path = self.albums[self.next_album].clone();
            self.next_album = self.next_album + 1;
            self.phase = Phase::AwaitAlbum;
            Action::LoadAlbum(path)
        } else {
            self.phase = Phase::Finished;
            Action::Finished
        }
    }

    /// Takes the entry names of the album directory, keeps the album
    /// documents among them, and begins stamping.
    pub fn albums_listed(&mut self, outcome: Result<Vec<String>, Error>) -> (r: Action)
        requires
            old(self).wf(),
            old(self).phase == Phase::AwaitListing,
        ensures
            final(self).wf(),
            outcome matches Err(e) ==> r == Action::Aborted(e) && *final(self) == (Pipeline {
                phase: Phase::Aborted,
                ..*old(self)
            }),
            outcome matches Ok(names) ==> {
                let docs = names@.filter(|s: String| is_json_name(s@));
                &&& final(self).albums@.len() == docs.len()
                &&& forall|i: int|
                    0 <= i < docs.len() ==> #[trigger] final(self).albums@[i]@ == joined(
                        joined(old(self).root@, ALBUM_DIR_PATH@),
                        docs[i]@,
                    )
                &&& advances(
                    Pipeline { albums: final(self).albums, next_album: 0, ..*old(self) },
                    *final(self),
                    r,
                )
            },
    {
        match outcome {
            Err(e) => self.abort(e),
            Ok(names) => {
                let dir = album_dir(self.root.as_str());
                let docs = select_album_files(&names);
                self.albums = album_paths(dir.as_str(), &docs);
                self.next_album = 0;
                self.advance()
            },
        }
    }

    /// Takes the outcome of writing the last stamp, and moves on.
    pub fn stamped(&mut self, outcome: Result<(), Error>) -> (r: Action)
        requires
            old(self).wf(),
            old(self).phase == Phase::AwaitStamp,
        ensures
            final(self).wf(),
            outcome matches Err(e) ==> r == Action::Aborted(e) && *final(self) == (Pipeline {
                phase: Phase::Aborted,
                ..*old(self)
            }),
            outcome is Ok ==> advances(*old(self), *final(self), r),
    {
        match outcome {
            Err(e) => self.abort(e),
            Ok(()) => self.advance(),
        }
    }

    /// Takes the outcome of loading an album document, and stamps its photos.
    pub fn album_loaded(&mut self, outcome: Result<Album, Error>) -> (r: Action)
        requires
            old(self).wf(),
            old(self).phase == Phase::AwaitAlbum,
        ensures
            final(self).wf(),
            outcome matches Err(e) ==> r == Action::Aborted(e) && *final(self) == (Pipeline {
                phase: Phase::Aborted,
                ..*old(self)
            }),
            outcome matches Ok(a) ==> advances(
                Pipeline { photos: a.photos, next_photo: 0, ..*old(self) },
                *final(self),
                r,
            ),
    {
        match outcome {
            Err(e) => self.abort(e),
            Ok(a) => {
                self.photos = a.photos;
                self.next_photo = 0;
                self.advance()
            },
        }
    }
}

} // verus!
