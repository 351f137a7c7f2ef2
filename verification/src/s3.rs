//! The batch of files that one run publishes.

use vstd::prelude::*;

use crate::error::Error;
use crate::publish::{Resolved, ResolvedObject};

verus! {

/// What inspecting a path on disk found out about it.
#[derive(Clone, Copy, Debug, PartialEq, Eq)]
pub struct FileMetadata {
    /// Whether the path names a regular file.
    pub is_file: bool,
    /// The length of the file in bytes.
    pub len: u64,
}

/// A file that was accepted into a batch.
#[derive(Debug, PartialEq, Eq)]
struct UploadCandidate {
    /// Where the file lives, as the caller wrote it.
    path: String,
    /// The length of the file in bytes at the moment it was accepted.
    size: u64,
}

/// A file of a batch as the contracts speak of it: its path and its length
/// in bytes.
pub struct Candidate {
    pub path: Seq<char>,
    pub size: nat,
}

impl View for UploadCandidate {
    type V = Candidate;

    closed spec fn view(&self) -> Candidate {
        Candidate { path: self.path@, size: self.size as nat }
    }
}

/// The sum of the sizes of `candidates`.
pub open spec fn total_size(candidates: Seq<Candidate>) -> nat
    decreases candidates.len(),
{
    if candidates.len() == 0 {
        0
    } else {
        total_size(candidates.drop_last()) + candidates.last().size
    }
}

/// The paths of `candidates`, in the same order.
pub open spec fn paths_of(candidates: Seq<Candidate>) -> Seq<Seq<char>> {
    candidates.map_values(|c: Candidate| c.path)
}

/// A batch without files has no paths and the size zero.
pub proof fn lemma_empty_batch()
    ensures
        paths_of(Seq::<Candidate>::empty()) == Seq::<Seq<char>>::empty(),
        total_size(Seq::<Candidate>::empty()) == 0,
{
}

/// Accepting one more file appends its path to the paths of the batch and
/// adds its size to the size of the batch.
pub proof fn lemma_one_more_file(batch: Seq<Candidate>, file: Candidate)
    ensures
        paths_of(batch.push(file)) == paths_of(batch).push(file.path),
        total_size(batch.push(file)) == total_size(batch) + file.size,
{
    assert(batch.push(file).drop_last() == batch);
}

/// Accepting the files of `added` after those of `batch` gives as many
/// paths as files, the paths in the order in which the files came, and
/// the sum of all the sizes.
pub proof fn lemma_more_files(batch: Seq<Candidate>, added: Seq<Candidate>)
    ensures
        paths_of(batch + added).len() == batch.len() + added.len(),
        paths_of(batch + added) == paths_of(batch) + paths_of(added),
        total_size(batch + added) == total_size(batch) + total_size(added),
    decreases added.len(),
{
    if added.len() == 0 {
        assert(batch + added == batch);
    } else {
        lemma_more_files(batch, added.drop_last());
        assert((batch + added).drop_last() == batch + added.drop_last());
    }
}

/// Who may read an object once it is stored.
#[derive(Clone, Copy, Debug, PartialEq, Eq)]
pub enum Acl {
    Private,
    PublicRead,
}

/// The parameters of one PUT to the object store; the body is the content
/// of the file.
#[derive(Debug, Clone, PartialEq, Eq)]
pub struct PutRequest {
    pub bucket: String,
    pub key: String,
    pub acl: Acl,
    pub content_type: Option<String>,
    pub content_disposition: String,
}

/// The mathematical content of a [`PutRequest`].
pub struct Request {
    pub bucket: Seq<char>,
    pub key: Seq<char>,
    pub acl: Acl,
    pub content_type: Option<Seq<char>>,
    pub content_disposition: Seq<char>,
}

impl View for PutRequest {
    type V = Request;

    open spec fn view(&self) -> Request {
        Request {
            bucket: self.bucket@,
            key: self.key@,
            acl: self.acl,
            content_type: self.content_type.deep_view(),
            content_disposition: self.content_disposition@,
        }
    }
}

impl Request {
    /// The request that stores `object` in `bucket` for everyone to read.
    pub open spec fn public(bucket: Seq<char>, object: Resolved) -> Request {
        Request {
            bucket,
            key: object.key,
            acl: Acl::PublicRead,
            content_type: object.content_type,
            content_disposition: object.content_disposition,
        }
    }
}

/// Issues the upload requests for one destination bucket.
#[derive(Clone, Debug, Eq, PartialEq)]
pub struct BatchUploader {
    /// The name of the destination bucket.
    bucket_name: String,
}

impl View for BatchUploader {
    type V = Seq<char>;

    /// The name of the destination bucket.
    closed spec fn view(&self) -> Seq<char> {
        self.bucket_name@
    }
}

impl BatchUploader {
    /// Constructs an uploader for the bucket of the given name.
    pub fn new(bucket_name: String) -> (uploader: Self)
        ensures
            uploader@ == bucket_name@,
    {
        BatchUploader { bucket_name }
    }

    /// Returns the request that stores `object` in the bucket, readable by
    /// everyone.
    pub fn request(&self, object: ResolvedObject) -> (request: PutRequest)
        ensures
            request@ == Request::public(self@, object@),
    {
        PutRequest {
            bucket: self.bucket_name.clone(),
            key: object.key,
            acl: Acl::PublicRead,
            content_type: object.content_type,
            content_disposition: object.content_disposition,
        }
    }
}

/// Batch of files that can be uploaded.
///
/// Its view is the sequence of the files in the order in which they were
/// added.
#[derive(Debug, Eq, PartialEq)]
pub struct Batch {
    /// List of files included in this batch.
    files: Vec<UploadCandidate>,
    /// Sum of the size of files. A file is shorter than 2^64 bytes and a
    /// batch holds fewer than 2^64 files, so the sum always fits.
    size: u128,
}

impl View for Batch {
    type V = Seq<Candidate>;

    closed spec fn view(&self) -> Seq<Candidate> {
        self.files@.map_values(|c: UploadCandidate| c@)
    }
}

impl Clone for Batch {
    /// A batch of its own with the same files in the same order.
    fn clone(&self) -> (copy: Self)
        ensures
            copy@ == self@,
    {
        proof {
            use_type_invariant(self);
        }
        let mut files: Vec<UploadCandidate> = Vec::new();
        let mut i: usize = 0;
        while i < self.files.len()
            invariant
                i <= self.files@.len(),
                files@.len() == i,
                forall|j: int| 0 <= j < i ==> files@[j]@ == self.files@[j]@,
            decreases self.files@.len() - i,
        {
            let file = &self.files[i];
            files.push(UploadCandidate { path: file.path.clone(), size: file.size });
            i += 1;
        }
        assert(files@.map_values(|c: UploadCandidate| c@) =~= self@);
        Batch { files, size: self.size }
    }
}

impl Batch {
    #[verifier::type_invariant]
    spec fn sizes_add_up(&self) -> bool {
        &&& self.size == total_size(self@)
        &&& self.size <= self.files@.len() * u64::MAX
    }

    /// Constructs a new and empty [`Batch`]: no files, and the size zero.
    pub fn new() -> (batch: Self)
        ensures
            batch@ == Seq::<Candidate>::empty(),
            paths_of(batch@) == Seq::<Seq<char>>::empty(),
            total_size(batch@) == 0,
    {
        Batch { files: Vec::new(), size: 0 }
    }

    /// Returns a list of paths for the files in this batch, in the order in
    /// which they were added.
    pub fn files(&self) -> (paths: Vec<String>)
        ensures
            paths.deep_view() == paths_of(self@),
            paths@.len() == self@.len(),
            forall|i: int| 0 <= i < paths@.len() ==> paths@[i]@ == self@[i].path,
    {
        let mut paths: Vec<String> = Vec::new();
        let mut i: usize = 0;
        while i < self.files.len()
            invariant
                i <= self.files@.len(),
                paths@.len() == i,
                forall|j: int| 0 <= j < i ==> paths@[j]@ == self.files@[j].path@,
            decreases self.files@.len() - i,
        {
            paths.push(self.files[i].path.clone());
            i += 1;
        }
        assert(paths.deep_view() =~= paths_of(self@));
        paths
    }

    /// Returns the sum of the sizes of the files in this batch.
    pub fn size(&self) -> (size: u128)
        ensures
            size == total_size(self@),
    {
        proof {
            use_type_invariant(self);
        }
        self.size
    }

    /// Adds the file at `path` to this upload batch. `inspected` is what
    /// looking at the path on disk yielded: the caller looks, the batch
    /// decides.
    ///
    /// # Errors
    ///
    /// A path that could not be inspected gives [`Error::IoError`] with the
    /// cause; a path that is not a regular file gives
    /// [`Error::InvalidFile`]. Either way the batch stays as it was.
    pub fn add(&mut self, path: &str, inspected: Result<FileMetadata, std::io::Error>) -> (outcome:
        Result<(), Error>)
        ensures
            match inspected {
                Ok(metadata) => if metadata.is_file {
                    &&& outcome is Ok
                    &&& final(self)@ == old(self)@.push(
                        Candidate { path: path@, size: metadata.len as nat },
                    )
                } else {
                    &&& outcome == Err::<(), Error>(Error::InvalidFile)
                    &&& final(self)@ == old(self)@
                },
                Err(cause) => {
                    &&& outcome == Err::<(), Error>(Error::IoError(cause))
                    &&& final(self)@ == old(self)@
                },
            },
    {
        match inspected {
            Err(cause) => Err(Error::IoError(cause)),
            Ok(metadata) => {
                if metadata.is_file {
                    // The files and their sum change together: take both out,
                    // and put them back as one value.
                    let mut taken = Batch::new();
                    core::mem::swap(self, &mut taken);
                    proof {
                        use_type_invariant(&taken);
                    }
                    let Batch { mut files, size } = taken;
                    let ghost before = files@.map_values(|c: UploadCandidate| c@);
                    let count: usize = files.len();
                    files.push(UploadCandidate { path: path.to_owned(), size: metadata.len });
                    proof {
                        let added = Candidate { path: path@, size: metadata.len as nat };
                        let after = files@.map_values(|c: UploadCandidate| c@);
                        assert(after == before.push(added));
                        assert(after.drop_last() == before);
                        assert(size + metadata.len <= (count + 1) * u64::MAX) by (nonlinear_arith)
                            requires
                                size <= count * u64::MAX,
                                metadata.len <= u64::MAX,
                        ;
                    }
                    *self = Batch { files, size: size + metadata.len as u128 };
                    Ok(())
                } else {
                    Err(Error::InvalidFile)
                }
            },
        }
    }
}

} // verus!
