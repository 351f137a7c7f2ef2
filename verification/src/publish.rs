//! The upload request for one object and the link under which the object
//! is served afterwards.

use url::Url;
use vstd::prelude::*;

use crate::config::AwsConfig;
use crate::error::{Error, ErrorKind};
use crate::s3::{Acl, BatchUploader, PutRequest, Request};
use crate::script::{Draft, ScriptablePutObject};

verus! {

/// The content disposition of an object whose program chose none.
pub const DEFAULT_CONTENT_DISPOSITION: &'static str = "attachment";

/// `url::ParseError`: why the `url` crate rejected a text as a URL.
#[verifier::external_type_specification]
#[verifier::external_body]
pub struct ExUrlParseError(url::ParseError);

/// The metadata of one object after the publisher's defaults were applied.
#[derive(Debug, Clone, PartialEq, Eq)]
pub struct ResolvedObject {
    pub key: String,
    /// Left to the object store where the program chose none.
    pub content_type: Option<String>,
    pub content_disposition: String,
}

/// The mathematical content of a [`ResolvedObject`].
pub struct Resolved {
    pub key: Seq<char>,
    pub content_type: Option<Seq<char>>,
    pub content_disposition: Seq<char>,
}

impl View for ResolvedObject {
    type V = Resolved;

    open spec fn view(&self) -> Resolved {
        Resolved {
            key: self.key@,
            content_type: self.content_type.deep_view(),
            content_disposition: self.content_disposition@,
        }
    }
}

/// The object that a draft resolves to: none without a key, and with the
/// default content disposition where the draft has none.
pub open spec fn resolved(draft: Draft) -> Option<Resolved> {
    match draft.key {
        None => None,
        Some(key) => Some(
            Resolved {
                key,
                content_type: draft.content_type,
                content_disposition: match draft.content_disposition {
                    Some(disposition) => disposition,
                    None => DEFAULT_CONTENT_DISPOSITION@,
                },
            },
        ),
    }
}

/// Applies the publisher's defaults to the draft that a program left
/// behind. A draft without a key gives [`Error::MissingKey`].
pub fn resolve(draft: ScriptablePutObject) -> (object: Result<ResolvedObject, Error>)
    ensures
        match resolved(draft@) {
            Some(expected) => object is Ok && object->Ok_0@ == expected,
            None => object == Err::<ResolvedObject, Error>(Error::MissingKey),
        },
{
    let ScriptablePutObject { content_type, content_disposition, key } = draft;
    match key {
        None => Err(Error::MissingKey),
        Some(key) => {
            let content_disposition = match content_disposition {
                Some(disposition) => disposition,
                None => DEFAULT_CONTENT_DISPOSITION.to_owned(),
            };
            Ok(ResolvedObject { key, content_type, content_disposition })
        },
    }
}

/// The URL that `url::Url::join` makes of `reference` on top of `base`, or
/// `None` where `base` is no URL or the join fails.
pub uninterp spec fn url_join(base: Seq<char>, reference: Seq<char>) -> Option<Seq<char>>;

/// Reads `base` with `url::Url::parse` and calls `url::Url::join` on it.
/// The contract claims that the outcome depends on the two texts alone;
/// what the joined URL is stays unstated.
#[verifier::external_body]
fn join(base: &str, reference: &str) -> (joined: Result<String, url::ParseError>)
    ensures
        match joined {
            Ok(url) => url_join(base@, reference@) == Some(url@),
            Err(_) => url_join(base@, reference@) is None,
        },
{
    let base = Url::parse(base)?;
    let joined = base.join(reference)?;
    Ok(joined.into())
}

/// One upload together with the link that is reported once it succeeded.
#[derive(Debug, Clone, PartialEq, Eq)]
pub struct Upload {
    pub request: PutRequest,
    pub url: String,
}

/// The mathematical content of an [`Upload`].
pub struct Planned {
    pub request: Request,
    pub url: Seq<char>,
}

impl View for Upload {
    type V = Planned;

    open spec fn view(&self) -> Planned {
        Planned { request: self.request@, url: self.url@ }
    }
}

/// Puts a request and the outcome of joining its key to the base URL
/// together. A failed join gives [`Error::InvalidUrl`].
pub fn assemble(request: PutRequest, joined: Result<String, url::ParseError>) -> (upload: Result<
    Upload,
    Error,
>)
    ensures
        upload == match joined {
            Ok(url) => Ok::<Upload, Error>(Upload { request, url }),
            Err(cause) => Err(Error::InvalidUrl(cause)),
        },
{
    match joined {
        Ok(url) => Ok(Upload { request, url }),
        Err(cause) => Err(Error::InvalidUrl(cause)),
    }
}

/// What [`plan`] makes of a draft for the bucket of the given name and the
/// given base URL: the upload, or the kind of the error.
pub open spec fn planned(draft: Draft, bucket: Seq<char>, base: Option<Seq<char>>) -> Result<
    Planned,
    ErrorKind,
> {
    match resolved(draft) {
        None => Err(ErrorKind::MissingKey),
        Some(object) => match base {
            None => Err(ErrorKind::NoPublicUrl),
            Some(base) => match url_join(base, object.key) {
                None => Err(ErrorKind::InvalidUrl),
                Some(url) => Ok(Planned { request: Request::public(bucket, object), url }),
            },
        },
    }
}

impl Planned {
    /// Whether this upload goes to the bucket of the given name, readable by
    /// everyone, and its link is the key of the object joined to `base`.
    pub open spec fn serves(self, bucket: Seq<char>, base: Option<Seq<char>>) -> bool {
        &&& self.request.bucket == bucket
        &&& self.request.acl == Acl::PublicRead
        &&& base matches Some(base) && url_join(base, self.request.key) == Some(self.url)
    }
}

/// A draft with a key and nothing else resolves: the content type stays
/// unset, for the object store to choose, and the content disposition is
/// the default one. Where a base URL is configured and the key joins to
/// it, the upload is planned.
pub proof fn lemma_unset_fields_take_defaults(key: Seq<char>, bucket: Seq<char>, base: Seq<char>)
    ensures
        resolved(Draft { key: Some(key), ..Draft::unset() }) == Some(
            Resolved { key, content_type: None, content_disposition: DEFAULT_CONTENT_DISPOSITION@ },
        ),
        url_join(base, key) matches Some(url) ==> planned(
            Draft { key: Some(key), ..Draft::unset() },
            bucket,
            Some(base),
        ) == Ok::<Planned, ErrorKind>(
            Planned {
                request: Request {
                    bucket,
                    key,
                    acl: Acl::PublicRead,
                    content_type: None,
                    content_disposition: DEFAULT_CONTENT_DISPOSITION@,
                },
                url,
            },
        ),
{
}

/// Without a base URL no upload is planned, whatever the draft holds: a
/// draft with a key gives `NoPublicUrl`, one without gives `MissingKey`.
pub proof fn lemma_no_base_url_no_upload(draft: Draft, bucket: Seq<char>)
    ensures
        planned(draft, bucket, None) is Err,
        draft.key is Some ==> planned(draft, bucket, None) == Err::<Planned, ErrorKind>(
            ErrorKind::NoPublicUrl,
        ),
        draft.key is None ==> planned(draft, bucket, None) == Err::<Planned, ErrorKind>(
            ErrorKind::MissingKey,
        ),
{
}

/// An upload that is planned serves the bucket and the base URL that it
/// was planned for, and carries what the draft held.
pub proof fn lemma_planned_upload_serves(draft: Draft, bucket: Seq<char>, base: Option<Seq<char>>)
    requires
        planned(draft, bucket, base) is Ok,
    ensures
        planned(draft, bucket, base)->Ok_0.serves(bucket, base),
        draft.key == Some(planned(draft, bucket, base)->Ok_0.request.key),
        draft.content_type == planned(draft, bucket, base)->Ok_0.request.content_type,
        draft.content_disposition matches Some(disposition) ==> planned(
            draft,
            bucket,
            base,
        )->Ok_0.request.content_disposition == disposition,
{
}

/// Plans the upload of one object from the draft that a program left
/// behind: the key must be set, then a base URL must be configured, then
/// the key must join to it. Nothing is sent.
pub fn plan(draft: ScriptablePutObject, config: &AwsConfig) -> (upload: Result<Upload, Error>)
    ensures
        match planned(draft@, config.s3_config.bucket_name@, config.spec_public_base()) {
            Ok(expected) => upload is Ok && upload->Ok_0@ == expected,
            Err(kind) => upload is Err && upload->Err_0.kind() == kind,
        },
{
    let object = resolve(draft)?;
    match config.public_base() {
        None => Err(Error::NoPublicUrl),
        Some(base) => {
            let joined = join(base.as_str(), object.key.as_str());
            let uploader = BatchUploader::new(config.s3_config.bucket_name.clone());
            assemble(uploader.request(object), joined)
        },
    }
}

} // verus!
