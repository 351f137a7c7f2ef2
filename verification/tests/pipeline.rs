use mkpub::config::{AwsConfig, AwsS3Config};
use mkpub::error::{Error, ErrorKind};
use mkpub::pipeline::{resolve_metadata, Action, Event, Failure, Pipeline, Stage};
use mkpub::publish::Upload;
use mkpub::s3::{Acl, Batch, FileMetadata, PutRequest};
use mkpub::script::{build_engine, compile, DEFAULT_RHAI_PROGRAM};

fn config(public_url: Option<&str>) -> AwsConfig {
    AwsConfig {
        profile_name: None,
        endpoint_url: None,
        s3_config: AwsS3Config {
            bucket_name: "assets".to_string(),
            public_url: public_url.map(str::to_string),
        },
    }
}

fn upload(key: &str) -> Upload {
    Upload {
        request: PutRequest {
            bucket: "assets".to_string(),
            key: key.to_string(),
            acl: Acl::PublicRead,
            content_type: None,
            content_disposition: "attachment".to_string(),
        },
        url: format!("https://cdn.example.com/{key}"),
    }
}

/// Drives a run in which every stream opens and every PUT succeeds, and
/// returns what was sent and what was reported.
fn drive(files: Vec<String>, config: &AwsConfig) -> (Vec<PutRequest>, Vec<String>, Option<Failure>) {
    let engine = build_engine();
    let program = compile(&engine, DEFAULT_RHAI_PROGRAM).unwrap();
    let mut sent = Vec::new();
    let mut lines = Vec::new();
    let mut pipeline = Pipeline::new(files);
    loop {
        let event = match pipeline.action() {
            Action::OpenStream(_) => Event::Stream(Ok(())),
            Action::ResolveMetadata(path) => resolve_metadata(&engine, &program, config, path),
            Action::Put(request) => {
                sent.push(request.clone());
                Event::Store(Ok(()))
            }
            Action::Report(url) => {
                lines.push(url.clone());
                Event::Reported
            }
            Action::Finish | Action::Abort => break,
        };
        pipeline = pipeline.advance(event);
    }
    (sent, lines, pipeline.failure())
}

#[test]
fn two_files_are_reported_in_input_order() {
    let mut batch = Batch::new();
    batch.add("/srv/in/first.jpg", Ok(FileMetadata { is_file: true, len: 10 })).unwrap();
    batch.add("other/second.txt", Ok(FileMetadata { is_file: true, len: 20 })).unwrap();
    let (sent, lines, failure) = drive(batch.files(), &config(Some("https://cdn.example.com/")));
    assert!(failure.is_none());
    assert_eq!(
        lines,
        vec![
            "https://cdn.example.com/first.jpg".to_string(),
            "https://cdn.example.com/second.txt".to_string(),
        ]
    );
    assert_eq!(sent.len(), 2);
    assert_eq!(sent[0].key, "first.jpg");
    assert_eq!(sent[0].content_type.as_deref(), Some("image/jpeg"));
    assert_eq!(sent[0].content_disposition, "attachment");
    assert_eq!(sent[0].acl, Acl::PublicRead);
    assert_eq!(sent[0].bucket, "assets");
    assert_eq!(sent[1].key, "second.txt");
    assert_eq!(sent[1].content_type.as_deref(), Some("text/plain"));
}

#[test]
fn empty_batch_finishes_at_once() {
    let (sent, lines, failure) = drive(Batch::new().files(), &config(Some("https://cdn.example.com/")));
    assert!(sent.is_empty());
    assert!(lines.is_empty());
    assert!(failure.is_none());
    assert_eq!(Pipeline::new(Vec::new()).action(), Action::Finish);
}

#[test]
fn nothing_is_sent_without_a_public_url() {
    let files = vec!["a.txt".to_string(), "b.txt".to_string()];
    let (sent, lines, failure) = drive(files, &config(None));
    assert!(sent.is_empty());
    assert!(lines.is_empty());
    let failure = failure.unwrap();
    assert_eq!(failure.path, "a.txt");
    assert_eq!(failure.error.kind(), ErrorKind::NoPublicUrl);
}

#[test]
fn stream_failure_aborts_the_run() {
    let files = vec!["a.txt".to_string(), "b.txt".to_string()];
    let a = "a.txt".to_string();
    let b = "b.txt".to_string();
    let mut pipeline = Pipeline::new(files);
    assert_eq!(pipeline.action(), Action::OpenStream(&a));
    pipeline = pipeline.advance(Event::Stream(Ok(())));
    assert_eq!(pipeline.action(), Action::ResolveMetadata(&a));
    pipeline = pipeline.advance(Event::Metadata(Ok(upload("a.txt"))));
    assert_eq!(pipeline.action(), Action::Put(&upload("a.txt").request));
    pipeline = pipeline.advance(Event::Store(Ok(())));
    assert_eq!(pipeline.action(), Action::Report(&"https://cdn.example.com/a.txt".to_string()));
    pipeline = pipeline.advance(Event::Reported);
    assert_eq!(pipeline.action(), Action::OpenStream(&b));
    let denied = std::io::Error::new(std::io::ErrorKind::PermissionDenied, "denied");
    pipeline = pipeline.advance(Event::Stream(Err(denied)));
    assert_eq!(pipeline.action(), Action::Abort);
    pipeline = pipeline.advance(Event::Stream(Ok(())));
    assert_eq!(pipeline.action(), Action::Abort);
    pipeline = pipeline.advance(Event::Reported);
    assert_eq!(pipeline.action(), Action::Abort);
    let failure = pipeline.failure().unwrap();
    assert_eq!(failure.path, "b.txt");
    assert_eq!(failure.error.kind(), ErrorKind::IoError);
}

#[test]
fn store_failure_aborts_the_run() {
    let mut pipeline = Pipeline::new(vec!["a.txt".to_string()]);
    pipeline = pipeline.advance(Event::Stream(Ok(())));
    pipeline = pipeline.advance(Event::Metadata(Ok(upload("a.txt"))));
    pipeline = pipeline.advance(Event::Store(Err("access denied".to_string())));
    assert_eq!(pipeline.action(), Action::Abort);
    match pipeline.failure() {
        Some(Failure { path, error: Error::StoreError(reason) }) => {
            assert_eq!(path, "a.txt");
            assert_eq!(reason, "access denied");
        }
        other => panic!("unexpected outcome: {other:?}"),
    }
}

#[test]
fn program_failure_aborts_the_run() {
    let engine = build_engine();
    let program = compile(&engine, "throw \"stop\";").unwrap();
    let mut pipeline = Pipeline::new(vec!["a.txt".to_string()]);
    pipeline = pipeline.advance(Event::Stream(Ok(())));
    let event = resolve_metadata(&engine, &program, &config(Some("https://cdn.example.com/")), "a.txt");
    pipeline = pipeline.advance(event);
    assert_eq!(pipeline.action(), Action::Abort);
    assert_eq!(pipeline.failure().unwrap().error.kind(), ErrorKind::ScriptRuntimeError);
}

#[test]
fn event_out_of_turn_changes_nothing() {
    let a = "a.txt".to_string();
    let mut pipeline = Pipeline::new(vec![a.clone()]);
    pipeline = pipeline.advance(Event::Store(Ok(())));
    assert_eq!(pipeline.action(), Action::OpenStream(&a));
    pipeline = pipeline.advance(Event::Reported);
    assert_eq!(pipeline.action(), Action::OpenStream(&a));
    pipeline = pipeline.advance(Event::Metadata(Ok(upload("a.txt"))));
    assert_eq!(pipeline.action(), Action::OpenStream(&a));
    pipeline = pipeline.advance(Event::Stream(Ok(())));
    pipeline = pipeline.advance(Event::Stream(Ok(())));
    assert_eq!(pipeline.action(), Action::ResolveMetadata(&a));
    assert!(pipeline.failure().is_none());
}

#[test]
fn finished_run_stays_finished() {
    let mut pipeline = Pipeline::new(vec!["a.txt".to_string()]);
    pipeline = pipeline.advance(Event::Stream(Ok(())));
    pipeline = pipeline.advance(Event::Metadata(Ok(upload("a.txt"))));
    pipeline = pipeline.advance(Event::Store(Ok(())));
    pipeline = pipeline.advance(Event::Reported);
    assert_eq!(pipeline.action(), Action::Finish);
    pipeline = pipeline.advance(Event::Stream(Ok(())));
    assert_eq!(pipeline.action(), Action::Finish);
    assert!(pipeline.failure().is_none());
}

#[test]
fn stage_follows_the_events_of_one_file() {
    let stage = Stage::Pending.advance(Event::Stream(Ok(())));
    assert!(matches!(stage, Stage::StreamOpened));
    let stage = stage.advance(Event::Metadata(Ok(upload("k"))));
    assert!(matches!(&stage, Stage::MetadataResolved(planned) if *planned == upload("k")));
    let stage = stage.advance(Event::Store(Ok(())));
    assert!(matches!(&stage, Stage::Published(url) if url == "https://cdn.example.com/k"));
    let stage = stage.advance(Event::Store(Err("late".to_string())));
    assert!(matches!(&stage, Stage::Published(url) if url == "https://cdn.example.com/k"));
    let failed = Stage::StreamOpened.advance(Event::Metadata(Err(Error::MissingKey)));
    assert!(matches!(failed, Stage::Failed(Error::MissingKey)));
}
