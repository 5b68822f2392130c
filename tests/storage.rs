use frameblaze::storage::{
    locate_parsed, resolve, trim_leading_slashes, Backend, FinishStep, Location, ReadStep, Session,
    StorageError, UrlParts, WriteStep,
};

fn parts(scheme: &str, host: Option<&str>, path: &str) -> Option<UrlParts> {
    Some(UrlParts { scheme: scheme.to_string(), host: host.map(|h| h.to_string()), path: path.to_string() })
}

fn remote(backend: Backend, container: &str, key: &str) -> Location {
    Location::Remote { backend, container: container.to_string(), key: key.to_string() }
}

fn local(path: &str) -> Location {
    Location::Local { path: path.to_string() }
}

#[test]
fn s3_uri_is_remote() {
    assert_eq!(resolve("s3://bucket/key.csv"), Ok(remote(Backend::S3, "bucket", "key.csv")));
    assert_eq!(
        locate_parsed("s3://bucket/key.csv", parts("s3", Some("bucket"), "/key.csv")),
        Ok(remote(Backend::S3, "bucket", "key.csv"))
    );
}

#[test]
fn gs_and_azure_uris_are_remote() {
    assert_eq!(resolve("gs://b/dir/x.parquet"), Ok(remote(Backend::Gcs, "b", "dir/x.parquet")));
    assert_eq!(resolve("azure://c/y.json"), Ok(remote(Backend::Azure, "c", "y.json")));
    assert_eq!(
        locate_parsed("azure://c//y", parts("azure", Some("c"), "//y")),
        Ok(remote(Backend::Azure, "c", "y"))
    );
}

#[test]
fn absolute_path_is_local() {
    assert_eq!(resolve("/tmp/a.csv"), Ok(local("/tmp/a.csv")));
    assert_eq!(locate_parsed("/tmp/a.csv", None), Ok(local("/tmp/a.csv")));
}

#[test]
fn plain_name_is_local() {
    assert_eq!(resolve("plainname"), Ok(local("plainname")));
}

#[test]
fn file_uri_is_local_path() {
    assert_eq!(resolve("file:///tmp/a.csv"), Ok(local("/tmp/a.csv")));
    assert_eq!(locate_parsed("file:///d/e", parts("file", None, "/d/e")), Ok(local("/d/e")));
}

#[test]
fn other_schemes_are_refused() {
    assert_eq!(resolve("http://example.com/a.csv"), Err(StorageError::UnsupportedScheme));
    assert_eq!(locate_parsed("ftp://h/x", parts("ftp", Some("h"), "/x")), Err(StorageError::UnsupportedScheme));
}

#[test]
fn remote_without_container_is_refused() {
    assert_eq!(locate_parsed("s3:key", parts("s3", None, "key")), Err(StorageError::MissingContainer));
}

#[test]
fn leading_slashes_are_trimmed() {
    assert_eq!(trim_leading_slashes("///a/b/"), "a/b/");
    assert_eq!(trim_leading_slashes("a"), "a");
    assert_eq!(trim_leading_slashes(""), "");
}

#[test]
fn remote_reads_download_once() {
    let mut s = Session::new(&remote(Backend::S3, "b", "k"));
    let mut downloads = 0;
    for _ in 0..3 {
        match s.read_step() {
            ReadStep::Download => {
                downloads += 1;
                s.record_download(true);
            }
            ReadStep::OpenSpool => {}
            ReadStep::OpenLocal => panic!("a remote endpoint is never opened in place"),
        }
    }
    assert_eq!(downloads, 1);
}

#[test]
fn failed_download_is_retried_on_next_read() {
    let mut s = Session::new(&remote(Backend::Gcs, "b", "k"));
    assert_eq!(s.read_step(), ReadStep::Download);
    s.record_download(false);
    assert_eq!(s.read_step(), ReadStep::Download);
    s.record_download(true);
    assert_eq!(s.read_step(), ReadStep::OpenSpool);
}

#[test]
fn finish_without_write_does_nothing() {
    let mut s = Session::new(&remote(Backend::Azure, "b", "k"));
    assert_eq!(s.finish_step(), FinishStep::Nothing);
    s.record_download(true);
    assert_eq!(s.finish_step(), FinishStep::Nothing);
}

#[test]
fn finish_after_write_uploads_every_time() {
    let mut s = Session::new(&remote(Backend::S3, "b", "k"));
    assert_eq!(s.write_step(), WriteStep::CreateSpool);
    assert_eq!(s.finish_step(), FinishStep::Upload);
    assert_eq!(s.finish_step(), FinishStep::Upload);
    assert_eq!(s.write_step(), WriteStep::ReopenSpool);
}

#[test]
fn local_endpoint_works_in_place() {
    let mut s = Session::new(&local("/tmp/x.csv"));
    assert_eq!(s.read_step(), ReadStep::OpenLocal);
    s.record_download(true);
    assert_eq!(s.read_step(), ReadStep::OpenLocal);
    assert_eq!(s.write_step(), WriteStep::CreateLocal);
    assert_eq!(s.write_step(), WriteStep::CreateLocal);
    assert_eq!(s.finish_step(), FinishStep::Nothing);
}
