use opendal::error::ErrorKind;
use opendal::error::Operation;
use opendal::ops::ObjectPart;
use opendal::ops::OpAbortMultipart;
use opendal::ops::OpCompleteMultipart;
use opendal::ops::OpCreate;
use opendal::ops::OpCreateMultipart;
use opendal::ops::OpDelete;
use opendal::layers::backoff::Delay;
use opendal::ops::OpList;
use opendal::ops::OpPresign;
use opendal::ops::OpRead;
use opendal::ops::OpStat;
use opendal::ops::OpWrite;
use opendal::ops::OpWriteMultipart;

fn assert_is_a_directory(e: opendal::error::Error, op: Operation, path: &str) {
    assert_eq!(e.kind(), ErrorKind::InvalidInput);
    assert_eq!(e.operation(), Some(op));
    assert_eq!(e.subject(), path);
    assert_eq!(e.description(), "Is a directory");
    assert_eq!(e.status(), None);
}

#[test]
fn delete_accepts_files_and_refuses_directories() {
    assert_eq!(OpDelete::new("a/b").unwrap().path(), "a/b");
    assert_is_a_directory(OpDelete::new("a/b/").unwrap_err(), Operation::Delete, "a/b/");
    assert_is_a_directory(OpDelete::new("/").unwrap_err(), Operation::Delete, "/");
    assert_eq!(OpDelete::new("").unwrap().path(), "");
}

#[test]
fn stat_and_list_accept_directories() {
    assert_eq!(OpStat::new("dir/").unwrap().path(), "dir/");
    assert_eq!(OpStat::new("/").unwrap().path(), "/");
    assert_eq!(OpList::new("dir/").unwrap().path(), "dir/");
    assert_eq!(OpList::new("file").unwrap().path(), "file");
}

#[test]
fn create_multipart_keeps_the_path() {
    let op = OpCreateMultipart::new("path/to/file").unwrap();
    assert_eq!(op.path(), "path/to/file");
}

#[test]
fn create_multipart_refuses_a_directory() {
    let e = OpCreateMultipart::new("path/to/dir/").unwrap_err();
    assert_is_a_directory(e, Operation::CreateMultipart, "path/to/dir/");
}

#[test]
fn write_multipart_keeps_its_arguments() {
    let op = OpWriteMultipart::new("file", "upload-1", 7, 1024).unwrap();
    assert_eq!(op.path(), "file");
    assert_eq!(op.upload_id(), "upload-1");
    assert_eq!(op.part_number(), 7);
    assert_eq!(op.size(), 1024);
}

#[test]
fn write_multipart_refuses_a_directory() {
    let e = OpWriteMultipart::new("dir/", "upload-1", 7, 1024).unwrap_err();
    assert_is_a_directory(e, Operation::WriteMultipart, "dir/");
}

#[test]
fn complete_multipart_keeps_the_order_of_parts() {
    let parts = vec![
        ObjectPart::new(3, "c"),
        ObjectPart::new(1, "a"),
        ObjectPart::new(2, "b"),
    ];
    let op = OpCompleteMultipart::new("file", "upload-1", parts.clone()).unwrap();
    assert_eq!(op.path(), "file");
    assert_eq!(op.upload_id(), "upload-1");
    assert_eq!(op.parts(), parts.as_slice());
    assert_eq!(op.parts()[0].part_number(), 3);
    assert_eq!(op.parts()[0].etag(), "c");
    assert!(!op.parts_in_order());
}

#[test]
fn complete_multipart_tells_ascending_parts() {
    let ascending = vec![
        ObjectPart::new(1, "a"),
        ObjectPart::new(2, "b"),
        ObjectPart::new(5, "c"),
    ];
    let op = OpCompleteMultipart::new("file", "id", ascending).unwrap();
    assert!(op.parts_in_order());

    let repeated = vec![ObjectPart::new(1, "a"), ObjectPart::new(1, "b")];
    let op = OpCompleteMultipart::new("file", "id", repeated).unwrap();
    assert!(!op.parts_in_order());

    let op = OpCompleteMultipart::new("file", "id", Vec::new()).unwrap();
    assert!(op.parts_in_order());
    let op = OpCompleteMultipart::new("file", "id", vec![ObjectPart::new(9, "z")]).unwrap();
    assert!(op.parts_in_order());
}

#[test]
fn complete_multipart_refuses_a_directory() {
    let e = OpCompleteMultipart::new("dir/", "upload-1", Vec::new()).unwrap_err();
    assert_is_a_directory(e, Operation::CompleteMultipart, "dir/");
}

#[test]
fn abort_multipart_keeps_its_arguments() {
    let op = OpAbortMultipart::new("file", "upload-1").unwrap();
    assert_eq!(op.path(), "file");
    assert_eq!(op.upload_id(), "upload-1");
}

#[test]
fn abort_multipart_refuses_a_directory() {
    let e = OpAbortMultipart::new("/", "upload-1").unwrap_err();
    assert_is_a_directory(e, Operation::AbortMultipart, "/");
}

#[test]
fn single_object_constructors_refuse_every_directory_path() {
    for path in ["/", "a/", "a/b/", "ü/", "//"] {
        assert_is_a_directory(OpCreate::new(path).unwrap_err(), Operation::Create, path);
        assert_is_a_directory(
            OpRead::new(path, None, None).unwrap_err(),
            Operation::Read,
            path,
        );
        assert_is_a_directory(OpWrite::new(path, 1).unwrap_err(), Operation::Write, path);
        assert_is_a_directory(OpDelete::new(path).unwrap_err(), Operation::Delete, path);
        assert_is_a_directory(
            OpCreateMultipart::new(path).unwrap_err(),
            Operation::CreateMultipart,
            path,
        );
        assert_is_a_directory(
            OpWriteMultipart::new(path, "id", 1, 1).unwrap_err(),
            Operation::WriteMultipart,
            path,
        );
        assert_is_a_directory(
            OpCompleteMultipart::new(path, "id", Vec::new()).unwrap_err(),
            Operation::CompleteMultipart,
            path,
        );
        assert_is_a_directory(
            OpAbortMultipart::new(path, "id").unwrap_err(),
            Operation::AbortMultipart,
            path,
        );
        assert_is_a_directory(
            OpPresign::new(path, Operation::Read, Delay::from_secs(60)).unwrap_err(),
            Operation::Presign,
            path,
        );
    }
}

#[test]
fn presign_keeps_its_arguments() {
    let op = OpPresign::new("file", Operation::Write, Delay::from_secs(3600)).unwrap();
    assert_eq!(op.path(), "file");
    assert_eq!(op.operation(), Operation::Write);
    assert_eq!(op.expire(), Delay::from_secs(3600));
}

#[test]
fn single_object_constructors_accept_file_paths() {
    for path in ["", "a", "a/b", "/a", "a/b.txt", "dir/é"] {
        assert_eq!(OpCreate::new(path).unwrap().path(), path);
        assert_eq!(OpWrite::new(path, 3).unwrap().path(), path);
        assert_eq!(OpDelete::new(path).unwrap().path(), path);
        assert_eq!(OpCreateMultipart::new(path).unwrap().path(), path);
    }
}

#[test]
fn read_keeps_its_range() {
    let op = OpRead::new("file", Some(4), Some(16)).unwrap();
    assert_eq!(op.path(), "file");
    assert_eq!(op.offset(), Some(4));
    assert_eq!(op.size(), Some(16));
    let op = OpRead::new("file", None, None).unwrap();
    assert_eq!(op.offset(), None);
    assert_eq!(op.size(), None);
}

#[test]
fn write_keeps_its_size() {
    let op = OpWrite::new("file", 42).unwrap();
    assert_eq!(op.path(), "file");
    assert_eq!(op.size(), 42);
}
