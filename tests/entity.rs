use facemash::entity::{FaceInfo, FileResource, RatingLog, UriType, DEFAULT_SCORE};
use facemash::file_service::{get_local_filepath, upload_target};
use facemash::md5::get_file_md5;

#[test]
fn collection_names() {
    assert_eq!(FileResource::db_name(), "facemash");
    assert_eq!(FileResource::coll_name(), "file_resource");
    assert_eq!(RatingLog::db_name(), "facemash");
    assert_eq!(RatingLog::coll_name(), "rating_log");
    assert_eq!(FaceInfo::db_name(), "facemash");
    assert_eq!(FaceInfo::coll_name(), "face_info");
}

#[test]
fn default_records_are_blank() {
    let f = FileResource::default();
    assert!(f.id.is_empty() && f.file_name.is_empty() && f.file_uri.is_empty());
    assert!(f.md5.is_empty() && f.thumb_uri.is_empty());
    assert_eq!(f.uri_type, UriType::Local);
    assert_eq!(f.thumb_type, UriType::Local);
    assert_eq!((f.created_on, f.updated_on, f.deleted_on, f.is_deleted), (0, 0, 0, 0));
    let face = FaceInfo::default();
    assert_eq!(face.score, DEFAULT_SCORE);
    assert_eq!(face.score, 1400);
    assert!(face.id.is_empty() && face.star_name.is_empty() && face.file_id.is_empty());
    assert_eq!((face.upvote_count, face.downvote_count), (0, 0));
    let r = RatingLog::default();
    assert!(r.id.is_empty() && r.win_face_id.is_empty() && r.loss_face_id.is_empty());
    assert!(r.creator.is_empty() && r.updater.is_empty());
    assert_eq!((r.created_on, r.updated_on, r.deleted_on, r.is_deleted), (0, 0, 0, 0));
}

#[test]
fn local_filepath_joins_id_and_name() {
    assert_eq!(get_local_filepath("42", "face.png"), "./tmp/42-face.png");
    assert_eq!(get_local_filepath("", ""), "./tmp/-");
}

#[test]
fn file_md5_is_the_hex_digest() {
    assert_eq!(get_file_md5(b"abc"), "900150983cd24fb0d6963f7d28e17f72");
    assert_eq!(get_file_md5(b""), "d41d8cd98f00b204e9800998ecf8427e");
}

#[test]
fn upload_names_lose_their_spaces() {
    assert_eq!(upload_target("1", "my face .png").0, "my_face_.png");
    assert_eq!(upload_target("1", "plain.png").0, "plain.png");
    let (name, path) = upload_target("7", "a b.jpg");
    assert_eq!(name, "a_b.jpg");
    assert_eq!(path, "./tmp/7-a_b.jpg");
}
