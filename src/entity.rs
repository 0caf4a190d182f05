//! The records that the voting service stores beside the ratings: uploaded
//! files and the log of votes.

use vstd::prelude::*;

use crate::elo_rating::EloScore;

verus! {

/// The database that holds every collection of the service.
pub const DB_NAME: &'static str = "facemash";

/// The rating that every new face starts with.
pub const DEFAULT_SCORE: EloScore = 1400;

/// A face that can be voted on: who it shows, its picture, its votes and its
/// rating.
#[derive(Clone, Debug)]
pub struct FaceInfo {
    pub id: String,
    pub star_name: String,
    pub file_id: String,
    pub upvote_count: u64,
    pub downvote_count: u64,
    pub score: EloScore,
    pub creator: String,
    pub updater: String,
    pub created_on: i64,
    pub updated_on: i64,
    pub deleted_on: i64,
    pub is_deleted: i64,
}

impl FaceInfo {
    /// A face with every text empty, no votes, every time zero, and the
    /// starting rating.
    pub open spec fn is_blank(&self) -> bool {
        &&& self.id@.len() == 0
        &&& self.star_name@.len() == 0
        &&& self.file_id@.len() == 0
        &&& self.upvote_count == 0
        &&& self.downvote_count == 0
        &&& self.score == DEFAULT_SCORE
        &&& self.creator@.len() == 0
        &&& self.updater@.len() == 0
        &&& self.created_on == 0
        &&& self.updated_on == 0
        &&& self.deleted_on == 0
        &&& self.is_deleted == 0
    }

    /// The database of this record.
    pub fn db_name() -> (r: &'static str)
        ensures
            r@ == "facemash"@,
    {
        DB_NAME
    }

    /// The collection of this record.
    pub fn coll_name() -> (r: &'static str)
        ensures
            r@ == "face_info"@,
    {
        "face_info"
    }
}

impl Default for FaceInfo {
    fn default() -> (r: Self)
        ensures
            r.is_blank(),
    {
        FaceInfo {
            id: String::new(),
            star_name: String::new(),
            file_id: String::new(),
            upvote_count: 0,
            downvote_count: 0,
            score: DEFAULT_SCORE,
            creator: String::new(),
            updater: String::new(),
            created_on: 0,
            updated_on: 0,
            deleted_on: 0,
            is_deleted: 0,
        }
    }
}

/// Where a file lives.
#[derive(Clone, Copy, Debug, PartialEq, Eq, Structural)]
pub enum UriType {
    Local,
    Url,
}

/// An uploaded file: its name, where it lives, its digest and a thumbnail.
#[derive(Clone, Debug)]
pub struct FileResource {
    pub id: String,
    pub file_name: String,
    pub file_uri: String,
    pub uri_type: UriType,
    pub md5: String,
    pub thumb_uri: String,
    pub thumb_type: UriType,
    pub creator: String,
    pub updater: String,
    pub created_on: i64,
    pub updated_on: i64,
    pub deleted_on: i64,
    pub is_deleted: i64,
}

impl FileResource {
    /// A record with every text empty, every time zero, and both places
    /// local.
    pub open spec fn is_blank(&self) -> bool {
        &&& self.id@.len() == 0
        &&& self.file_name@.len() == 0
        &&& self.file_uri@.len() == 0
        &&& self.uri_type == UriType::Local
        &&& self.md5@.len() == 0
        &&& self.thumb_uri@.len() == 0
        &&& self.thumb_type == UriType::Local
        &&& self.creator@.len() == 0
        &&& self.updater@.len() == 0
        &&& self.created_on == 0
        &&& self.updated_on == 0
        &&& self.deleted_on == 0
        &&& self.is_deleted == 0
    }

    /// The database of this record.
    pub fn db_name() -> (r: &'static str)
        ensures
            r@ == "facemash"@,
    {
        DB_NAME
    }

    /// The collection of this record.
    pub fn coll_name() -> (r: &'static str)
        ensures
            r@ == "file_resource"@,
    {
        "file_resource"
    }
}

impl Default for FileResource {
    fn default() -> (r: Self)
        ensures
            r.is_blank(),
    {
        FileResource {
            id: String::new(),
            file_name: String::new(),
            file_uri: String::new(),
            uri_type: UriType::Local,
            md5: String::new(),
            thumb_uri: String::new(),
            thumb_type: UriType::Local,
            creator: String::new(),
            updater: String::new(),
            created_on: 0,
            updated_on: 0,
            deleted_on: 0,
            is_deleted: 0,
        }
    }
}

/// One vote: who won, who lost, and who voted.
#[derive(Clone, Debug)]
pub struct RatingLog {
    pub id: String,
    pub win_face_id: String,
    pub loss_face_id: String,
    pub creator: String,
    pub updater: String,
    pub created_on: i64,
    pub updated_on: i64,
    pub deleted_on: i64,
    pub is_deleted: i64,
}

impl RatingLog {
    /// A record with every text empty and every time zero.
    pub open spec fn is_blank(&self) -> bool {
        &&& self.id@.len() == 0
        &&& self.win_face_id@.len() == 0
        &&& self.loss_face_id@.len() == 0
        &&& self.creator@.len() == 0
        &&& self.updater@.len() == 0
        &&& self.created_on == 0
        &&& self.updated_on == 0
        &&& self.deleted_on == 0
        &&& self.is_deleted == 0
    }

    /// The database of this record.
    pub fn db_name() -> (r: &'static str)
        ensures
            r@ == "facemash"@,
    {
        DB_NAME
    }

    /// The collection of this record.
    pub fn coll_name() -> (r: &'static str)
        ensures
            r@ == "rating_log"@,
    {
        "rating_log"
    }
}

impl Default for RatingLog {
    fn default() -> (r: Self)
        ensures
            r.is_blank(),
    {
        RatingLog {
            id: String::new(),
            win_face_id: String::new(),
            loss_face_id: String::new(),
            creator: String::new(),
            updater: String::new(),
            created_on: 0,
            updated_on: 0,
            deleted_on: 0,
            is_deleted: 0,
        }
    }
}

} // verus!
