//! The requests and responses of the voting service, and the decisions that
//! its handlers make on them before and after they reach storage.

use vstd::prelude::*;

use crate::elo_rating::{compete_result, compete_uscf, EloCompeteResult, EloError, EloScore, WIN};
use crate::entity::{FaceInfo, FileResource, RatingLog};
use crate::k_factor::uscf_k_spec;

verus! {

/// How many records a random sample returns when the request asks for none.
pub const DEFAULT_SAMPLE_SIZE: i64 = 2;

/// Asks for `name` repeated `duplicate_time` times.
#[derive(Clone, Debug)]
pub struct DuplicateReq {
    pub name: String,
    pub duplicate_time: isize,
}

/// The repeated name.
#[derive(Clone, Debug)]
pub struct DuplicateResp {
    pub res: String,
}

/// `s` repeated `n` times.
pub open spec fn repeat_seq(s: Seq<char>, n: nat) -> Seq<char>
    decreases n,
{
    if n == 0 {
        Seq::empty()
    } else {
        repeat_seq(s, (n - 1) as nat) + s
    }
}

/// Answers a duplicate request: the name, `duplicate_time` times over.
pub fn duplicate(req: &DuplicateReq) -> (resp: DuplicateResp)
    requires
        req.duplicate_time >= 0,
    ensures
        resp.res@ == repeat_seq(req.name@, req.duplicate_time as nat),
{
    let n = req.duplicate_time as usize;
    let mut res = String::new();
    let mut i: usize = 0;
    while i < n
        invariant
            i <= n,
            n == req.duplicate_time,
            res@ == repeat_seq(req.name@, i as nat),
        decreases n - i,
    {
        res = res.concat(req.name.as_str());
        i = i + 1;
    }
    DuplicateResp { res }
}

/// Asks for a random sample of faces.
#[derive(Clone, Debug)]
pub struct GetRandomFaceInfoRandomlyReq {
    pub face_info_cnt: i64,
}

impl GetRandomFaceInfoRandomlyReq {
    /// The size of the sample to draw: the count asked for, or
    /// `DEFAULT_SAMPLE_SIZE` where that is not positive.
    pub fn sample_size(&self) -> (n: i64)
        ensures
            n == (if self.face_info_cnt <= 0 {
                DEFAULT_SAMPLE_SIZE
            } else {
                self.face_info_cnt
            }),
            n > 0,
    {
        if self.face_info_cnt <= 0 {
            DEFAULT_SAMPLE_SIZE
        } else {
            self.face_info_cnt
        }
    }
}

/// A face together with the file of its picture.
#[derive(Clone, Debug)]
pub struct FaceAndFileResourceInfo {
    pub face_info: FaceInfo,
    pub file_resource: FileResource,
}

/// A random sample of faces, each with its picture.
#[derive(Clone, Debug)]
pub struct GetRandomFaceInfoRandomlyResp {
    pub face_and_file_infos: Vec<FaceAndFileResourceInfo>,
}

/// Asks for one face by its id.
#[derive(Clone, Debug)]
pub struct GetFaceInfoByIdReq {
    pub id: String,
}

/// One face, with its picture.
#[derive(Clone, Debug)]
pub struct GetFaceInfoByIdResp {
    pub face_and_file_info: FaceAndFileResourceInfo,
}

/// Asks to add a face.
#[derive(Clone, Debug)]
pub struct AddFaceInfoReq {
    pub face_info: FaceInfo,
}

/// Why a new face was refused.
#[derive(Clone, Copy, Debug, PartialEq, Eq, Structural)]
pub enum AddFaceInfoError {
    /// No id was given to the face.
    MissingId,
    /// The face names no picture.
    MissingFileId,
    /// The face names nobody.
    MissingStarName,
}

/// Accepts a new face only where it has an id, a picture and a name; the
/// first missing one, in that order, is reported.
pub fn check_add_face_info_param(face_info: &FaceInfo) -> (r: Result<(), AddFaceInfoError>)
    ensures
        r == (if face_info.id@.len() == 0 {
            Err(AddFaceInfoError::MissingId)
        } else if face_info.file_id@.len() == 0 {
            Err(AddFaceInfoError::MissingFileId)
        } else if face_info.star_name@.len() == 0 {
            Err(AddFaceInfoError::MissingStarName)
        } else {
            Ok(())
        }),
{
    if face_info.id.as_str().is_empty() {
        return Err(AddFaceInfoError::MissingId);
    }
    if face_info.file_id.as_str().is_empty() {
        return Err(AddFaceInfoError::MissingFileId);
    }
    if face_info.star_name.as_str().is_empty() {
        return Err(AddFaceInfoError::MissingStarName);
    }
    Ok(())
}

/// The new ratings of the preferred and the passed-over face after a vote:
/// a win for the first, with the USCF's K-factors. `e_win` is the preferred
/// face's expected score against the other.
pub fn vote_ratings(win: &FaceInfo, lose: &FaceInfo, e_win: EloCompeteResult) -> (res: Result<
    (EloScore, EloScore),
    EloError,
>)
    ensures
        res == compete_result(
            win.score as int,
            lose.score as int,
            WIN as int,
            e_win as int,
            uscf_k_spec(win.score as int),
            uscf_k_spec(lose.score as int),
        ),
{
    compete_uscf(win.score, lose.score, WIN, e_win)
}

/// The id given to a newly added face.
#[derive(Clone, Debug)]
pub struct AddFaceInfoResp {
    pub face_info_id: String,
}

/// A vote: the face preferred, the face passed over, and who voted.
#[derive(Clone, Debug)]
pub struct VoteFaceInfoReq {
    pub win_face_info_id: String,
    pub lose_face_info_id: String,
    pub voter: String,
}

/// Why a vote was refused before any lookup.
#[derive(Clone, Copy, Debug, PartialEq, Eq, Structural)]
pub enum VoteError {
    /// The winner's or the loser's id is empty.
    MissingFaceInfoId,
}

impl VoteFaceInfoReq {
    /// Accepts a vote only where both faces are named.
    pub fn check(&self) -> (r: Result<(), VoteError>)
        ensures
            r is Err <==> (self.win_face_info_id@.len() == 0 || self.lose_face_info_id@.len() == 0),
            r is Err ==> r == Err::<(), VoteError>(VoteError::MissingFaceInfoId),
    {
        if self.win_face_info_id.as_str().is_empty() || self.lose_face_info_id.as_str().is_empty() {
            Err(VoteError::MissingFaceInfoId)
        } else {
            Ok(())
        }
    }

    /// The log record of this vote, under the id `id`, made at `now`.
    pub fn rating_log(&self, id: String, now: i64) -> (log: RatingLog)
        ensures
            log.id@ == id@,
            log.win_face_id@ == self.win_face_info_id@,
            log.loss_face_id@ == self.lose_face_info_id@,
            log.creator@ == self.voter@,
            log.created_on == now,
            log.updater@.len() == 0,
            log.updated_on == 0,
            log.deleted_on == 0,
            log.is_deleted == 0,
    {
        RatingLog {
            id,
            win_face_id: self.win_face_info_id.clone(),
            loss_face_id: self.lose_face_info_id.clone(),
            creator: self.voter.clone(),
            updater: String::new(),
            created_on: now,
            updated_on: 0,
            deleted_on: 0,
            is_deleted: 0,
        }
    }
}

/// The id given to a newly stored file.
#[derive(Clone, Debug)]
pub struct CreateFileResourceByStreamResp {
    pub file_id: String,
}

/// Asks to record a file resource.
#[derive(Clone, Debug)]
pub struct CreateFileResourceReq {
    pub file_resource: FileResource,
}

/// The id given to a newly recorded file resource.
#[derive(Clone, Debug)]
pub struct CreateFileResourceResp {
    pub file_resource_id: String,
}

/// Asks for the file of a face.
#[derive(Clone, Debug)]
pub struct DownloadFileReq {
    pub face_info_id: String,
}

} // verus!
