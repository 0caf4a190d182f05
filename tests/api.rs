use facemash::api::{
    check_add_face_info_param, duplicate, vote_ratings, AddFaceInfoError, DuplicateReq,
    GetRandomFaceInfoRandomlyReq, VoteError, VoteFaceInfoReq,
};
use facemash::elo_rating::{compete_uscf, SCALE, WIN};
use facemash::entity::FaceInfo;

#[test]
fn duplicate_repeats_the_name() {
    let req = DuplicateReq { name: "ab".to_string(), duplicate_time: 3 };
    assert_eq!(duplicate(&req).res, "ababab");
    let req = DuplicateReq { name: "ab".to_string(), duplicate_time: 0 };
    assert_eq!(duplicate(&req).res, "");
    let req = DuplicateReq { name: String::new(), duplicate_time: 5 };
    assert_eq!(duplicate(&req).res, "");
}

#[test]
fn sample_size_defaults_to_two() {
    assert_eq!(GetRandomFaceInfoRandomlyReq { face_info_cnt: 0 }.sample_size(), 2);
    assert_eq!(GetRandomFaceInfoRandomlyReq { face_info_cnt: -7 }.sample_size(), 2);
    assert_eq!(GetRandomFaceInfoRandomlyReq { face_info_cnt: 9 }.sample_size(), 9);
}

#[test]
fn vote_needs_both_ids() {
    let vote = |w: &str, l: &str| VoteFaceInfoReq {
        win_face_info_id: w.to_string(),
        lose_face_info_id: l.to_string(),
        voter: "v".to_string(),
    };
    assert_eq!(vote("a", "b").check(), Ok(()));
    assert_eq!(vote("", "b").check(), Err(VoteError::MissingFaceInfoId));
    assert_eq!(vote("a", "").check(), Err(VoteError::MissingFaceInfoId));
}

#[test]
fn vote_log_record() {
    let req = VoteFaceInfoReq {
        win_face_info_id: "w".to_string(),
        lose_face_info_id: "l".to_string(),
        voter: "alice".to_string(),
    };
    let log = req.rating_log("id7".to_string(), 1_700_000_000);
    assert_eq!(log.id, "id7");
    assert_eq!(log.win_face_id, "w");
    assert_eq!(log.loss_face_id, "l");
    assert_eq!(log.creator, "alice");
    assert_eq!(log.created_on, 1_700_000_000);
    assert!(log.updater.is_empty());
    assert_eq!((log.updated_on, log.deleted_on, log.is_deleted), (0, 0, 0));
}

fn face(id: &str, file_id: &str, star_name: &str) -> FaceInfo {
    FaceInfo {
        id: id.to_string(),
        file_id: file_id.to_string(),
        star_name: star_name.to_string(),
        ..FaceInfo::default()
    }
}

#[test]
fn add_face_info_checks_in_order() {
    assert_eq!(check_add_face_info_param(&face("1", "f", "s")), Ok(()));
    assert_eq!(check_add_face_info_param(&face("", "", "")), Err(AddFaceInfoError::MissingId));
    assert_eq!(check_add_face_info_param(&face("1", "", "")), Err(AddFaceInfoError::MissingFileId));
    assert_eq!(
        check_add_face_info_param(&face("1", "f", "")),
        Err(AddFaceInfoError::MissingStarName)
    );
}

#[test]
fn vote_moves_winner_up_and_loser_down() {
    let win = FaceInfo { score: 1400, ..face("w", "f", "s") };
    let lose = FaceInfo { score: 1800, ..face("l", "f", "s") };
    // 1 / (1 + 10) in the library's unit
    let e_win = (SCALE as f64 / 11.0).round() as u64;
    assert_eq!(vote_ratings(&win, &lose, e_win), Ok((1429, 1771)));
    assert_eq!(vote_ratings(&win, &lose, e_win), compete_uscf(1400, 1800, WIN, e_win));
}
