use leaderboard::models::scores::routes::{insert_reply, score_from_lookup, variation_of};
use leaderboard::{RankedScore, Reply, ReplyBody, Score, Upsert, Weapons};

fn run(steam_id: i64, score: i32, progress: i32) -> Score {
    Score { id: None, variation: 3, steam_id, score, progress }
}

fn stored(id: i64, steam_id: i64, score: i32, progress: i32) -> Score {
    Score { id: Some(id), variation: 3, steam_id, score, progress }
}

fn ranked(rank: i64, steam_id: i64) -> RankedScore {
    RankedScore { rank, score: stored(100 + steam_id, steam_id, 10 * steam_id as i32, 0) }
}

#[test]
fn beats_compares_score_then_progress() {
    assert!(run(1, 10, 0).beats(&run(2, 9, 50)));
    assert!(run(1, 10, 5).beats(&run(2, 10, 4)));
    assert!(!run(1, 10, 5).beats(&run(2, 10, 5)));
    assert!(!run(1, 9, 99).beats(&run(2, 10, 0)));
}

#[test]
fn first_score_is_inserted() {
    assert_eq!(run(1, 0, 0).upsert_plan(None), Upsert::Insert);
}

#[test]
fn higher_score_updates() {
    assert_eq!(run(1, 20, 0).upsert_plan(Some(stored(4, 1, 19, 9))), Upsert::Update);
}

#[test]
fn same_score_more_progress_updates() {
    assert_eq!(run(1, 20, 3).upsert_plan(Some(stored(4, 1, 20, 2))), Upsert::Update);
}

#[test]
fn equal_or_worse_run_keeps_stored_score() {
    assert_eq!(run(1, 20, 2).upsert_plan(Some(stored(4, 1, 20, 2))), Upsert::Keep);
    assert_eq!(run(1, 19, 100).upsert_plan(Some(stored(4, 1, 20, 2))), Upsert::Keep);
}

#[test]
fn submitting_twice_keeps_the_second_time() {
    let value = run(1, 20, 3);
    assert_eq!(value.upsert_plan(Some(stored(4, 1, 20, 2))), Upsert::Update);
    let after = Score { score: value.score, progress: value.progress, ..stored(4, 1, 20, 2) };
    assert_eq!(value.upsert_plan(Some(after)), Upsert::Keep);
}

#[test]
fn neighbourhood_around_player() {
    let scores = vec![ranked(1, 10), ranked(2, 11), ranked(3, 12), ranked(4, 13), ranked(5, 14)];
    // The player 12 has rank 3; rank differences 3 - rank in -1..2 are ranks 2, 3, 4.
    let r = Score::neighbourhood(&scores, 12, -1..2);
    assert_eq!(r, vec![scores[1].score, scores[2].score, scores[3].score]);
}

#[test]
fn neighbourhood_keeps_list_order_and_ties() {
    let scores = vec![ranked(2, 10), ranked(1, 11), ranked(2, 12), ranked(3, 13)];
    let r = Score::neighbourhood(&scores, 12, 0..1);
    assert_eq!(r, vec![scores[0].score, scores[2].score]);
}

#[test]
fn neighbourhood_uses_first_score_of_player() {
    let scores = vec![ranked(1, 10), ranked(4, 12), ranked(2, 12), ranked(3, 11)];
    let r = Score::neighbourhood(&scores, 12, 0..1);
    assert_eq!(r, vec![scores[1].score]);
}

#[test]
fn neighbourhood_with_range_excluding_zero_leaves_player_out() {
    let scores = vec![ranked(1, 10), ranked(2, 11), ranked(3, 12)];
    let r = Score::neighbourhood(&scores, 12, 1..3);
    assert_eq!(r, vec![scores[0].score, scores[1].score]);
    assert!(Score::neighbourhood(&scores, 12, 5..2).is_empty());
}

#[test]
fn unknown_weapons_are_answered_400() {
    let w = Weapons { weapons: vec!["piercer".to_string(), "bfg".to_string()] };
    assert_eq!(
        variation_of(w).err(),
        Some(Reply { status: 400, body: ReplyBody::Error("invalid weapons".to_string()) })
    );
}

#[test]
fn known_weapons_give_the_variation() {
    let w = Weapons { weapons: vec!["drill".to_string()] };
    let v = variation_of(w).unwrap();
    assert!(v.drill && !v.piercer && v.id.is_none());
}

#[test]
fn lookup_outcomes() {
    assert_eq!(score_from_lookup(Ok(Some(3)), 76561198000000000, 120, 7), Ok(Score {
        id: None,
        variation: 3,
        steam_id: 76561198000000000,
        score: 120,
        progress: 7,
    }));
    assert_eq!(
        score_from_lookup(Ok(None), 1, 1, 1),
        Err(Reply { status: 404, body: ReplyBody::Error("unknown variation".to_string()) })
    );
    assert_eq!(
        score_from_lookup(Err("RowNotFound".to_string()), 1, 1, 1),
        Err(Reply { status: 500, body: ReplyBody::Error("RowNotFound".to_string()) })
    );
}

#[test]
fn negative_fields_are_answered_400() {
    let bad = Err(Reply {
        status: 400,
        body: ReplyBody::Error("steam_id, score and progress should be positive".to_string()),
    });
    assert_eq!(score_from_lookup(Ok(Some(3)), -1, 0, 0), bad);
    assert_eq!(score_from_lookup(Ok(Some(3)), 0, -1, 0), bad);
    assert_eq!(score_from_lookup(Ok(Some(3)), 0, 0, -1), bad);
    assert!(score_from_lookup(Ok(Some(3)), 0, 0, 0).is_ok());
}

#[test]
fn unknown_variation_wins_over_negative_fields() {
    assert_eq!(
        score_from_lookup(Ok(None), -1, -1, -1),
        Err(Reply { status: 404, body: ReplyBody::Error("unknown variation".to_string()) })
    );
}

#[test]
fn score_insert_replies() {
    assert_eq!(insert_reply(Ok(Some(9))), Reply { status: 200, body: ReplyBody::HighScore(9) });
    assert_eq!(
        insert_reply(Ok(None)),
        Reply { status: 200, body: ReplyBody::Status("not a high score".to_string()) }
    );
    assert_eq!(
        insert_reply(Err(())),
        Reply { status: 500, body: ReplyBody::Error("failed to insert score".to_string()) }
    );
}

#[test]
fn wider_range_keeps_every_neighbour() {
    let scores = vec![ranked(1, 10), ranked(2, 11), ranked(2, 12), ranked(3, 13), ranked(5, 14)];
    let narrow = Score::neighbourhood(&scores, 12, 0..1);
    let wide = Score::neighbourhood(&scores, 12, -1..2);
    assert_eq!(narrow, vec![scores[1].score, scores[2].score]);
    for s in &narrow {
        assert!(wide.contains(s));
    }
    assert_eq!(wide.len(), 4);
}
