use tempo::entity::{FullTrack, InternalRelease, InternalTrack};
use tempo::rank_releases::{if_both, rank_candidates, rate_and_match, select_best_release, Candidate, Diff};

fn track(title: &str, length: Option<u32>, disc: Option<u32>, number: Option<u32>) -> InternalTrack {
    InternalTrack {
        title: title.to_string(),
        artists: vec![],
        length,
        disc,
        number,
        path: String::new(),
    }
}

fn release(title: &str, tracks: u32) -> InternalRelease {
    InternalRelease {
        title: title.to_string(),
        artists: vec![],
        media: None,
        discs: None,
        tracks,
        country: None,
        label: None,
        release_type: None,
        year: None,
        month: None,
        day: None,
        original_year: None,
        original_month: None,
        original_day: None,
    }
}

#[test]
fn if_both_applies_only_to_two_values() {
    fn add(a: u32, b: u32) -> u32 {
        a + b
    }
    assert_eq!(if_both(Some(1), Some(2), add), Some(3));
    assert_eq!(if_both(Some(1), None, add), None);
    assert_eq!(if_both(None, Some(2), add), None);
}

#[test]
fn track_score_weights_each_difference() {
    let a = track("kitten", Some(200), Some(1), Some(3));
    let b = track("sitting", Some(210), Some(2), Some(1));
    // distance 3 * 5000, length 10 * 300, disc 1 * 100, number 2 * 200
    assert_eq!(a.diff(&b), 15000 + 3000 + 100 + 400);
}

#[test]
fn track_score_ignores_missing_values() {
    let a = track("same", None, Some(1), None);
    let b = track("same", Some(100), None, Some(4));
    assert_eq!(a.diff(&b), 0);
}

#[test]
fn track_score_is_zero_against_itself_and_symmetric() {
    let a = track("Intro", Some(61), Some(1), Some(1));
    let b = track("Outro", Some(75), Some(2), Some(9));
    assert_eq!(a.diff(&a), 0);
    assert_eq!(a.diff(&b), b.diff(&a));
}

#[test]
fn release_score_weights_each_difference() {
    let mut a = release("Album", 10);
    let mut b = release("Albums", 12);
    a.year = Some(2001);
    b.year = Some(1999);
    a.month = Some(5);
    b.month = Some(7);
    a.country = Some("US".to_string());
    b.country = Some("GB".to_string());
    a.media = Some("CD".to_string());
    b.media = None;
    // title 1 * 1000, tracks 2 * 1000, country 2 * 5, year 2 * 100, month 2 * 50
    assert_eq!(a.diff(&b), 1000 + 2000 + 10 + 200 + 100);
    assert_eq!(a.diff(&a), 0);
    assert_eq!(b.diff(&a), a.diff(&b));
}

#[test]
fn tracks_are_matched_to_the_closest_candidates() {
    let source = vec![track("One", None, None, Some(1)), track("Two", None, None, Some(2))];
    let candidates = vec![
        FullTrack { id: 20, track: track("Two", None, None, Some(2)) },
        FullTrack { id: 10, track: track("One", None, None, Some(1)) },
    ];
    let r = release("Numbers", 2);
    let rating = rate_and_match(&r, &source, &r, &candidates);
    assert_eq!(rating.score, 0);
    assert_eq!(rating.assignment.get(&0), Some(&10));
    assert_eq!(rating.assignment.get(&1), Some(&20));
    assert_eq!(rating.assignment.len(), 2);
}

#[test]
fn score_adds_the_release_difference() {
    let source = vec![track("One", None, None, None)];
    let candidates = vec![
        FullTrack { id: 1, track: track("Onf", None, None, None) },
        FullTrack { id: 2, track: track("Xyz", None, None, None) },
    ];
    let rating = rate_and_match(&release("A", 1), &source, &release("B", 3), &candidates);
    // best track: distance 1 * 5000; release: title 1 * 1000 and tracks 2 * 1000
    assert_eq!(rating.score, 5000 + 1000 + 2000);
    assert_eq!(rating.assignment.get(&0), Some(&1));
}

#[test]
fn nothing_to_match_scores_zero() {
    let rating = rate_and_match(&release("A", 1), &[], &release("Completely different", 9), &[]);
    assert_eq!(rating.score, 0);
    assert!(rating.assignment.is_empty());
    let source = vec![track("One", None, None, None)];
    let rating = rate_and_match(&release("A", 1), &source, &release("B", 9), &[]);
    assert_eq!(rating.score, 0);
    assert!(rating.assignment.is_empty());
}

#[test]
fn extra_source_tracks_stay_unassigned() {
    let source = vec![track("One", None, None, None), track("Two", None, None, None)];
    let candidates = vec![FullTrack { id: 7, track: track("One", None, None, None) }];
    let r = release("R", 2);
    let rating = rate_and_match(&r, &source, &r, &candidates);
    assert_eq!(rating.assignment.len(), 1);
    assert!(rating.assignment.values().all(|id| *id == 7));
}

#[test]
fn best_release_is_the_first_lowest() {
    assert_eq!(select_best_release(&[]), None);
    assert_eq!(select_best_release(&[(1, 50), (2, 10), (3, 10), (4, 30)]), Some(2));
    assert_eq!(select_best_release(&[(9, -5)]), Some(9));
}

#[test]
fn every_candidate_is_rated_and_the_closest_selected() {
    let source = vec![track("One", Some(100), Some(1), Some(1))];
    let r = release("Album", 1);
    let candidates = vec![
        Candidate { id: 1, release: release("Other", 4), tracks: vec![FullTrack { id: 11, track: track("Two", Some(300), Some(1), Some(2)) }] },
        Candidate { id: 2, release: release("Album", 1), tracks: vec![FullTrack { id: 21, track: track("One", Some(100), Some(1), Some(1)) }] },
        Candidate { id: 3, release: release("Album", 1), tracks: vec![FullTrack { id: 31, track: track("One", Some(100), Some(1), Some(1)) }] },
    ];
    let (ratings, best) = rank_candidates(&r, &source, &candidates);
    let ids: Vec<u128> = ratings.iter().map(|(id, _)| *id).collect();
    assert_eq!(ids, vec![1, 2, 3]);
    assert_eq!(ratings[1].1.score, 0);
    assert_eq!(ratings[1].1.assignment.get(&0), Some(&21));
    assert!(ratings[0].1.score > 0);
    assert_eq!(best, Some(2));
    assert_eq!(rank_candidates(&r, &source, &vec![]).1, None);
}
