use tempo::entity::{ArtistTrackRelation, ArtistTrackRelationType};
use tempo::track_relations::sorted_relations;

fn rel(artist: u128, kind: ArtistTrackRelationType, value: &str) -> ArtistTrackRelation {
    ArtistTrackRelation { artist_id: artist, track_id: 1, relation_type: kind, relation_value: value.to_string() }
}

fn summary(v: &[ArtistTrackRelation]) -> Vec<(u128, String)> {
    v.iter().map(|r| (r.artist_id, r.relation_value.clone())).collect()
}

#[test]
fn relations_are_sorted_by_artist_then_kind() {
    let out = sorted_relations(vec![
        rel(0xb0, ArtistTrackRelationType::Vocal, "lead"),
        rel(0xa0, ArtistTrackRelationType::Producer, ""),
        rel(0xa0, ArtistTrackRelationType::Instrument, "piano"),
    ]);
    assert_eq!(summary(&out), vec![(0xa0, "piano".to_string()), (0xa0, "".to_string()), (0xb0, "lead".to_string())]);
}

#[test]
fn repeated_relations_are_stored_once() {
    let out = sorted_relations(vec![
        rel(2, ArtistTrackRelationType::Vocal, "lead"),
        rel(1, ArtistTrackRelationType::Vocal, "lead"),
        rel(2, ArtistTrackRelationType::Vocal, "lead"),
        rel(1, ArtistTrackRelationType::Vocal, "lead"),
    ]);
    assert_eq!(summary(&out), vec![(1, "lead".to_string()), (2, "lead".to_string())]);
    assert!(sorted_relations(vec![]).is_empty());
}
