use cockroach_reminder::heading::{heading_for, orientation_index, random_heading, Heading, SpawnEdge};
use rand::rngs::StdRng;
use rand::SeedableRng;
use std::collections::HashSet;

#[test]
fn headings_for_each_edge() {
    assert_eq!(heading_for(0, 0), Heading { edge: SpawnEdge::Top, angle_deg: 90 });
    assert_eq!(heading_for(0, -1), Heading { edge: SpawnEdge::Top, angle_deg: 45 });
    assert_eq!(heading_for(0, 1), Heading { edge: SpawnEdge::Top, angle_deg: 135 });
    assert_eq!(heading_for(1, 0), Heading { edge: SpawnEdge::Right, angle_deg: 180 });
    assert_eq!(heading_for(1, 1), Heading { edge: SpawnEdge::Right, angle_deg: 225 });
    assert_eq!(heading_for(2, -1), Heading { edge: SpawnEdge::Bottom, angle_deg: 225 });
    assert_eq!(heading_for(2, 1), Heading { edge: SpawnEdge::Bottom, angle_deg: 315 });
    assert_eq!(heading_for(3, 0), Heading { edge: SpawnEdge::Left, angle_deg: 0 });
    assert_eq!(heading_for(3, -1), Heading { edge: SpawnEdge::Left, angle_deg: 315 });
    assert_eq!(heading_for(3, 1), Heading { edge: SpawnEdge::Left, angle_deg: 45 });
    assert_eq!(heading_for(7, 1), Heading { edge: SpawnEdge::Left, angle_deg: 45 });
}

#[test]
fn orientation_of_eighth_turns() {
    for k in 0..8u32 {
        assert_eq!(orientation_index(45 * k), k as usize);
    }
    assert_eq!(orientation_index(360), 0);
    assert_eq!(orientation_index(405), 1);
}

#[test]
fn orientation_rounds_to_nearest_eighth() {
    assert_eq!(orientation_index(22), 0);
    assert_eq!(orientation_index(23), 1);
    assert_eq!(orientation_index(67), 1);
    assert_eq!(orientation_index(68), 2);
    assert_eq!(orientation_index(337), 7);
    assert_eq!(orientation_index(338), 0);
    assert_eq!(orientation_index(359), 0);
}

#[test]
fn random_headings_are_varied_eighth_turns() {
    let mut angles = HashSet::new();
    let mut edges = HashSet::new();
    for seed in 0..64 {
        let mut rng = StdRng::seed_from_u64(seed);
        let h = random_heading(&mut rng);
        assert_eq!(h.angle_deg % 45, 0);
        assert!(h.angle_deg < 360);
        assert_eq!(orientation_index(h.angle_deg) as u32 * 45, h.angle_deg);
        angles.insert(h.angle_deg);
        edges.insert(h.edge);
    }
    assert!(angles.len() >= 6, "expected varied directions, got {angles:?}");
    assert_eq!(edges.len(), 4);
}
