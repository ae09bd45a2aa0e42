use pointercrate::demon::{DatabasePlayer, Demon, FullDemon, MinimalDemon, MinimalRecord};
use pointercrate::error::{validate_requirement, DemonlistError};
use pointercrate::patch::retain_records;

fn player(id: i32, name: &str) -> DatabasePlayer {
    DatabasePlayer { id, name: name.to_string(), banned: false }
}

fn demon() -> Demon {
    Demon {
        base: MinimalDemon { id: 1, position: 3, name: "Tartarus".to_string() },
        requirement: 50,
        video: Some("https://www.youtube.com/watch?v=abc".to_string()),
        thumbnail: "https://i.ytimg.com/vi/abc/mqdefault.jpg".to_string(),
        publisher: player(10, "Riot"),
        verifier: player(11, "Dolphy"),
        level_id: Some(59075347),
    }
}

fn record(id: i32, progress: i16) -> MinimalRecord {
    MinimalRecord { id, progress, video: None, player: player(100 + id, "someone") }
}

#[test]
fn set_name_reports_whether_it_changed() {
    let mut d = demon();
    assert!(!d.base.set_name("Tartarus".to_string()));
    assert!(d.base.set_name("Tartarus II".to_string()));
    assert_eq!(d.base.name, "Tartarus II");
    assert!(!d.base.set_name("Tartarus II".to_string()));
}

#[test]
fn set_verifier_returns_the_replaced_player() {
    let mut d = demon();
    let replaced = d.set_verifier(player(12, "Zoink"));
    assert_eq!(replaced.map(|p| p.id), Some(11));
    assert_eq!(d.verifier.id, 12);
    assert!(d.set_verifier(player(12, "Zoink again")).is_none());
    assert_eq!(d.verifier.name, "Zoink");
}

#[test]
fn set_publisher_only_changes_for_other_player() {
    let mut d = demon();
    assert!(!d.set_publisher(player(10, "Riot")));
    assert!(d.set_publisher(player(13, "Viprin")));
    assert_eq!(d.publisher.id, 13);
}

#[test]
fn set_requirement_accepts_percentages() {
    let mut d = demon();
    assert_eq!(d.set_requirement(0), Ok(()));
    assert_eq!(d.requirement, 0);
    assert_eq!(d.set_requirement(100), Ok(()));
    assert_eq!(d.requirement, 100);
}

#[test]
fn set_requirement_refuses_other_values() {
    let mut d = demon();
    assert_eq!(d.set_requirement(101), Err(DemonlistError::InvalidRequirement));
    assert_eq!(d.set_requirement(-1), Err(DemonlistError::InvalidRequirement));
    assert_eq!(d.requirement, 50);
    assert_eq!(validate_requirement(42), Ok(()));
}

#[test]
fn video_thumbnail_and_level_id_setters() {
    let mut d = demon();
    d.remove_video();
    assert_eq!(d.video, None);
    assert_eq!(d.set_video::<String>(Err("unsupported host".to_string())), Err("unsupported host".to_string()));
    assert_eq!(d.video, None);
    assert_eq!(d.set_video::<String>(Ok("https://www.youtube.com/watch?v=xyz".to_string())), Ok(()));
    assert_eq!(d.video.as_deref(), Some("https://www.youtube.com/watch?v=xyz"));
    d.set_thumbnail("thumb".to_string());
    assert_eq!(d.thumbnail, "thumb");
    d.set_level_id(12);
    assert_eq!(d.level_id, Some(12));
}

#[test]
fn level_id_survives_the_signed_representation() {
    let mut d = demon();
    let big: u64 = u64::MAX - 5;
    d.set_level_id(big as i64);
    assert_eq!(d.level_id, Some(big));
}

#[test]
fn retain_records_keeps_those_reaching_the_requirement_in_order() {
    let records = vec![record(1, 40), record(2, 60), record(3, 59), record(4, 100), record(5, 60)];
    let kept: Vec<i32> = retain_records(records, 60).iter().map(|r| r.id).collect();
    assert_eq!(kept, vec![2, 4, 5]);
    assert!(retain_records(Vec::new(), 10).is_empty());
}

#[test]
fn patched_full_demon_drops_records_only_when_requirement_changed() {
    let full = FullDemon {
        demon: demon(),
        creators: vec![player(20, "creator")],
        records: vec![record(1, 50), record(2, 70), record(3, 90)],
    };
    let mut stricter = demon();
    stricter.set_requirement(70).unwrap();
    let kept = full.clone().with_patched_demon(stricter.clone(), Some(70));
    assert_eq!(kept.records.iter().map(|r| r.id).collect::<Vec<_>>(), vec![2, 3]);
    assert_eq!(kept.demon.requirement, 70);
    assert_eq!(kept.creators.len(), 1);
    let unchanged = full.with_patched_demon(stricter, None);
    assert_eq!(unchanged.records.len(), 3);
}

#[test]
fn second_lower_requirement_does_not_bring_records_back() {
    let full = FullDemon {
        demon: demon(),
        creators: Vec::new(),
        records: vec![record(1, 30), record(2, 55), record(3, 80), record(4, 100)],
    };
    let mut first = demon();
    first.set_requirement(60).unwrap();
    let mut second = demon();
    second.set_requirement(40).unwrap();
    let twice = full.clone().with_patched_demon(first, Some(60)).with_patched_demon(second, Some(40));
    assert_eq!(twice.records.iter().map(|r| r.id).collect::<Vec<_>>(), vec![3, 4]);
    assert_eq!(twice.demon.requirement, 40);
    let kept_by_larger: Vec<i32> = retain_records(full.records, 60).iter().map(|r| r.id).collect();
    assert_eq!(kept_by_larger, vec![3, 4]);
}
