use pointercrate::apply::{DemonQuery, StepInput};
use pointercrate::demon::{DatabasePlayer, Demon, FullDemon, MinimalDemon, MinimalRecord};
use std::collections::BTreeMap;
use pointercrate::error::DemonlistError;
use pointercrate::patch::{PatchDemon, PatchStep};
use pointercrate::position::PositionShift;
use pointercrate::run::PatchRun;

fn player(id: i32, name: &str) -> DatabasePlayer {
    DatabasePlayer { id, name: name.to_string(), banned: false }
}

fn demon() -> Demon {
    Demon {
        base: MinimalDemon { id: 1, position: 3, name: "Tartarus".to_string() },
        requirement: 50,
        video: Some("https://www.youtube.com/watch?v=abc".to_string()),
        thumbnail: "old thumbnail".to_string(),
        publisher: player(10, "Riot"),
        verifier: player(11, "Dolphy"),
        level_id: None,
    }
}

fn full_patch() -> PatchDemon {
    PatchDemon {
        name: Some("Tartarus II".to_string()),
        position: Some(1),
        video: Some(Some("https://youtu.be/xyz".to_string())),
        thumbnail: Some("new thumbnail".to_string()),
        requirement: Some(70),
        verifier: Some("Zoink".to_string()),
        publisher: Some("Viprin".to_string()),
        level_id: Some(123),
    }
}

/// Runs a patch the way the application does, with fixed lookups.
fn run_patch(d: &mut Demon, patch: PatchDemon, maximal: i16) -> Result<Vec<DemonQuery>, DemonlistError> {
    let mut queries = Vec::new();
    for step in patch.steps() {
        let input = match &step {
            PatchStep::Move(_) => StepInput::MaximalPosition(maximal),
            PatchStep::SetVideo(url) => StepInput::ValidatedVideo(url.clone()),
            PatchStep::SetVerifier(_) => StepInput::Player(player(12, "Zoink")),
            PatchStep::SetPublisher(_) => StepInput::Player(player(13, "Viprin")),
            _ => StepInput::Nothing,
        };
        queries.extend(d.apply_step(&step, input)?);
    }
    Ok(queries)
}

#[test]
fn default_patch_has_no_steps() {
    assert!(PatchDemon::default().steps().is_empty());
}

#[test]
fn steps_come_in_fixed_order() {
    let steps = full_patch().steps();
    assert_eq!(
        steps,
        vec![
            PatchStep::Move(1),
            PatchStep::Rename("Tartarus II".to_string()),
            PatchStep::SetVideo("https://youtu.be/xyz".to_string()),
            PatchStep::SetThumbnail("new thumbnail".to_string()),
            PatchStep::SetVerifier("Zoink".to_string()),
            PatchStep::SetPublisher("Viprin".to_string()),
            PatchStep::SetRequirement(70),
            PatchStep::SetLevelId(123),
        ]
    );
}

#[test]
fn null_video_becomes_a_removal_and_absent_fields_no_step() {
    let patch = PatchDemon { video: Some(None), requirement: Some(10), ..PatchDemon::default() };
    assert_eq!(patch.steps(), vec![PatchStep::RemoveVideo, PatchStep::SetRequirement(10)]);
}

#[test]
fn huge_level_id_is_stored_signed() {
    let patch = PatchDemon { level_id: Some(u64::MAX), ..PatchDemon::default() };
    assert_eq!(patch.steps(), vec![PatchStep::SetLevelId(-1)]);
    let mut d = demon();
    assert_eq!(run_patch(&mut d, PatchDemon { level_id: Some(u64::MAX), ..PatchDemon::default() }, 5), Ok(vec![DemonQuery::SetLevelId { demon: 1, level_id: -1 }]));
    assert_eq!(d.level_id, Some(u64::MAX));
}

#[test]
fn full_patch_sets_every_named_field() {
    let mut d = demon();
    let queries = run_patch(&mut d, full_patch(), 10).unwrap();
    assert_eq!(d.base.position, 1);
    assert_eq!(d.base.name, "Tartarus II");
    assert_eq!(d.video.as_deref(), Some("https://youtu.be/xyz"));
    assert_eq!(d.thumbnail, "new thumbnail");
    assert_eq!(d.verifier.id, 12);
    assert_eq!(d.publisher.id, 13);
    assert_eq!(d.requirement, 70);
    assert_eq!(d.level_id, Some(123));
    assert_eq!(
        queries,
        vec![
            DemonQuery::SetPosition { demon: 1, position: -1 },
            DemonQuery::ShiftPositions(PositionShift::TowardsHigher { from: 3, to: 1 }),
            DemonQuery::SetPosition { demon: 1, position: 1 },
            DemonQuery::RecomputeScores,
            DemonQuery::SetName { demon: 1, name: "Tartarus II".to_string() },
            DemonQuery::SetVideo { demon: 1, video: Some("https://youtu.be/xyz".to_string()) },
            DemonQuery::SetThumbnail { demon: 1, thumbnail: "new thumbnail".to_string() },
            DemonQuery::SetVerifier { demon: 1, player: 12 },
            DemonQuery::UpdatePlayerScore { player: 11 },
            DemonQuery::UpdatePlayerScore { player: 12 },
            DemonQuery::SetPublisher { demon: 1, player: 13 },
            DemonQuery::DeleteRecordsBelow { demon: 1, requirement: 70 },
            DemonQuery::SetRequirement { demon: 1, requirement: 70 },
            DemonQuery::SetLevelId { demon: 1, level_id: 123 },
        ]
    );
}

#[test]
fn empty_patch_changes_nothing() {
    let mut d = demon();
    assert_eq!(run_patch(&mut d, PatchDemon::default(), 10), Ok(vec![]));
    assert_eq!(d.base.name, "Tartarus");
    assert_eq!(d.base.position, 3);
    assert_eq!(d.requirement, 50);
}

#[test]
fn patch_with_bad_position_fails_with_position_error() {
    let mut d = demon();
    let patch = PatchDemon { position: Some(11), requirement: Some(200), ..PatchDemon::default() };
    assert_eq!(run_patch(&mut d, patch, 10), Err(DemonlistError::InvalidPosition { maximal: 10 }));
    assert_eq!(d.base.position, 3);
}

#[test]
fn patch_with_bad_requirement_fails_with_requirement_error() {
    let mut d = demon();
    let patch = PatchDemon { position: Some(2), requirement: Some(200), ..PatchDemon::default() };
    assert_eq!(run_patch(&mut d, patch, 10), Err(DemonlistError::InvalidRequirement));
}

#[test]
fn unchanged_values_issue_no_queries() {
    let mut d = demon();
    let patch = PatchDemon {
        position: Some(3),
        name: Some("Tartarus".to_string()),
        ..PatchDemon::default()
    };
    assert_eq!(run_patch(&mut d, patch, 10), Ok(vec![]));
    let mut d = demon();
    let step = PatchStep::SetVerifier("Dolphy".to_string());
    assert_eq!(d.apply_step(&step, StepInput::Player(player(11, "Dolphy"))), Ok(vec![]));
    let step = PatchStep::SetPublisher("Riot".to_string());
    assert_eq!(d.apply_step(&step, StepInput::Player(player(10, "Riot"))), Ok(vec![]));
}

#[test]
fn remove_video_step() {
    let mut d = demon();
    assert_eq!(
        d.apply_step(&PatchStep::RemoveVideo, StepInput::Nothing),
        Ok(vec![DemonQuery::SetVideo { demon: 1, video: None }])
    );
    assert_eq!(d.video, None);
}

#[test]
fn moving_down_issues_a_shift_towards_lower() {
    let mut d = demon();
    assert_eq!(
        d.apply_step(&PatchStep::Move(6), StepInput::MaximalPosition(8)),
        Ok(vec![
            DemonQuery::SetPosition { demon: 1, position: -1 },
            DemonQuery::ShiftPositions(PositionShift::TowardsLower { from: 3, to: 6 }),
            DemonQuery::SetPosition { demon: 1, position: 6 },
            DemonQuery::RecomputeScores,
        ])
    );
}

/// Runs a patch through `PatchRun`, looking inputs up as `run_patch` does.
fn run_through(d: Demon, patch: PatchDemon, maximal: i16) -> Result<(Demon, Vec<DemonQuery>), DemonlistError> {
    let mut run = PatchRun::new(d, patch);
    let mut queries = Vec::new();
    while let Some(step) = run.next_step() {
        let input = match step {
            PatchStep::Move(_) => StepInput::MaximalPosition(maximal),
            PatchStep::SetVideo(url) => StepInput::ValidatedVideo(url.clone()),
            PatchStep::SetVerifier(_) => StepInput::Player(player(12, "Zoink")),
            PatchStep::SetPublisher(_) => StepInput::Player(player(13, "Viprin")),
            _ => StepInput::Nothing,
        };
        queries.extend(run.advance(input)?);
    }
    Ok((run.into_demon(), queries))
}

#[test]
fn patch_run_matches_step_by_step_application() {
    let mut d = demon();
    let expected = run_patch(&mut d, full_patch(), 10).unwrap();
    let (patched, queries) = run_through(demon(), full_patch(), 10).unwrap();
    assert_eq!(queries, expected);
    assert_eq!(patched.base.name, "Tartarus II");
    assert_eq!(patched.base.position, 1);
    assert_eq!(patched.verifier.id, 12);
    assert_eq!(patched.level_id, Some(123));
}

#[test]
fn patch_run_stops_at_the_first_error() {
    let patch = PatchDemon { name: Some("New".to_string()), requirement: Some(-5), ..PatchDemon::default() };
    assert_eq!(run_through(demon(), patch, 10).map(|_| ()), Err(DemonlistError::InvalidRequirement));
}

#[test]
fn patch_run_failed_step_leaves_the_run_as_it_was() {
    let patch = PatchDemon { position: Some(0), ..PatchDemon::default() };
    let mut run = PatchRun::new(demon(), patch);
    assert_eq!(run.next_step(), Some(&PatchStep::Move(0)));
    assert_eq!(run.advance(StepInput::MaximalPosition(10)), Err(DemonlistError::InvalidPosition { maximal: 10 }));
    assert_eq!(run.demon().base.position, 3);
    assert_eq!(run.next_step(), Some(&PatchStep::Move(0)));
}

#[test]
fn same_player_keeps_the_stored_player() {
    let mut d = demon();
    let step = PatchStep::SetVerifier("Dolphy".to_string());
    d.apply_step(&step, StepInput::Player(player(11, "renamed Dolphy"))).unwrap();
    assert_eq!(d.verifier.name, "Dolphy");
    let step = PatchStep::SetPublisher("Someone".to_string());
    d.apply_step(&step, StepInput::Player(player(14, "Someone"))).unwrap();
    assert_eq!(d.publisher.name, "Someone");
}

#[test]
fn move_queries_rearrange_the_stored_positions() {
    // demon id 1 stands at position 3 of a list of six demons with ids 1..=6
    let mut stored: BTreeMap<i32, i16> = BTreeMap::new();
    for (id, position) in [(5, 1), (6, 2), (1, 3), (2, 4), (3, 5), (4, 6)] {
        stored.insert(id, position);
    }
    let mut d = demon();
    let queries = d.apply_step(&PatchStep::Move(5), StepInput::MaximalPosition(6)).unwrap();
    for query in queries {
        match query {
            DemonQuery::SetPosition { demon, position } => {
                if let Some(p) = stored.get_mut(&demon) {
                    *p = position;
                }
            },
            DemonQuery::ShiftPositions(shift) => {
                for p in stored.values_mut() {
                    *p = shift.shift(*p);
                }
            },
            _ => {},
        }
    }
    let expected: BTreeMap<i32, i16> = [(5, 1), (6, 2), (1, 5), (2, 3), (3, 4), (4, 6)].into_iter().collect();
    assert_eq!(stored, expected);
}

#[test]
fn patch_without_requirement_keeps_all_records() {
    let full = FullDemon {
        demon: demon(),
        creators: Vec::new(),
        records: vec![MinimalRecord { id: 1, progress: 10, video: None, player: player(1, "a") }],
    };
    assert_eq!(full.clone().with_patched_demon(demon(), None).records.len(), 1);
    assert_eq!(full.with_patched_demon(demon(), Some(50)).records.len(), 0);
}
