use vstd::prelude::*;

use crate::demon::{DatabasePlayer, Demon, MinimalDemon};
use crate::error::DemonlistError;
use crate::patch::{
    level_id_step, move_step, optional_step, publisher_step, rename_step, requirement_step,
    thumbnail_step, verifier_step, video_step, PatchDemon, PatchStep,
};
use crate::position::{move_shift, position_after_move, PositionShift};

verus! {

/// A change to the stored demonlist that applying a patch step asks for.
#[derive(Debug, Clone, PartialEq, Eq)]
pub enum DemonQuery {
    /// Store `position` as the demon's list position.
    SetPosition { demon: i32, position: i16 },
    /// Shift the other demons' positions as the given shift says.
    ShiftPositions(PositionShift),
    /// Recompute the scores of all players.
    RecomputeScores,
    /// Store the demon's new name.
    SetName { demon: i32, name: String },
    /// Store the demon's video (`None` removes it).
    SetVideo { demon: i32, video: Option<String> },
    /// Store the demon's thumbnail.
    SetThumbnail { demon: i32, thumbnail: String },
    /// Store the given player as the demon's verifier.
    SetVerifier { demon: i32, player: i32 },
    /// Store the given player as the demon's publisher.
    SetPublisher { demon: i32, player: i32 },
    /// Recompute the score of the given player.
    UpdatePlayerScore { player: i32 },
    /// Delete the demon's records whose progress is below `requirement`.
    DeleteRecordsBelow { demon: i32, requirement: i16 },
    /// Store the demon's record requirement.
    SetRequirement { demon: i32, requirement: i16 },
    /// Store the demon's level id.
    SetLevelId { demon: i32, level_id: i64 },
}

/// What has to be looked up before a patch step can be applied.
#[derive(Debug, Clone)]
pub enum StepInput {
    /// The step needs nothing.
    Nothing,
    /// The highest position currently on the list (for a move).
    MaximalPosition(i16),
    /// The validated form of the step's video URL.
    ValidatedVideo(String),
    /// The player of the step's name, found or newly created.
    Player(DatabasePlayer),
}

/// `input` is of the kind that `step` needs.
pub open spec fn input_fits(step: PatchStep, input: StepInput) -> bool {
    match step {
        PatchStep::Move(_) => input is MaximalPosition,
        PatchStep::SetVideo(_) => input is ValidatedVideo,
        PatchStep::SetVerifier(_) => input is Player,
        PatchStep::SetPublisher(_) => input is Player,
        _ => input is Nothing,
    }
}

/// The highest list position that a move input carries.
pub open spec fn input_maximal_position(input: StepInput) -> i16 {
    match input {
        StepInput::MaximalPosition(maximal) => maximal,
        _ => 0,
    }
}

/// The validated video that a video input carries.
pub open spec fn input_video(input: StepInput) -> String {
    match input {
        StepInput::ValidatedVideo(video) => video,
        _ => arbitrary(),
    }
}

/// The player that a player input carries.
pub open spec fn input_player(input: StepInput) -> DatabasePlayer {
    match input {
        StepInput::Player(player) => player,
        _ => arbitrary(),
    }
}

/// The demon after one patch step, and the queries that store the change;
/// or the error that rejects the step.
pub open spec fn step_outcome(d: Demon, step: PatchStep, input: StepInput) -> Result<
    (Demon, Seq<DemonQuery>),
    DemonlistError,
> {
    let id = d.base.id;
    match step {
        PatchStep::Move(to) => {
            let maximal = input_maximal_position(input);
            if to > maximal || to < 1 {
                Err(DemonlistError::InvalidPosition { maximal })
            } else if to == d.base.position {
                Ok((d, Seq::empty()))
            } else {
                Ok(
                    (
                        Demon { base: MinimalDemon { position: to, ..d.base }, ..d },
                        seq![
                            DemonQuery::SetPosition { demon: id, position: -1i16 },
                            DemonQuery::ShiftPositions(move_shift(d.base.position, to)),
                            DemonQuery::SetPosition { demon: id, position: to },
                            DemonQuery::RecomputeScores,
                        ],
                    ),
                )
            }
        },
        PatchStep::Rename(name) => {
            if d.base.name@ != name@ {
                Ok(
                    (
                        Demon { base: MinimalDemon { name, ..d.base }, ..d },
                        seq![DemonQuery::SetName { demon: id, name }],
                    ),
                )
            } else {
                Ok((d, Seq::empty()))
            }
        },
        PatchStep::RemoveVideo => Ok(
            (Demon { video: None, ..d }, seq![DemonQuery::SetVideo { demon: id, video: None }]),
        ),
        PatchStep::SetVideo(_) => {
            let video = input_video(input);
            Ok(
                (
                    Demon { video: Some(video), ..d },
                    seq![DemonQuery::SetVideo { demon: id, video: Some(video) }],
                ),
            )
        },
        PatchStep::SetThumbnail(thumbnail) => Ok(
            (
                Demon { thumbnail, ..d },
                seq![DemonQuery::SetThumbnail { demon: id, thumbnail }],
            ),
        ),
        PatchStep::SetVerifier(_) => {
            let player = input_player(input);
            if player.id != d.verifier.id {
                Ok(
                    (
                        Demon { verifier: player, ..d },
                        seq![
                            DemonQuery::SetVerifier { demon: id, player: player.id },
                            DemonQuery::UpdatePlayerScore { player: d.verifier.id },
                            DemonQuery::UpdatePlayerScore { player: player.id },
                        ],
                    ),
                )
            } else {
                Ok((d, Seq::empty()))
            }
        },
        PatchStep::SetPublisher(_) => {
            let player = input_player(input);
            if player.id != d.publisher.id {
                Ok(
                    (
                        Demon { publisher: player, ..d },
                        seq![DemonQuery::SetPublisher { demon: id, player: player.id }],
                    ),
                )
            } else {
                Ok((d, Seq::empty()))
            }
        },
        PatchStep::SetRequirement(requirement) => {
            if 0 <= requirement <= 100 {
                Ok(
                    (
                        Demon { requirement, ..d },
                        seq![
                            DemonQuery::DeleteRecordsBelow { demon: id, requirement },
                            DemonQuery::SetRequirement { demon: id, requirement },
                        ],
                    ),
                )
            } else {
                Err(DemonlistError::InvalidRequirement)
            }
        },
        PatchStep::SetLevelId(level_id) => Ok(
            (
                Demon { level_id: Some(level_id as u64), ..d },
                seq![DemonQuery::SetLevelId { demon: id, level_id }],
            ),
        ),
    }
}

/// What a query does to the stored list positions, a map from demon id to
/// position. Setting the position of an unknown demon changes nothing; the
/// shift moves every stored demon as `PositionShift::shifted` says; queries
/// about other fields leave the positions alone.
pub open spec fn positions_after_query(positions: Map<i32, int>, query: DemonQuery) -> Map<i32, int> {
    match query {
        DemonQuery::SetPosition { demon, position } => if positions.dom().contains(demon) {
            positions.insert(demon, position as int)
        } else {
            positions
        },
        DemonQuery::ShiftPositions(shift) => Map::new(
            |id: i32| positions.dom().contains(id),
            |id: i32| shift.shifted(positions[id]),
        ),
        _ => positions,
    }
}

/// The stored list positions after running `queries` in order.
pub open spec fn positions_after_queries(positions: Map<i32, int>, queries: Seq<DemonQuery>) -> Map<
    i32,
    int,
>
    decreases queries.len(),
{
    if queries.len() == 0 {
        positions
    } else {
        positions_after_query(positions_after_queries(positions, queries.drop_last()), queries.last())
    }
}

/// Running the queries of a successful move on the stored positions moves
/// every demon as `position_after_move` says: the moving demon to its
/// target, the demons in between by one, the rest not at all. (The other
/// demons stand at positions other than the moving demon's.)
pub proof fn lemma_move_queries(d: Demon, to: i16, input: StepInput, positions: Map<i32, int>)
    requires
        positions.dom().contains(d.base.id),
        positions[d.base.id] == d.base.position,
        forall|id: i32|
            #![trigger positions[id]]
            positions.dom().contains(id) && id != d.base.id ==> positions[id] != d.base.position,
    ensures
        step_outcome(d, PatchStep::Move(to), input) matches Ok((_, queries)) ==> positions_after_queries(
            positions,
            queries,
        ) == Map::new(
            |id: i32| positions.dom().contains(id),
            |id: i32| position_after_move(d.base.position, to, positions[id]),
        ),
{
    let from = d.base.position;
    let id = d.base.id;
    let target = Map::new(
        |i: i32| positions.dom().contains(i),
        |i: i32| position_after_move(from, to, positions[i]),
    );
    if let Ok((_, queries)) = step_outcome(d, PatchStep::Move(to), input) {
        if to == from {
            assert(queries.len() == 0);
            assert(positions =~= target);
        } else {
            let q1 = DemonQuery::SetPosition { demon: id, position: -1i16 };
            let q2 = DemonQuery::ShiftPositions(move_shift(from, to));
            let q3 = DemonQuery::SetPosition { demon: id, position: to };
            let q4 = DemonQuery::RecomputeScores;
            assert(queries =~= seq![q1, q2, q3, q4]);
            assert(seq![q1, q2, q3, q4].drop_last() =~= seq![q1, q2, q3]);
            assert(seq![q1, q2, q3].drop_last() =~= seq![q1, q2]);
            assert(seq![q1, q2].drop_last() =~= seq![q1]);
            assert(seq![q1].drop_last() =~= Seq::<DemonQuery>::empty());
            assert(positions_after_queries(positions, Seq::<DemonQuery>::empty()) == positions);
            let m1 = positions.insert(id, -1);
            assert(positions_after_queries(positions, seq![q1]) == m1);
            let m2 = Map::new(
                |i: i32| m1.dom().contains(i),
                |i: i32| move_shift(from, to).shifted(m1[i]),
            );
            assert(positions_after_queries(positions, seq![q1, q2]) == m2);
            let m3 = m2.insert(id, to as int);
            assert(positions_after_queries(positions, seq![q1, q2, q3]) == m3);
            assert(positions_after_queries(positions, queries) == m3);
            assert forall|i: i32| #[trigger] target.dom().contains(i) implies m3[i] == target[i] by {
                if i != id {
                    assert(positions[i] != from);
                }
            }
            assert(m3 =~= target);
        }
    }
}

/// The demon a query is about, if it is about one demon.
pub open spec fn query_demon(query: DemonQuery) -> Option<i32> {
    match query {
        DemonQuery::SetPosition { demon, .. } => Some(demon),
        DemonQuery::SetName { demon, .. } => Some(demon),
        DemonQuery::SetVideo { demon, .. } => Some(demon),
        DemonQuery::SetThumbnail { demon, .. } => Some(demon),
        DemonQuery::SetVerifier { demon, .. } => Some(demon),
        DemonQuery::SetPublisher { demon, .. } => Some(demon),
        DemonQuery::DeleteRecordsBelow { demon, .. } => Some(demon),
        DemonQuery::SetRequirement { demon, .. } => Some(demon),
        DemonQuery::SetLevelId { demon, .. } => Some(demon),
        _ => None,
    }
}

/// A step only ever touches the patched demon: every query it issues about
/// a demon names the patched demon's id, and the demon keeps its id.
pub proof fn lemma_step_touches_only_its_demon(d: Demon, step: PatchStep, input: StepInput)
    ensures
        step_outcome(d, step, input) matches Ok((e, queries)) ==> {
            &&& e.base.id == d.base.id
            &&& forall|i: int|
                0 <= i < queries.len() && (#[trigger] query_demon(queries[i])) is Some
                    ==> query_demon(queries[i]) == Some(d.base.id)
        },
{
}

/// Replacing the verifier by another player stores the new verifier and then
/// recomputes the scores of both the replaced and the new verifier, whatever
/// the rest of the demon; naming the current verifier again changes nothing.
pub proof fn lemma_verifier_step(d: Demon, name: String, player: DatabasePlayer)
    ensures
        player.id != d.verifier.id ==> step_outcome(
            d,
            PatchStep::SetVerifier(name),
            StepInput::Player(player),
        ) == Ok::<(Demon, Seq<DemonQuery>), DemonlistError>(
            (
                Demon { verifier: player, ..d },
                seq![
                    DemonQuery::SetVerifier { demon: d.base.id, player: player.id },
                    DemonQuery::UpdatePlayerScore { player: d.verifier.id },
                    DemonQuery::UpdatePlayerScore { player: player.id },
                ],
            ),
        ),
        player.id == d.verifier.id ==> step_outcome(
            d,
            PatchStep::SetVerifier(name),
            StepInput::Player(player),
        ) == Ok::<(Demon, Seq<DemonQuery>), DemonlistError>((d, Seq::empty())),
{
}

/// Replacing the publisher by another player stores the new publisher;
/// naming the current publisher again changes nothing.
pub proof fn lemma_publisher_step(d: Demon, name: String, player: DatabasePlayer)
    ensures
        player.id != d.publisher.id ==> step_outcome(
            d,
            PatchStep::SetPublisher(name),
            StepInput::Player(player),
        ) == Ok::<(Demon, Seq<DemonQuery>), DemonlistError>(
            (
                Demon { publisher: player, ..d },
                seq![DemonQuery::SetPublisher { demon: d.base.id, player: player.id }],
            ),
        ),
        player.id == d.publisher.id ==> step_outcome(
            d,
            PatchStep::SetPublisher(name),
            StepInput::Player(player),
        ) == Ok::<(Demon, Seq<DemonQuery>), DemonlistError>((d, Seq::empty())),
{
}

/// A rename to another name stores exactly that name for the patched demon;
/// renaming to the current name changes nothing.
pub proof fn lemma_rename_step(d: Demon, name: String)
    ensures
        name@ != d.base.name@ ==> step_outcome(d, PatchStep::Rename(name), StepInput::Nothing)
            == Ok::<(Demon, Seq<DemonQuery>), DemonlistError>(
            (
                Demon { base: MinimalDemon { name, ..d.base }, ..d },
                seq![DemonQuery::SetName { demon: d.base.id, name }],
            ),
        ),
        name@ == d.base.name@ ==> step_outcome(d, PatchStep::Rename(name), StepInput::Nothing)
            == Ok::<(Demon, Seq<DemonQuery>), DemonlistError>((d, Seq::empty())),
{
}

/// A requirement in `0..=100` is stored after the demon's records below it
/// are deleted, for every such requirement; any other requirement is refused
/// and nothing is asked of the database.
pub proof fn lemma_requirement_step(d: Demon, requirement: i16)
    ensures
        0 <= requirement <= 100 ==> step_outcome(
            d,
            PatchStep::SetRequirement(requirement),
            StepInput::Nothing,
        ) == Ok::<(Demon, Seq<DemonQuery>), DemonlistError>(
            (
                Demon { requirement, ..d },
                seq![
                    DemonQuery::DeleteRecordsBelow { demon: d.base.id, requirement },
                    DemonQuery::SetRequirement { demon: d.base.id, requirement },
                ],
            ),
        ),
        !(0 <= requirement <= 100) ==> step_outcome(
            d,
            PatchStep::SetRequirement(requirement),
            StepInput::Nothing,
        ) == Err::<(Demon, Seq<DemonQuery>), DemonlistError>(DemonlistError::InvalidRequirement),
{
}

/// A video step stores the validated video (or its removal) for the demon.
pub proof fn lemma_video_steps(d: Demon, url: String, video: String)
    ensures
        step_outcome(d, PatchStep::SetVideo(url), StepInput::ValidatedVideo(video)) == Ok::<
            (Demon, Seq<DemonQuery>),
            DemonlistError,
        >(
            (
                Demon { video: Some(video), ..d },
                seq![DemonQuery::SetVideo { demon: d.base.id, video: Some(video) }],
            ),
        ),
        step_outcome(d, PatchStep::RemoveVideo, StepInput::Nothing) == Ok::<
            (Demon, Seq<DemonQuery>),
            DemonlistError,
        >(
            (
                Demon { video: None, ..d },
                seq![DemonQuery::SetVideo { demon: d.base.id, video: None }],
            ),
        ),
{
}

/// Thumbnail and level id steps store the given value for the demon; the
/// level id goes to the database signed and comes back as given.
pub proof fn lemma_thumbnail_and_level_id_steps(d: Demon, thumbnail: String, level_id: u64)
    ensures
        step_outcome(d, PatchStep::SetThumbnail(thumbnail), StepInput::Nothing) == Ok::<
            (Demon, Seq<DemonQuery>),
            DemonlistError,
        >(
            (
                Demon { thumbnail, ..d },
                seq![DemonQuery::SetThumbnail { demon: d.base.id, thumbnail }],
            ),
        ),
        step_outcome(
            d,
            PatchStep::SetLevelId(level_id as i64),
            StepInput::Nothing,
        ) == Ok::<(Demon, Seq<DemonQuery>), DemonlistError>(
            (
                Demon { level_id: Some(level_id), ..d },
                seq![DemonQuery::SetLevelId { demon: d.base.id, level_id: level_id as i64 }],
            ),
        ),
{
    assert(((level_id as i64) as u64) == level_id) by (bit_vector);
}

/// A move outside `1..=maximal` is refused and asks nothing of the database;
/// a move to the current position changes nothing; any other move sets the
/// demon aside, shifts the demons between its old and new position by one
/// towards the old position, puts the demon at its target and recomputes all
/// scores.
pub proof fn lemma_move_step(d: Demon, to: i16, maximal: i16)
    ensures
        ({
            let r = step_outcome(d, PatchStep::Move(to), StepInput::MaximalPosition(maximal));
            let from = d.base.position;
            &&& (to < 1 || to > maximal) ==> r == Err::<(Demon, Seq<DemonQuery>), DemonlistError>(
                DemonlistError::InvalidPosition { maximal },
            )
            &&& (1 <= to <= maximal && to == from) ==> r == Ok::<
                (Demon, Seq<DemonQuery>),
                DemonlistError,
            >((d, Seq::empty()))
            &&& (1 <= to <= maximal && to != from) ==> r == Ok::<
                (Demon, Seq<DemonQuery>),
                DemonlistError,
            >(
                (
                    Demon { base: MinimalDemon { position: to, ..d.base }, ..d },
                    seq![
                        DemonQuery::SetPosition { demon: d.base.id, position: -1i16 },
                        DemonQuery::ShiftPositions(
                            if to > from {
                                PositionShift::TowardsLower { from, to }
                            } else {
                                PositionShift::TowardsHigher { from, to }
                            },
                        ),
                        DemonQuery::SetPosition { demon: d.base.id, position: to },
                        DemonQuery::RecomputeScores,
                    ],
                ),
            )
        }),
{
}

impl Demon {
    /// Applies one step of a patch to this demon, given what the step needed
    /// looked up. Returns the queries that store the change, in the order in
    /// which they have to run; on an error the demon is left as it was.
    pub fn apply_step(&mut self, step: &PatchStep, input: StepInput) -> (r: Result<
        Vec<DemonQuery>,
        DemonlistError,
    >)
        requires
            input_fits(*step, input),
        ensures
            match r {
                Ok(queries) => step_outcome(*old(self), *step, input) == Ok::<
                    (Demon, Seq<DemonQuery>),
                    DemonlistError,
                >((*final(self), queries@)),
                Err(e) => {
                    &&& step_outcome(*old(self), *step, input) == Err::<
                        (Demon, Seq<DemonQuery>),
                        DemonlistError,
                    >(e)
                    &&& *final(self) == *old(self)
                },
            },
    {
        let id = self.base.id;
        match step {
            PatchStep::Move(to) => {
                let to = *to;
                let maximal = match input {
                    StepInput::MaximalPosition(maximal) => maximal,
                    _ => unreached(),
                };
                let from = self.base.position;
                let shift = self.base.mv(to, maximal)?;
                match shift {
                    PositionShift::Unchanged => Ok(Vec::new()),
                    _ => {
                        let mut queries = Vec::new();
                        queries.push(DemonQuery::SetPosition { demon: id, position: -1 });
                        queries.push(DemonQuery::ShiftPositions(shift));
                        queries.push(DemonQuery::SetPosition { demon: id, position: to });
                        queries.push(DemonQuery::RecomputeScores);
                        assert(queries@ =~= seq![
                            DemonQuery::SetPosition { demon: id, position: -1i16 },
                            DemonQuery::ShiftPositions(move_shift(from, to)),
                            DemonQuery::SetPosition { demon: id, position: to },
                            DemonQuery::RecomputeScores,
                        ]);
                        Ok(queries)
                    },
                }
            },
            PatchStep::Rename(name) => {
                let name = name.clone();
                let stored = name.clone();
                if self.base.set_name(name) {
                    let mut queries = Vec::new();
                    queries.push(DemonQuery::SetName { demon: id, name: stored });
                    assert(queries@ =~= seq![DemonQuery::SetName { demon: id, name: stored }]);
                    Ok(queries)
                } else {
                    Ok(Vec::new())
                }
            },
            PatchStep::RemoveVideo => {
                self.remove_video();
                let mut queries = Vec::new();
                queries.push(DemonQuery::SetVideo { demon: id, video: None });
                assert(queries@ =~= seq![DemonQuery::SetVideo { demon: id, video: None }]);
                Ok(queries)
            },
            PatchStep::SetVideo(_) => {
                let video = match input {
                    StepInput::ValidatedVideo(video) => video,
                    _ => unreached(),
                };
                let stored = video.clone();
                let stored_ok = self.set_video::<DemonlistError>(Ok(video));
                assert(stored_ok is Ok);
                let mut queries = Vec::new();
                queries.push(DemonQuery::SetVideo { demon: id, video: Some(stored) });
                assert(queries@ =~= seq![DemonQuery::SetVideo { demon: id, video: Some(stored) }]);
                Ok(queries)
            },
            PatchStep::SetThumbnail(thumbnail) => {
                let thumbnail = thumbnail.clone();
                let stored = thumbnail.clone();
                self.set_thumbnail(thumbnail);
                let mut queries = Vec::new();
                queries.push(DemonQuery::SetThumbnail { demon: id, thumbnail: stored });
                assert(queries@ =~= seq![DemonQuery::SetThumbnail { demon: id, thumbnail: stored }]);
                Ok(queries)
            },
            PatchStep::SetVerifier(_) => {
                let player = match input {
                    StepInput::Player(player) => player,
                    _ => unreached(),
                };
                let player_id = player.id;
                match self.set_verifier(player) {
                    Some(previous) => {
                        let mut queries = Vec::new();
                        queries.push(DemonQuery::SetVerifier { demon: id, player: player_id });
                        queries.push(DemonQuery::UpdatePlayerScore { player: previous.id });
                        queries.push(DemonQuery::UpdatePlayerScore { player: player_id });
                        assert(queries@ =~= seq![
                            DemonQuery::SetVerifier { demon: id, player: player_id },
                            DemonQuery::UpdatePlayerScore { player: previous.id },
                            DemonQuery::UpdatePlayerScore { player: player_id },
                        ]);
                        Ok(queries)
                    },
                    None => Ok(Vec::new()),
                }
            },
            PatchStep::SetPublisher(_) => {
                let player = match input {
                    StepInput::Player(player) => player,
                    _ => unreached(),
                };
                let player_id = player.id;
                if self.set_publisher(player) {
                    let mut queries = Vec::new();
                    queries.push(DemonQuery::SetPublisher { demon: id, player: player_id });
                    assert(queries@ =~= seq![DemonQuery::SetPublisher { demon: id, player: player_id }]);
                    Ok(queries)
                } else {
                    Ok(Vec::new())
                }
            },
            PatchStep::SetRequirement(requirement) => {
                let requirement = *requirement;
                self.set_requirement(requirement)?;
                let mut queries = Vec::new();
                queries.push(DemonQuery::DeleteRecordsBelow { demon: id, requirement });
                queries.push(DemonQuery::SetRequirement { demon: id, requirement });
                assert(queries@ =~= seq![
                    DemonQuery::DeleteRecordsBelow { demon: id, requirement },
                    DemonQuery::SetRequirement { demon: id, requirement },
                ]);
                Ok(queries)
            },
            PatchStep::SetLevelId(level_id) => {
                let level_id = *level_id;
                self.set_level_id(level_id);
                let mut queries = Vec::new();
                queries.push(DemonQuery::SetLevelId { demon: id, level_id });
                assert(queries@ =~= seq![DemonQuery::SetLevelId { demon: id, level_id }]);
                Ok(queries)
            },
        }
    }
}

/// The outcome of applying `steps` one after the other, each with the input
/// that `lookup` gives for it, stopping at the first error.
pub open spec fn steps_outcome(
    d: Demon,
    steps: Seq<PatchStep>,
    lookup: spec_fn(PatchStep) -> StepInput,
) -> Result<(Demon, Seq<DemonQuery>), DemonlistError>
    decreases steps.len(),
{
    if steps.len() == 0 {
        Ok((d, Seq::empty()))
    } else {
        then_step(steps_outcome(d, steps.drop_last(), lookup), Some(steps.last()), lookup)
    }
}

/// `so_far`, followed by `step` where there is one.
pub open spec fn then_step(
    so_far: Result<(Demon, Seq<DemonQuery>), DemonlistError>,
    step: Option<PatchStep>,
    lookup: spec_fn(PatchStep) -> StepInput,
) -> Result<(Demon, Seq<DemonQuery>), DemonlistError> {
    match step {
        None => so_far,
        Some(step) => match so_far {
            Err(e) => Err(e),
            Ok((d, queries)) => match step_outcome(d, step, lookup(step)) {
                Err(e) => Err(e),
                Ok((next, more)) => Ok((next, queries + more)),
            },
        },
    }
}

/// The inputs that the lookups of a patch found: the highest list position,
/// the validated video and the verifier and publisher players.
pub open spec fn found_inputs(
    maximal_position: i16,
    video: String,
    verifier: DatabasePlayer,
    publisher: DatabasePlayer,
) -> spec_fn(PatchStep) -> StepInput {
    |step: PatchStep|
        match step {
            PatchStep::Move(_) => StepInput::MaximalPosition(maximal_position),
            PatchStep::SetVideo(_) => StepInput::ValidatedVideo(video),
            PatchStep::SetVerifier(_) => StepInput::Player(verifier),
            PatchStep::SetPublisher(_) => StepInput::Player(publisher),
            _ => StepInput::Nothing,
        }
}

proof fn lemma_steps_then(
    d: Demon,
    steps: Seq<PatchStep>,
    step: Option<PatchStep>,
    lookup: spec_fn(PatchStep) -> StepInput,
)
    ensures
        steps_outcome(d, steps + optional_step(step), lookup) == then_step(
            steps_outcome(d, steps, lookup),
            step,
            lookup,
        ),
{
    match step {
        Some(x) => {
            assert((steps + optional_step(step)).drop_last() =~= steps);
            assert((steps + optional_step(step)).last() == x);
        },
        None => {
            assert(steps + optional_step(step) =~= steps);
        },
    }
}

/// The fields of a demon that a patch can change, strings by their view.
pub open spec fn patchable_fields(e: Demon) -> (
    i32,
    i16,
    Seq<char>,
    Option<String>,
    String,
    DatabasePlayer,
    DatabasePlayer,
    i16,
    Option<u64>,
) {
    (
        e.base.id,
        e.base.position,
        e.base.name@,
        e.video,
        e.thumbnail,
        e.verifier,
        e.publisher,
        e.requirement,
        e.level_id,
    )
}

proof fn lemma_then_move(
    r: Result<(Demon, Seq<DemonQuery>), DemonlistError>,
    position: Option<i16>,
    maximal_position: i16,
    video: String,
    verifier: DatabasePlayer,
    publisher: DatabasePlayer,
)
    ensures
        ({
            let f = found_inputs(maximal_position, video, verifier, publisher);
            let r2 = then_step(r, move_step(position), f);
            &&& r is Err ==> r2 == r
            &&& r matches Ok((e, _)) ==> match position {
                None => r2 == r,
                Some(to) => if to > maximal_position || to < 1 {
                    r2 == Err::<(Demon, Seq<DemonQuery>), DemonlistError>(
                        DemonlistError::InvalidPosition { maximal: maximal_position },
                    )
                } else {
                    r2 matches Ok((e2, _)) && patchable_fields(e2) == {
                        let t = patchable_fields(e);
                        (t.0, to, t.2, t.3, t.4, t.5, t.6, t.7, t.8)
                    }
                },
            }
        }),
{
}

proof fn lemma_then_rename(
    r: Result<(Demon, Seq<DemonQuery>), DemonlistError>,
    name: Option<String>,
    lookup: spec_fn(PatchStep) -> StepInput,
)
    ensures
        ({
            let r2 = then_step(r, rename_step(name), lookup);
            &&& r is Err ==> r2 == r
            &&& r matches Ok((e, _)) ==> r2 matches Ok((e2, _)) && patchable_fields(e2) == {
                let t = patchable_fields(e);
                let n = match name {
                    Some(name) => name@,
                    None => t.2,
                };
                (t.0, t.1, n, t.3, t.4, t.5, t.6, t.7, t.8)
            }
        }),
{
}

proof fn lemma_then_video(
    r: Result<(Demon, Seq<DemonQuery>), DemonlistError>,
    patch_video: Option<Option<String>>,
    maximal_position: i16,
    video: String,
    verifier: DatabasePlayer,
    publisher: DatabasePlayer,
)
    ensures
        ({
            let f = found_inputs(maximal_position, video, verifier, publisher);
            let r2 = then_step(r, video_step(patch_video), f);
            &&& r is Err ==> r2 == r
            &&& r matches Ok((e, _)) ==> r2 matches Ok((e2, _)) && patchable_fields(e2) == {
                let t = patchable_fields(e);
                let v = match patch_video {
                    Some(Some(_)) => Some(video),
                    Some(None) => None,
                    None => t.3,
                };
                (t.0, t.1, t.2, v, t.4, t.5, t.6, t.7, t.8)
            }
        }),
{
}

proof fn lemma_then_thumbnail(
    r: Result<(Demon, Seq<DemonQuery>), DemonlistError>,
    thumbnail: Option<String>,
    lookup: spec_fn(PatchStep) -> StepInput,
)
    ensures
        ({
            let r2 = then_step(r, thumbnail_step(thumbnail), lookup);
            &&& r is Err ==> r2 == r
            &&& r matches Ok((e, _)) ==> r2 matches Ok((e2, _)) && patchable_fields(e2) == {
                let t = patchable_fields(e);
                let th = match thumbnail {
                    Some(thumbnail) => thumbnail,
                    None => t.4,
                };
                (t.0, t.1, t.2, t.3, th, t.5, t.6, t.7, t.8)
            }
        }),
{
}

proof fn lemma_then_players(
    r: Result<(Demon, Seq<DemonQuery>), DemonlistError>,
    patch_verifier: Option<String>,
    patch_publisher: Option<String>,
    maximal_position: i16,
    video: String,
    verifier: DatabasePlayer,
    publisher: DatabasePlayer,
)
    ensures
        ({
            let f = found_inputs(maximal_position, video, verifier, publisher);
            let r2 = then_step(
                then_step(r, verifier_step(patch_verifier), f),
                publisher_step(patch_publisher),
                f,
            );
            &&& r is Err ==> r2 == r
            &&& r matches Ok((e, _)) ==> r2 matches Ok((e2, _)) && patchable_fields(e2) == {
                let t = patchable_fields(e);
                let ve = match patch_verifier {
                    Some(_) => if verifier.id != t.5.id {
                        verifier
                    } else {
                        t.5
                    },
                    None => t.5,
                };
                let pu = match patch_publisher {
                    Some(_) => if publisher.id != t.6.id {
                        publisher
                    } else {
                        t.6
                    },
                    None => t.6,
                };
                (t.0, t.1, t.2, t.3, t.4, ve, pu, t.7, t.8)
            }
        }),
{
}

proof fn lemma_then_requirement(
    r: Result<(Demon, Seq<DemonQuery>), DemonlistError>,
    requirement: Option<i16>,
    lookup: spec_fn(PatchStep) -> StepInput,
)
    ensures
        ({
            let r2 = then_step(r, requirement_step(requirement), lookup);
            &&& r is Err ==> r2 == r
            &&& r matches Ok((e, _)) ==> match requirement {
                None => r2 == r,
                Some(req) => if 0 <= req <= 100 {
                    r2 matches Ok((e2, _)) && patchable_fields(e2) == {
                        let t = patchable_fields(e);
                        (t.0, t.1, t.2, t.3, t.4, t.5, t.6, req, t.8)
                    }
                } else {
                    r2 == Err::<(Demon, Seq<DemonQuery>), DemonlistError>(
                        DemonlistError::InvalidRequirement,
                    )
                },
            }
        }),
{
}

proof fn lemma_then_level_id(
    r: Result<(Demon, Seq<DemonQuery>), DemonlistError>,
    level_id: Option<u64>,
    lookup: spec_fn(PatchStep) -> StepInput,
)
    ensures
        ({
            let r2 = then_step(r, level_id_step(level_id), lookup);
            &&& r is Err ==> r2 == r
            &&& r matches Ok((e, _)) ==> r2 matches Ok((e2, _)) && patchable_fields(e2) == {
                let t = patchable_fields(e);
                let l = match level_id {
                    Some(level_id) => Some(level_id),
                    None => t.8,
                };
                (t.0, t.1, t.2, t.3, t.4, t.5, t.6, t.7, l)
            }
        }),
{
    if let Some(level_id) = level_id {
        assert(((level_id as i64) as u64) == level_id) by (bit_vector);
    }
}

/// What applying a whole patch does: it fails with the position error where
/// the patch moves the demon off the list, else with the requirement error
/// where the requirement is no percentage; otherwise every field that the
/// patch names takes the patch's value (the video as it was looked up; a
/// looked-up player only where its id differs from the current one's, which
/// is kept otherwise) and every other field keeps its value.
pub proof fn lemma_patch_outcome(
    d: Demon,
    patch: PatchDemon,
    maximal_position: i16,
    video: String,
    verifier: DatabasePlayer,
    publisher: DatabasePlayer,
)
    ensures
        ({
            let r = steps_outcome(
                d,
                patch.spec_steps(),
                found_inputs(maximal_position, video, verifier, publisher),
            );
            let bad_position = patch.position matches Some(to) && (to > maximal_position || to < 1);
            let bad_requirement = patch.requirement matches Some(req) && !(0 <= req <= 100);
            &&& bad_position ==> r == Err::<(Demon, Seq<DemonQuery>), DemonlistError>(
                DemonlistError::InvalidPosition { maximal: maximal_position },
            )
            &&& !bad_position && bad_requirement ==> r == Err::<
                (Demon, Seq<DemonQuery>),
                DemonlistError,
            >(DemonlistError::InvalidRequirement)
            &&& !bad_position && !bad_requirement ==> r is Ok
            &&& r matches Ok((e, _)) ==> {
                &&& e.base.id == d.base.id
                &&& e.base.position == (match patch.position {
                    Some(to) => to,
                    None => d.base.position,
                })
                &&& e.base.name@ == (match patch.name {
                    Some(name) => name@,
                    None => d.base.name@,
                })
                &&& e.video == (match patch.video {
                    Some(Some(_)) => Some(video),
                    Some(None) => None,
                    None => d.video,
                })
                &&& e.thumbnail == (match patch.thumbnail {
                    Some(thumbnail) => thumbnail,
                    None => d.thumbnail,
                })
                &&& e.verifier == (match patch.verifier {
                    Some(_) => if verifier.id != d.verifier.id {
                        verifier
                    } else {
                        d.verifier
                    },
                    None => d.verifier,
                })
                &&& e.publisher == (match patch.publisher {
                    Some(_) => if publisher.id != d.publisher.id {
                        publisher
                    } else {
                        d.publisher
                    },
                    None => d.publisher,
                })
                &&& e.requirement == (match patch.requirement {
                    Some(requirement) => requirement,
                    None => d.requirement,
                })
                &&& e.level_id == (match patch.level_id {
                    Some(level_id) => Some(level_id),
                    None => d.level_id,
                })
            }
        }),
{
    let f = found_inputs(maximal_position, video, verifier, publisher);
    let s0 = optional_step(move_step(patch.position));
    let s1 = s0 + optional_step(rename_step(patch.name));
    let s2 = s1 + optional_step(video_step(patch.video));
    let s3 = s2 + optional_step(thumbnail_step(patch.thumbnail));
    let s4 = s3 + optional_step(verifier_step(patch.verifier));
    let s5 = s4 + optional_step(publisher_step(patch.publisher));
    let s6 = s5 + optional_step(requirement_step(patch.requirement));
    let s7 = s6 + optional_step(level_id_step(patch.level_id));
    assert(s7 == patch.spec_steps());
    let start: Result<(Demon, Seq<DemonQuery>), DemonlistError> = Ok((d, Seq::empty()));
    assert(Seq::<PatchStep>::empty() + s0 =~= s0);
    lemma_steps_then(d, Seq::empty(), move_step(patch.position), f);
    let r0 = then_step(start, move_step(patch.position), f);
    lemma_then_move(start, patch.position, maximal_position, video, verifier, publisher);
    lemma_steps_then(d, s0, rename_step(patch.name), f);
    let r1 = then_step(r0, rename_step(patch.name), f);
    lemma_then_rename(r0, patch.name, f);
    lemma_steps_then(d, s1, video_step(patch.video), f);
    let r2 = then_step(r1, video_step(patch.video), f);
    lemma_then_video(r1, patch.video, maximal_position, video, verifier, publisher);
    lemma_steps_then(d, s2, thumbnail_step(patch.thumbnail), f);
    let r3 = then_step(r2, thumbnail_step(patch.thumbnail), f);
    lemma_then_thumbnail(r2, patch.thumbnail, f);
    lemma_steps_then(d, s3, verifier_step(patch.verifier), f);
    lemma_steps_then(d, s4, publisher_step(patch.publisher), f);
    let r5 = then_step(then_step(r3, verifier_step(patch.verifier), f), publisher_step(patch.publisher), f);
    lemma_then_players(r3, patch.verifier, patch.publisher, maximal_position, video, verifier, publisher);
    lemma_steps_then(d, s5, requirement_step(patch.requirement), f);
    let r6 = then_step(r5, requirement_step(patch.requirement), f);
    lemma_then_requirement(r5, patch.requirement, f);
    lemma_steps_then(d, s6, level_id_step(patch.level_id), f);
    let r7 = then_step(r6, level_id_step(patch.level_id), f);
    lemma_then_level_id(r6, patch.level_id, f);
    assert(steps_outcome(d, patch.spec_steps(), f) == r7);
}

} // verus!
