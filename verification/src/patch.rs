use vstd::prelude::*;

use crate::demon::{Demon, FullDemon, MinimalRecord};

verus! {

/// A partial update of a demon: every field that is `Some` is changed.
///
/// `video` tells apart "leave the video alone" (`None`), "remove the video"
/// (`Some(None)`) and "set the video" (`Some(Some(url))`).
#[derive(Debug)]
pub struct PatchDemon {
    pub name: Option<String>,
    pub position: Option<i16>,
    pub video: Option<Option<String>>,
    pub thumbnail: Option<String>,
    pub requirement: Option<i16>,
    pub verifier: Option<String>,
    pub publisher: Option<String>,
    pub level_id: Option<u64>,
}

impl Default for PatchDemon {
    fn default() -> (r: Self)
        ensures
            r.is_empty(),
    {
        PatchDemon {
            name: None,
            position: None,
            video: None,
            thumbnail: None,
            requirement: None,
            verifier: None,
            publisher: None,
            level_id: None,
        }
    }
}

/// One change that a patch makes, in the order in which patches apply them.
#[derive(Debug, Clone, PartialEq, Eq)]
pub enum PatchStep {
    /// Move the demon to the given list position.
    Move(i16),
    /// Rename the demon.
    Rename(String),
    /// Remove the demon's video.
    RemoveVideo,
    /// Set the demon's video (the given URL still has to be validated).
    SetVideo(String),
    /// Set the demon's thumbnail.
    SetThumbnail(String),
    /// Make the player of the given name (created if need be) the verifier.
    SetVerifier(String),
    /// Make the player of the given name (created if need be) the publisher.
    SetPublisher(String),
    /// Set the record requirement.
    SetRequirement(i16),
    /// Set the level id, in the database's signed representation.
    SetLevelId(i64),
}

/// No step where `step` is `None`, else that step alone.
pub open spec fn optional_step(step: Option<PatchStep>) -> Seq<PatchStep> {
    match step {
        Some(step) => seq![step],
        None => Seq::empty(),
    }
}

/// The step of the position field.
pub open spec fn move_step(position: Option<i16>) -> Option<PatchStep> {
    match position {
        Some(to) => Some(PatchStep::Move(to)),
        None => None,
    }
}

/// The step of the name field.
pub open spec fn rename_step(name: Option<String>) -> Option<PatchStep> {
    match name {
        Some(name) => Some(PatchStep::Rename(name)),
        None => None,
    }
}

/// The step of the video field: absent, removal or a new video.
pub open spec fn video_step(video: Option<Option<String>>) -> Option<PatchStep> {
    match video {
        Some(Some(url)) => Some(PatchStep::SetVideo(url)),
        Some(None) => Some(PatchStep::RemoveVideo),
        None => None,
    }
}

/// The step of the thumbnail field.
pub open spec fn thumbnail_step(thumbnail: Option<String>) -> Option<PatchStep> {
    match thumbnail {
        Some(thumbnail) => Some(PatchStep::SetThumbnail(thumbnail)),
        None => None,
    }
}

/// The step of the verifier field.
pub open spec fn verifier_step(verifier: Option<String>) -> Option<PatchStep> {
    match verifier {
        Some(name) => Some(PatchStep::SetVerifier(name)),
        None => None,
    }
}

/// The step of the publisher field.
pub open spec fn publisher_step(publisher: Option<String>) -> Option<PatchStep> {
    match publisher {
        Some(name) => Some(PatchStep::SetPublisher(name)),
        None => None,
    }
}

/// The step of the requirement field.
pub open spec fn requirement_step(requirement: Option<i16>) -> Option<PatchStep> {
    match requirement {
        Some(requirement) => Some(PatchStep::SetRequirement(requirement)),
        None => None,
    }
}

/// The step of the level id field: the id is stored as a signed integer.
pub open spec fn level_id_step(level_id: Option<u64>) -> Option<PatchStep> {
    match level_id {
        Some(level_id) => Some(PatchStep::SetLevelId(level_id as i64)),
        None => None,
    }
}

/// Appends `step` to `steps` where there is one.
fn append_step(steps: &mut Vec<PatchStep>, step: Option<PatchStep>)
    ensures
        final(steps)@ == old(steps)@ + optional_step(step),
{
    match step {
        Some(step) => {
            steps.push(step);
            assert(final(steps)@ =~= old(steps)@ + seq![step]);
        },
        None => {
            assert(old(steps)@ + Seq::<PatchStep>::empty() =~= old(steps)@);
        },
    }
}

impl PatchDemon {
    /// The patch changes nothing.
    pub open spec fn is_empty(self) -> bool {
        &&& self.name is None
        &&& self.position is None
        &&& self.video is None
        &&& self.thumbnail is None
        &&& self.requirement is None
        &&& self.verifier is None
        &&& self.publisher is None
        &&& self.level_id is None
    }

    /// The steps of a patch: position first, then name, video, thumbnail,
    /// verifier, publisher, requirement and level id, each where present.
    pub open spec fn spec_steps(self) -> Seq<PatchStep> {
        optional_step(move_step(self.position)) + optional_step(rename_step(self.name))
            + optional_step(video_step(self.video)) + optional_step(thumbnail_step(self.thumbnail))
            + optional_step(verifier_step(self.verifier)) + optional_step(
            publisher_step(self.publisher),
        ) + optional_step(requirement_step(self.requirement)) + optional_step(
            level_id_step(self.level_id),
        )
    }

    /// Splits the patch into the steps that apply it, in order.
    pub fn steps(self) -> (steps: Vec<PatchStep>)
        ensures
            steps@ == self.spec_steps(),
    {
        let PatchDemon {
            name,
            position,
            video,
            thumbnail,
            requirement,
            verifier,
            publisher,
            level_id,
        } = self;
        let mut steps: Vec<PatchStep> = Vec::new();
        let step = match position {
            Some(to) => Some(PatchStep::Move(to)),
            None => None,
        };
        append_step(&mut steps, step);
        let step = match name {
            Some(name) => Some(PatchStep::Rename(name)),
            None => None,
        };
        append_step(&mut steps, step);
        let step = match video {
            Some(Some(url)) => Some(PatchStep::SetVideo(url)),
            Some(None) => Some(PatchStep::RemoveVideo),
            None => None,
        };
        append_step(&mut steps, step);
        let step = match thumbnail {
            Some(thumbnail) => Some(PatchStep::SetThumbnail(thumbnail)),
            None => None,
        };
        append_step(&mut steps, step);
        let step = match verifier {
            Some(name) => Some(PatchStep::SetVerifier(name)),
            None => None,
        };
        append_step(&mut steps, step);
        let step = match publisher {
            Some(name) => Some(PatchStep::SetPublisher(name)),
            None => None,
        };
        append_step(&mut steps, step);
        let step = match requirement {
            Some(requirement) => Some(PatchStep::SetRequirement(requirement)),
            None => None,
        };
        append_step(&mut steps, step);
        let step = match level_id {
            Some(level_id) => Some(PatchStep::SetLevelId(level_id as i64)),
            None => None,
        };
        append_step(&mut steps, step);
        assert(Seq::<PatchStep>::empty() + optional_step(move_step(position)) =~= optional_step(
            move_step(position),
        ));
        steps
    }
}

/// A patch naming every field applies them in this order: move, rename,
/// video, thumbnail, verifier, publisher, requirement, level id.
pub proof fn lemma_full_patch_steps(
    name: String,
    position: i16,
    video: String,
    thumbnail: String,
    requirement: i16,
    verifier: String,
    publisher: String,
    level_id: u64,
)
    ensures
        (PatchDemon {
            name: Some(name),
            position: Some(position),
            video: Some(Some(video)),
            thumbnail: Some(thumbnail),
            requirement: Some(requirement),
            verifier: Some(verifier),
            publisher: Some(publisher),
            level_id: Some(level_id),
        }).spec_steps() == seq![
            PatchStep::Move(position),
            PatchStep::Rename(name),
            PatchStep::SetVideo(video),
            PatchStep::SetThumbnail(thumbnail),
            PatchStep::SetVerifier(verifier),
            PatchStep::SetPublisher(publisher),
            PatchStep::SetRequirement(requirement),
            PatchStep::SetLevelId(level_id as i64),
        ],
{
    let patch = PatchDemon {
        name: Some(name),
        position: Some(position),
        video: Some(Some(video)),
        thumbnail: Some(thumbnail),
        requirement: Some(requirement),
        verifier: Some(verifier),
        publisher: Some(publisher),
        level_id: Some(level_id),
    };
    assert(patch.spec_steps() =~= seq![
        PatchStep::Move(position),
        PatchStep::Rename(name),
        PatchStep::SetVideo(video),
        PatchStep::SetThumbnail(thumbnail),
        PatchStep::SetVerifier(verifier),
        PatchStep::SetPublisher(publisher),
        PatchStep::SetRequirement(requirement),
        PatchStep::SetLevelId(level_id as i64),
    ]);
}

/// The number of fields that a patch names.
pub open spec fn named_fields(patch: PatchDemon) -> nat {
    (if patch.name is Some { 1nat } else { 0 }) + (if patch.position is Some { 1nat } else { 0 })
        + (if patch.video is Some { 1nat } else { 0 }) + (if patch.thumbnail is Some { 1nat } else { 0 })
        + (if patch.requirement is Some { 1nat } else { 0 }) + (if patch.verifier is Some { 1nat } else { 0 })
        + (if patch.publisher is Some { 1nat } else { 0 }) + (if patch.level_id is Some { 1nat } else { 0 })
}

/// Every field that a patch names gives exactly one step, and a field that
/// is absent gives none.
pub proof fn lemma_one_step_per_named_field(patch: PatchDemon)
    ensures
        patch.spec_steps().len() == named_fields(patch),
{
}

/// A record counts towards a demon with the given requirement.
pub open spec fn meets_requirement(requirement: i16) -> spec_fn(MinimalRecord) -> bool {
    |record: MinimalRecord| record.progress >= requirement
}

/// Keeps, in their order, the records whose progress reaches `requirement`.
pub fn retain_records(records: Vec<MinimalRecord>, requirement: i16) -> (kept: Vec<MinimalRecord>)
    ensures
        kept@ == records@.filter(meets_requirement(requirement)),
{
    let ghost all = records@;
    let mut kept: Vec<MinimalRecord> = Vec::new();
    for record in it: records
        invariant
            it.seq() == all,
            kept@ == all.take(it.index() as int).filter(meets_requirement(requirement)),
    {
        let ghost i = it.index() as int;
        assert(all.take(i + 1).drop_last() =~= all.take(i));
        assert(all.take(i + 1).last() == record);
        proof {
            reveal_with_fuel(Seq::filter, 1);
        }
        if record.progress >= requirement {
            kept.push(record);
        }
    }
    assert(all.take(all.len() as int) =~= all);
    kept
}

/// Two requirement changes keep the records that the larger requirement
/// keeps: records dropped by the first change do not come back when the
/// second requirement is lower. (Patching a demon's records twice with
/// `FullDemon::with_patched_demon` with two patches that set a
/// requirement, or deleting the records below each
/// requirement in turn, filters the records this way.)
pub proof fn lemma_requirement_changes_compose(records: Seq<MinimalRecord>, first: i16, second: i16)
    ensures
        records.filter(meets_requirement(first)).filter(meets_requirement(second))
            == records.filter(meets_requirement(if first >= second { first } else { second })),
    decreases records.len(),
{
    reveal_with_fuel(Seq::filter, 1);
    if records.len() > 0 {
        let rest = records.drop_last();
        let last = records.last();
        lemma_requirement_changes_compose(rest, first, second);
        let kept_first = rest.filter(meets_requirement(first));
        if last.progress >= first {
            assert(kept_first.push(last).drop_last() =~= kept_first);
            assert(kept_first.push(last).last() == last);
        }
    }
}

/// Dropping records below a requirement keeps exactly the records whose
/// progress reaches it, whatever their other fields, and nothing else.
pub proof fn lemma_kept_records(records: Seq<MinimalRecord>, requirement: i16)
    ensures
        ({
            let kept = records.filter(meets_requirement(requirement));
            &&& forall|i: int| 0 <= i < kept.len() ==> #[trigger] kept[i].progress >= requirement
            &&& forall|i: int|
                0 <= i < records.len() && #[trigger] records[i].progress >= requirement
                    ==> kept.contains(records[i])
            &&& forall|i: int| 0 <= i < kept.len() ==> records.contains(#[trigger] kept[i])
        }),
    decreases records.len(),
{
    let kept = records.filter(meets_requirement(requirement));
    assert forall|i: int| 0 <= i < kept.len() implies #[trigger] kept[i].progress >= requirement by {
        records.lemma_filter_pred(meets_requirement(requirement), i);
    }
    assert forall|i: int|
        0 <= i < records.len() && #[trigger] records[i].progress >= requirement implies kept.contains(
            records[i],
        ) by {
        records.lemma_filter_contains(meets_requirement(requirement), i);
    }
    reveal_with_fuel(Seq::filter, 1);
    if records.len() > 0 {
        let rest = records.drop_last();
        lemma_kept_records(rest, requirement);
        let kept_rest = rest.filter(meets_requirement(requirement));
        assert forall|i: int| 0 <= i < kept.len() implies records.contains(#[trigger] kept[i]) by {
            if i < kept_rest.len() {
                assert(kept[i] == kept_rest[i]);
                assert(rest.contains(kept_rest[i]));
                let j = choose|j: int| 0 <= j < rest.len() && rest[j] == kept_rest[i];
                assert(records[j] == kept[i]);
            } else {
                assert(kept[i] == records.last());
                assert(records[records.len() - 1] == kept[i]);
            }
        }
    }
}

impl FullDemon {
    /// Replaces the demon by `demon`, its version patched by a patch whose
    /// requirement field is `patch_requirement`. Where the patch sets a
    /// requirement, records below the demon's new requirement are dropped.
    pub fn with_patched_demon(self, demon: Demon, patch_requirement: Option<i16>) -> (r: FullDemon)
        ensures
            r.demon == demon,
            r.creators == self.creators,
            patch_requirement is Some ==> r.records@ == self.records@.filter(
                meets_requirement(demon.requirement),
            ),
            patch_requirement is None ==> r.records == self.records,
    {
        let FullDemon { demon: _, creators, records } = self;
        let records = if patch_requirement.is_some() {
            retain_records(records, demon.requirement)
        } else {
            records
        };
        FullDemon { demon, creators, records }
    }
}

/// A level id set through a patch is stored exactly as the patch gave it,
/// although it passes through the database's signed representation.
pub proof fn lemma_level_id_roundtrip(level_id: u64)
    ensures
        level_id_step(Some(level_id)) == Some(PatchStep::SetLevelId(level_id as i64)),
        ((level_id as i64) as u64) == level_id,
{
    assert(((level_id as i64) as u64) == level_id) by (bit_vector);
}

/// A patch that names no field has no step: it changes nothing.
pub proof fn lemma_empty_patch_has_no_steps(patch: PatchDemon)
    requires
        patch.is_empty(),
    ensures
        patch.spec_steps() == Seq::<PatchStep>::empty(),
{
    assert(patch.spec_steps() =~= Seq::<PatchStep>::empty());
}

} // verus!
