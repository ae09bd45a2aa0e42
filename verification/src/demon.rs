use vstd::prelude::*;

use crate::error::{validate_requirement, DemonlistError};

verus! {

/// A player as it is stored in the database.
#[derive(Debug, Clone)]
pub struct DatabasePlayer {
    pub id: i32,
    pub name: String,
    pub banned: bool,
}

/// The part of a demon that identifies it and fixes its place on the list.
#[derive(Debug, Clone)]
pub struct MinimalDemon {
    pub id: i32,
    pub position: i16,
    pub name: String,
}

/// A demon with everything that a patch can change.
#[derive(Debug, Clone)]
pub struct Demon {
    pub base: MinimalDemon,
    /// Minimal progress (in percent) that a record on this demon must have.
    pub requirement: i16,
    pub video: Option<String>,
    pub thumbnail: String,
    pub publisher: DatabasePlayer,
    pub verifier: DatabasePlayer,
    pub level_id: Option<u64>,
}

/// A record on a demon, as listed with the demon.
#[derive(Debug, Clone)]
pub struct MinimalRecord {
    pub id: i32,
    /// Progress of the record, in percent.
    pub progress: i16,
    pub video: Option<String>,
    pub player: DatabasePlayer,
}

/// A demon together with its creators and the records on it.
#[derive(Debug, Clone)]
pub struct FullDemon {
    pub demon: Demon,
    pub creators: Vec<DatabasePlayer>,
    pub records: Vec<MinimalRecord>,
}

impl MinimalDemon {
    /// Renames the demon. Returns whether the name changed, that is, whether
    /// the stored name has to be updated too.
    pub fn set_name(&mut self, name: String) -> (changed: bool)
        ensures
            changed == (old(self).name@ != name@),
            changed ==> *final(self) == (MinimalDemon { name, ..*old(self) }),
            !changed ==> *final(self) == *old(self),
    {
        if self.name != name {
            self.name = name;
            true
        } else {
            false
        }
    }
}

impl Demon {
    /// Makes `verifier` the verifier of this demon. Where it is another player
    /// than the current verifier (by id), the replaced verifier is returned:
    /// the scores of both players then have to be recomputed.
    pub fn set_verifier(&mut self, verifier: DatabasePlayer) -> (replaced: Option<DatabasePlayer>)
        ensures
            verifier.id != old(self).verifier.id ==> {
                &&& replaced == Some(old(self).verifier)
                &&& *final(self) == (Demon { verifier, ..*old(self) })
            },
            verifier.id == old(self).verifier.id ==> {
                &&& replaced is None
                &&& *final(self) == *old(self)
            },
    {
        if verifier.id != self.verifier.id {
            let mut previous = verifier;
            std::mem::swap(&mut self.verifier, &mut previous);
            Some(previous)
        } else {
            None
        }
    }

    /// Makes `publisher` the publisher of this demon. Returns whether it is
    /// another player than the current publisher (by id).
    pub fn set_publisher(&mut self, publisher: DatabasePlayer) -> (changed: bool)
        ensures
            changed == (publisher.id != old(self).publisher.id),
            changed ==> *final(self) == (Demon { publisher, ..*old(self) }),
            !changed ==> *final(self) == *old(self),
    {
        if publisher.id != self.publisher.id {
            self.publisher = publisher;
            true
        } else {
            false
        }
    }

    /// Sets the record requirement, which must lie in `0..=100`. Once it is
    /// set, records with less progress than `requirement` no longer count.
    pub fn set_requirement(&mut self, requirement: i16) -> (r: Result<(), DemonlistError>)
        ensures
            r is Ok <==> 0 <= requirement <= 100,
            r is Ok ==> *final(self) == (Demon { requirement, ..*old(self) }),
            r is Err ==> {
                &&& r == Err::<(), DemonlistError>(DemonlistError::InvalidRequirement)
                &&& *final(self) == *old(self)
            },
    {
        validate_requirement(requirement)?;
        self.requirement = requirement;
        Ok(())
    }

    /// Sets the video of this demon to what the video validator made of the
    /// requested URL. A URL that the validator refused leaves the demon as it
    /// was, and the refusal is returned.
    pub fn set_video<E>(&mut self, validated: Result<String, E>) -> (r: Result<(), E>)
        ensures
            match validated {
                Ok(video) => {
                    &&& r is Ok
                    &&& *final(self) == (Demon { video: Some(video), ..*old(self) })
                },
                Err(refusal) => {
                    &&& r == Err::<(), E>(refusal)
                    &&& *final(self) == *old(self)
                },
            },
    {
        match validated {
            Ok(video) => {
                self.video = Some(video);
                Ok(())
            },
            Err(refusal) => Err(refusal),
        }
    }

    /// Removes the video of this demon.
    pub fn remove_video(&mut self)
        ensures
            *final(self) == (Demon { video: None, ..*old(self) }),
    {
        self.video = None;
    }

    /// Sets the thumbnail of this demon.
    pub fn set_thumbnail(&mut self, thumbnail: String)
        ensures
            *final(self) == (Demon { thumbnail, ..*old(self) }),
    {
        self.thumbnail = thumbnail;
    }

    /// Sets the level id, which the database holds as a signed 64 bit integer.
    pub fn set_level_id(&mut self, level_id: i64)
        ensures
            *final(self) == (Demon { level_id: Some(level_id as u64), ..*old(self) }),
    {
        self.level_id = Some(level_id as u64);
    }
}

} // verus!
