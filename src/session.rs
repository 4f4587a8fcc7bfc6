use vstd::prelude::*;

use crate::error::{Failure, ShotError};

verus! {

/// Which capture pipeline runs.
#[derive(Clone, Copy, Debug, PartialEq, Eq, Structural)]
pub enum ShotType {
    /// The whole screen.
    Fullscreen,
    /// A rectangle that the user picks.
    Selection,
}

/// The state that outlives one capture: the latest image and the mode that
/// was last started.
pub struct Session {
    image: Option<Vec<u8>>,
    last_shot: ShotType,
}

pub struct SessionView {
    pub image: Option<Seq<u8>>,
    pub last_shot: ShotType,
}

impl View for Session {
    type V = SessionView;

    closed spec fn view(&self) -> SessionView {
        SessionView {
            image: match self.image {
                Some(v) => Some(v@),
                None => None,
            },
            last_shot: self.last_shot,
        }
    }
}

pub open spec fn export_outcome(s: SessionView) -> Result<Seq<u8>, Failure> {
    match s.image {
        Some(b) => Ok(b),
        None => Err(Failure::NoImage),
    }
}

impl Session {
    /// A session with no image, which replays a selection until some capture
    /// is started.
    pub fn new() -> (r: Session)
        ensures
            r@ == (SessionView { image: None, last_shot: ShotType::Selection }),
    {
        Session { image: None, last_shot: ShotType::Selection }
    }

    /// The latest image, if any capture has completed.
    pub fn image(&self) -> (r: Option<&Vec<u8>>)
        ensures
            match r {
                Some(v) => self@.image == Some(v@),
                None => self@.image is None,
            },
    {
        match &self.image {
            Some(v) => Some(v),
            None => None,
        }
    }

    /// The mode of the capture that was started last.
    pub fn last_shot(&self) -> (r: ShotType)
        ensures
            r == self@.last_shot,
    {
        self.last_shot
    }

    /// The image that a save or a copy hands out; with no image, `NoImage`.
    pub fn exported_image(&self) -> (r: Result<&Vec<u8>, ShotError>)
        ensures
            match r {
                Ok(v) => export_outcome(self@) == Ok::<Seq<u8>, Failure>(v@),
                Err(e) => export_outcome(self@) == Err::<Seq<u8>, Failure>(e@),
            },
    {
        match &self.image {
            Some(v) => Ok(v),
            None => Err(ShotError::NoImage),
        }
    }

    pub(crate) fn record_shot(&mut self, mode: ShotType)
        ensures
            final(self)@ == (SessionView { last_shot: mode, ..old(self)@ }),
    {
        self.last_shot = mode;
    }

    pub(crate) fn replace(&mut self, bytes: Vec<u8>)
        ensures
            final(self)@ == (SessionView { image: Some(bytes@), ..old(self)@ }),
    {
        self.image = Some(bytes);
    }
}

} // verus!
