//! Project document root: identity, media pool, timeline, and selection.

use vstd::prelude::*;

use crate::error::EditorError;
use crate::ids::{MediaAssetId, ProjectId};
use crate::media_pool::MediaPool;
use crate::selection::Selection;
use crate::session::sound;
use crate::timeline::{has_track, timeline_has_clip, tracks_wf, Timeline, TrackV};

verus! {

/// Error returned when project construction fails validation.
#[derive(Debug, Clone, Copy, PartialEq, Eq, Hash, Structural)]
pub enum ProjectError {
    /// Project names must contain at least one character.
    EmptyName,
}

/// Abstract contents of a project.
pub struct ProjectV {
    pub id: ProjectId,
    pub name: Seq<char>,
    pub pool: Set<MediaAssetId>,
    pub tracks: Seq<TrackV>,
    pub selection: Selection,
}

impl ProjectV {
    /// Every track keeps its clips ordered and non-overlapping.
    pub open spec fn wf(self) -> bool {
        tracks_wf(self.tracks)
    }

    pub open spec fn with_pool(self, pool: Set<MediaAssetId>) -> ProjectV {
        ProjectV { pool, ..self }
    }

    pub open spec fn with_tracks(self, tracks: Seq<TrackV>) -> ProjectV {
        ProjectV { tracks, ..self }
    }

    pub open spec fn with_selection(self, selection: Selection) -> ProjectV {
        ProjectV { selection, ..self }
    }

    /// The selection refers to an object present in the project.
    pub open spec fn selection_valid(self, selection: Selection) -> bool {
        match selection {
            Selection::Nothing => true,
            Selection::MediaAsset(id) => self.pool.contains(id),
            Selection::Track(id) => has_track(self.tracks, id),
            Selection::Clip(id) => timeline_has_clip(self.tracks, id),
        }
    }
}

/// Root domain object for an editor project.
///
/// The name is never empty, the media pool stores only identities, and clips
/// on a track never overlap. This type performs no I/O and holds no paths.
#[derive(Debug, PartialEq, Eq)]
pub struct Project {
    id: ProjectId,
    name: String,
    media_pool: MediaPool,
    timeline: Timeline,
    selection: Selection,
}

impl View for Project {
    type V = ProjectV;

    closed spec fn view(&self) -> ProjectV {
        ProjectV {
            id: self.id,
            name: self.name@,
            pool: self.media_pool@,
            tracks: self.timeline@,
            selection: self.selection,
        }
    }
}

impl Clone for Project {
    fn clone(&self) -> (r: Self)
        ensures
            r@ == self@,
    {
        Project {
            id: self.id,
            name: self.name.clone(),
            media_pool: self.media_pool.clone(),
            timeline: self.timeline.clone(),
            selection: self.selection,
        }
    }
}

impl Project {
    /// Creates an empty project with an explicit identity and display name.
    ///
    /// Returns [`ProjectError::EmptyName`] when `name` is empty. Whitespace-only
    /// names are accepted as-is.
    pub fn new(id: ProjectId, name: String) -> (r: Result<Self, ProjectError>)
        ensures
            name@.len() > 0 <==> r is Ok,
            r matches Err(e) ==> e == ProjectError::EmptyName,
            r matches Ok(p) ==> p@ == (ProjectV {
                id,
                name: name@,
                pool: Set::empty(),
                tracks: Seq::empty(),
                selection: Selection::Nothing,
            }) && p@.wf() && sound(p@),
    {
        if name.as_str().is_empty() {
            return Err(ProjectError::EmptyName);
        }
        Ok(Project {
            id,
            name,
            media_pool: MediaPool::new(),
            timeline: Timeline::new(),
            selection: Selection::Nothing,
        })
    }

    /// Returns the project identity.
    pub fn id(&self) -> (r: ProjectId)
        ensures
            r == self@.id,
    {
        self.id
    }

    /// Returns the project display name.
    pub fn name(&self) -> (r: &str)
        ensures
            r@ == self@.name,
    {
        self.name.as_str()
    }

    /// Logical media pool.
    pub fn media_pool(&self) -> (r: &MediaPool)
        ensures
            r@ == self@.pool,
    {
        &self.media_pool
    }

    /// Project timeline.
    pub fn timeline(&self) -> (r: &Timeline)
        ensures
            r@ == self@.tracks,
    {
        &self.timeline
    }

    /// Current editor selection.
    pub fn selection(&self) -> (r: Selection)
        ensures
            r == self@.selection,
    {
        self.selection
    }

    pub(crate) fn media_pool_mut(&mut self) -> (r: &mut MediaPool)
        ensures
            r@ == old(self)@.pool,
            final(self)@ == old(self)@.with_pool(final(r)@),
    {
        &mut self.media_pool
    }

    pub(crate) fn timeline_mut(&mut self) -> (r: &mut Timeline)
        ensures
            r@ == old(self)@.tracks,
            final(self)@ == old(self)@.with_tracks(final(r)@),
    {
        &mut self.timeline
    }

    pub(crate) fn set_selection_raw(&mut self, selection: Selection)
        ensures
            final(self)@ == old(self)@.with_selection(selection),
    {
        self.selection = selection;
    }

    /// Clears the selection when `clear` holds.
    pub(crate) fn clear_selection_if(&mut self, clear: bool)
        ensures
            clear ==> final(self)@ == old(self)@.with_selection(Selection::Nothing),
            !clear ==> final(self)@ == old(self)@,
    {
        if clear {
            self.selection = Selection::Nothing;
        }
    }

    /// Validates that `selection` refers to objects present in this project.
    pub(crate) fn ensure_selection_valid(&self, selection: Selection) -> (r: Result<(), EditorError>)
        ensures
            self@.selection_valid(selection) ==> r is Ok,
            !self@.selection_valid(selection) ==> r == Err::<(), EditorError>(
                EditorError::InvalidSelection,
            ),
    {
        proof {
            crate::timeline::lemma_track_index(self@.tracks, match selection {
                Selection::Track(id) => id,
                _ => arbitrary(),
            });
        }
        match selection {
            Selection::Nothing => Ok(()),
            Selection::MediaAsset(id) => {
                if self.media_pool.contains(id) {
                    Ok(())
                } else {
                    Err(EditorError::InvalidSelection)
                }
            },
            Selection::Track(id) => {
                if self.timeline.track(id).is_ok() {
                    Ok(())
                } else {
                    Err(EditorError::InvalidSelection)
                }
            },
            Selection::Clip(id) => {
                if self.timeline.contains_clip_id(id) {
                    Ok(())
                } else {
                    Err(EditorError::InvalidSelection)
                }
            },
        }
    }
}

} // verus!
