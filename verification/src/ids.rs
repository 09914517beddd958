//! Typed identity values for the Do Vale Studio 4 domain.
//!
//! Each ID is a distinct newtype over a non-zero `u64`. Zero is reserved and
//! rejected at construction so an ID always represents a concrete entity.
//! Callers allocate values; these types never generate IDs from global state.

use vstd::prelude::*;

verus! {

/// Error returned when a domain identity value is rejected.
#[derive(Debug, Clone, Copy, PartialEq, Eq, Hash, Structural)]
pub enum IdError {
    /// Zero is reserved and cannot identify an entity.
    ZeroReserved,
}

/// Stable identity of a project document in the domain model.
#[derive(Debug, Clone, Copy, PartialEq, Eq, PartialOrd, Ord, Hash, Structural)]
pub struct ProjectId(u64);

impl View for ProjectId {
    type V = u64;

    closed spec fn view(&self) -> u64 {
        self.0
    }
}

impl ProjectId {
    #[verifier::type_invariant]
    spec fn non_zero(self) -> bool {
        self.0 != 0
    }

    /// Creates an ID from a non-zero primitive value.
    ///
    /// Returns [`IdError::ZeroReserved`] when `value == 0`.
    pub fn new(value: u64) -> (r: Result<Self, IdError>)
        ensures
            value == 0 <==> r is Err,
            r matches Err(e) ==> e == IdError::ZeroReserved,
            r matches Ok(id) ==> id@ == value,
    {
        if value == 0 {
            Err(IdError::ZeroReserved)
        } else {
            Ok(ProjectId(value))
        }
    }

    /// Returns the primitive representation of this ID.
    pub fn get(self) -> (v: u64)
        ensures
            v == self@,
            v != 0,
    {
        proof {
            use_type_invariant(&self);
        }
        self.0
    }

    /// Two identities are equal exactly when their primitive values are.
    pub broadcast proof fn lemma_view_injective(a: ProjectId, b: ProjectId)
        ensures
            (#[trigger] a@ == #[trigger] b@) <==> a == b,
    {
    }
}

/// Stable identity of a media asset referenced by the project.
#[derive(Debug, Clone, Copy, PartialEq, Eq, PartialOrd, Ord, Hash, Structural)]
pub struct MediaAssetId(u64);

impl View for MediaAssetId {
    type V = u64;

    closed spec fn view(&self) -> u64 {
        self.0
    }
}

impl MediaAssetId {
    #[verifier::type_invariant]
    spec fn non_zero(self) -> bool {
        self.0 != 0
    }

    /// Creates an ID from a non-zero primitive value.
    ///
    /// Returns [`IdError::ZeroReserved`] when `value == 0`.
    pub fn new(value: u64) -> (r: Result<Self, IdError>)
        ensures
            value == 0 <==> r is Err,
            r matches Err(e) ==> e == IdError::ZeroReserved,
            r matches Ok(id) ==> id@ == value,
    {
        if value == 0 {
            Err(IdError::ZeroReserved)
        } else {
            Ok(MediaAssetId(value))
        }
    }

    /// Returns the primitive representation of this ID.
    pub fn get(self) -> (v: u64)
        ensures
            v == self@,
            v != 0,
    {
        proof {
            use_type_invariant(&self);
        }
        self.0
    }

    /// Two identities are equal exactly when their primitive values are.
    pub broadcast proof fn lemma_view_injective(a: MediaAssetId, b: MediaAssetId)
        ensures
            (#[trigger] a@ == #[trigger] b@) <==> a == b,
    {
    }

    /// The identity whose primitive value is `v`.
    pub closed spec fn from_value(v: u64) -> MediaAssetId {
        MediaAssetId(v)
    }

    /// The view of `from_value(v)` is `v`.
    pub broadcast proof fn lemma_from_value_view(v: u64)
        ensures
            #[trigger] MediaAssetId::from_value(v)@ == v,
    {
    }

    /// Every identity is `from_value` of its view.
    pub broadcast proof fn lemma_view_from_value(id: MediaAssetId)
        ensures
            #[trigger] MediaAssetId::from_value(id@) == id,
    {
    }
}

/// Stable identity of a timeline track.
#[derive(Debug, Clone, Copy, PartialEq, Eq, PartialOrd, Ord, Hash, Structural)]
pub struct TrackId(u64);

impl View for TrackId {
    type V = u64;

    closed spec fn view(&self) -> u64 {
        self.0
    }
}

impl TrackId {
    #[verifier::type_invariant]
    spec fn non_zero(self) -> bool {
        self.0 != 0
    }

    /// Creates an ID from a non-zero primitive value.
    ///
    /// Returns [`IdError::ZeroReserved`] when `value == 0`.
    pub fn new(value: u64) -> (r: Result<Self, IdError>)
        ensures
            value == 0 <==> r is Err,
            r matches Err(e) ==> e == IdError::ZeroReserved,
            r matches Ok(id) ==> id@ == value,
    {
        if value == 0 {
            Err(IdError::ZeroReserved)
        } else {
            Ok(TrackId(value))
        }
    }

    /// Returns the primitive representation of this ID.
    pub fn get(self) -> (v: u64)
        ensures
            v == self@,
            v != 0,
    {
        proof {
            use_type_invariant(&self);
        }
        self.0
    }

    /// Two identities are equal exactly when their primitive values are.
    pub broadcast proof fn lemma_view_injective(a: TrackId, b: TrackId)
        ensures
            (#[trigger] a@ == #[trigger] b@) <==> a == b,
    {
    }
}

/// Stable identity of a timeline clip.
#[derive(Debug, Clone, Copy, PartialEq, Eq, PartialOrd, Ord, Hash, Structural)]
pub struct ClipId(u64);

impl View for ClipId {
    type V = u64;

    closed spec fn view(&self) -> u64 {
        self.0
    }
}

impl ClipId {
    #[verifier::type_invariant]
    spec fn non_zero(self) -> bool {
        self.0 != 0
    }

    /// Creates an ID from a non-zero primitive value.
    ///
    /// Returns [`IdError::ZeroReserved`] when `value == 0`.
    pub fn new(value: u64) -> (r: Result<Self, IdError>)
        ensures
            value == 0 <==> r is Err,
            r matches Err(e) ==> e == IdError::ZeroReserved,
            r matches Ok(id) ==> id@ == value,
    {
        if value == 0 {
            Err(IdError::ZeroReserved)
        } else {
            Ok(ClipId(value))
        }
    }

    /// Returns the primitive representation of this ID.
    pub fn get(self) -> (v: u64)
        ensures
            v == self@,
            v != 0,
    {
        proof {
            use_type_invariant(&self);
        }
        self.0
    }

    /// Two identities are equal exactly when their primitive values are.
    pub broadcast proof fn lemma_view_injective(a: ClipId, b: ClipId)
        ensures
            (#[trigger] a@ == #[trigger] b@) <==> a == b,
    {
    }
}

} // verus!
