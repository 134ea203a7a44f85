//! Conversions of the models to the values stored in the database.

use vstd::prelude::*;

use crate::models::{
    ContainerType, MediaLocation, MediaType, OperationState, SpecialFeature, SpecialFeatureType,
};

verus! {

/// The database code of a container type.
pub open spec fn container_type_code(c: ContainerType) -> u8 {
    match c {
        ContainerType::MKV => 0,
        ContainerType::MP4 => 1,
    }
}

/// The database code of a media type.
pub open spec fn media_type_code(m: MediaType) -> u8 {
    match m {
        MediaType::Movie => 0,
        MediaType::Show => 1,
    }
}

/// The database area code of a media location.
pub open spec fn media_location_code(l: MediaLocation) -> u8 {
    match l {
        MediaLocation::Inbox(_) => 1,
        MediaLocation::Library(_) => 2,
        MediaLocation::Archive(_) => 3,
        MediaLocation::Deleted => 4,
    }
}

/// The path stored for a media location; a deleted file has the empty path.
pub open spec fn media_location_path(l: MediaLocation) -> Seq<char> {
    match l {
        MediaLocation::Inbox(p) => p@,
        MediaLocation::Library(p) => p@,
        MediaLocation::Archive(p) => p@,
        MediaLocation::Deleted => Seq::empty(),
    }
}

/// The database code of an operation state.
pub open spec fn operation_state_code(s: OperationState) -> u8 {
    match s {
        OperationState::Requested => 0,
        OperationState::Running => 1,
        OperationState::Completed => 2,
        OperationState::Cancelled => 3,
        OperationState::Failed { .. } => 4,
    }
}

/// The error text stored for an operation state: the reason of a failure, empty otherwise.
pub open spec fn operation_state_error(s: OperationState) -> Seq<char> {
    match s {
        OperationState::Failed { reason } => reason@,
        _ => Seq::empty(),
    }
}

/// The database code of a special feature type.
pub open spec fn special_feature_code(k: SpecialFeatureType) -> u8 {
    match k {
        SpecialFeatureType::NotSpecial => 0,
        SpecialFeatureType::BehindTheScenes => 1,
        SpecialFeatureType::DeletedScenes => 2,
        SpecialFeatureType::Interviews => 3,
        SpecialFeatureType::Scenes => 4,
        SpecialFeatureType::Samples => 5,
        SpecialFeatureType::Shorts => 6,
        SpecialFeatureType::Featurettes => 7,
        SpecialFeatureType::Clips => 8,
        SpecialFeatureType::Extras => 9,
        SpecialFeatureType::Trailers => 10,
    }
}

/// Converts container type to its integral database value.
pub fn container_type_to_sql(container_type: &ContainerType) -> (code: u8)
    ensures
        code == container_type_code(*container_type),
{
    match container_type {
        ContainerType::MKV => 0,
        ContainerType::MP4 => 1,
    }
}

/// Converts media location to its database values: the area code and the path relative to the
/// area's root folder.
pub fn media_location_to_sql(media_location: &MediaLocation) -> (r: (u8, String))
    ensures
        r.0 == media_location_code(*media_location),
        r.1@ == media_location_path(*media_location),
{
    match media_location {
        MediaLocation::Inbox(path) => (1, path.clone()),
        MediaLocation::Library(path) => (2, path.clone()),
        MediaLocation::Archive(path) => (3, path.clone()),
        MediaLocation::Deleted => (4, String::new()),
    }
}

/// Converts media type to the integral value for use in the database.
pub fn media_type_to_sql(media_type: &MediaType) -> (code: u8)
    ensures
        code == media_type_code(*media_type),
{
    match media_type {
        MediaType::Movie => 0,
        MediaType::Show => 1,
    }
}

/// Converts operation state to its database values: the state code and the failure reason,
/// which is empty for every state but `Failed`.
pub fn operation_state_to_sql(state: &OperationState) -> (r: (u8, String))
    ensures
        r.0 == operation_state_code(*state),
        r.1@ == operation_state_error(*state),
{
    match state {
        OperationState::Requested => (0, String::new()),
        OperationState::Running => (1, String::new()),
        OperationState::Completed => (2, String::new()),
        OperationState::Cancelled => (3, String::new()),
        OperationState::Failed { reason } => (4, reason.clone()),
    }
}

/// Converts special feature to its database values: the feature type code and its name.
///
/// No special feature, and a feature of type `NotSpecial`, give code 0 and the empty name.
pub fn special_feature_to_sql(special_feature: &Option<SpecialFeature>) -> (r: (u8, String))
    ensures
        match special_feature {
            None => r.0 == 0 && r.1@.len() == 0,
            Some(f) => {
                &&& r.0 == special_feature_code(f.kind)
                &&& r.1@ == (if f.kind == SpecialFeatureType::NotSpecial { Seq::empty() } else { f.name@ })
            },
        },
{
    match special_feature {
        None => (0, String::new()),
        Some(feature) => {
            match feature.kind {
                SpecialFeatureType::NotSpecial => (0, String::new()),
                SpecialFeatureType::BehindTheScenes => (1, feature.name.clone()),
                SpecialFeatureType::DeletedScenes => (2, feature.name.clone()),
                SpecialFeatureType::Interviews => (3, feature.name.clone()),
                SpecialFeatureType::Scenes => (4, feature.name.clone()),
                SpecialFeatureType::Samples => (5, feature.name.clone()),
                SpecialFeatureType::Shorts => (6, feature.name.clone()),
                SpecialFeatureType::Featurettes => (7, feature.name.clone()),
                SpecialFeatureType::Clips => (8, feature.name.clone()),
                SpecialFeatureType::Extras => (9, feature.name.clone()),
                SpecialFeatureType::Trailers => (10, feature.name.clone()),
            }
        },
    }
}


/// The completion time stored with a state: the time of the change for an operation that
/// ended (completed, cancelled or failed), and zero for one that has not.
pub fn completed_at(state: &OperationState, now: i64) -> (t: i64)
    ensures
        t == (if state is Completed || state is Cancelled || state is Failed {
            now
        } else {
            0
        }),
{
    match state {
        OperationState::Completed | OperationState::Cancelled | OperationState::Failed { .. } => now,
        _ => 0,
    }
}

/// The container type stored as a code, if the code is one.
pub fn container_type_from_sql(code: u8) -> (r: Option<ContainerType>)
    ensures
        match r {
            Some(c) => container_type_code(c) == code,
            None => code > 1,
        },
{
    match code {
        0 => Some(ContainerType::MKV),
        1 => Some(ContainerType::MP4),
        _ => None,
    }
}

/// The media type stored as a code, if the code is one.
pub fn media_type_from_sql(code: u8) -> (r: Option<MediaType>)
    ensures
        match r {
            Some(m) => media_type_code(m) == code,
            None => code > 1,
        },
{
    match code {
        0 => Some(MediaType::Movie),
        1 => Some(MediaType::Show),
        _ => None,
    }
}

/// The special feature type stored as a code, if the code is one.
pub fn special_feature_type_from_sql(code: u8) -> (r: Option<SpecialFeatureType>)
    ensures
        match r {
            Some(k) => special_feature_code(k) == code,
            None => code > 10,
        },
{
    match code {
        0 => Some(SpecialFeatureType::NotSpecial),
        1 => Some(SpecialFeatureType::BehindTheScenes),
        2 => Some(SpecialFeatureType::DeletedScenes),
        3 => Some(SpecialFeatureType::Interviews),
        4 => Some(SpecialFeatureType::Scenes),
        5 => Some(SpecialFeatureType::Samples),
        6 => Some(SpecialFeatureType::Shorts),
        7 => Some(SpecialFeatureType::Featurettes),
        8 => Some(SpecialFeatureType::Clips),
        9 => Some(SpecialFeatureType::Extras),
        10 => Some(SpecialFeatureType::Trailers),
        _ => None,
    }
}

/// The special feature stored as a type code and a name: none for code 0, the feature
/// otherwise, or `Err(())` for a code that is no feature type's.
pub fn special_feature_from_sql(code: u8, name: String) -> (r: Result<Option<SpecialFeature>, ()>)
    ensures
        code == 0 ==> r matches Ok(None),
        1 <= code <= 10 ==> (r matches Ok(Some(f)) && special_feature_code(f.kind) == code && f.name@
            == name@),
        code > 10 ==> r is Err,
{
    if code == 0 {
        return Ok(None);
    }
    match special_feature_type_from_sql(code) {
        Some(kind) => Ok(Some(SpecialFeature { kind, name })),
        None => Err(()),
    }
}

/// Reading a stored container type gives it back.
pub proof fn lemma_container_type_roundtrip(c: ContainerType)
    ensures
        container_type_code(c) <= 1,
        forall|d: ContainerType| container_type_code(d) == container_type_code(c) ==> d == c,
{
}

/// Reading a stored media type gives it back.
pub proof fn lemma_media_type_roundtrip(m: MediaType)
    ensures
        media_type_code(m) <= 1,
        forall|n: MediaType| media_type_code(n) == media_type_code(m) ==> n == m,
{
}

/// Reading a stored special feature type gives it back: distinct types have distinct codes,
/// all of them at most 10.
pub proof fn lemma_special_feature_type_roundtrip(k: SpecialFeatureType)
    ensures
        special_feature_code(k) <= 10,
        forall|j: SpecialFeatureType| special_feature_code(j) == special_feature_code(k) ==> j == k,
{
}

/// Distinct operation states of different kinds are stored with distinct codes, and the
/// failure reason is stored only for failed operations.
pub proof fn lemma_operation_state_codes(a: OperationState, b: OperationState)
    ensures
        operation_state_code(a) == operation_state_code(b) <==> (a is Requested && b is Requested)
            || (a is Running && b is Running) || (a is Completed && b is Completed) || (a is Cancelled
            && b is Cancelled) || (a is Failed && b is Failed),
        !(a is Failed) ==> operation_state_error(a).len() == 0,
{
}

} // verus!
