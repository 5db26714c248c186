use vstd::prelude::*;

verus! {

/// Everything that can go wrong while inspecting or changing a dataset.
#[derive(Debug, PartialEq, Eq)]
pub enum ZfsError {
    SystemError(String),
    DatasetNotFound(String),
    UnexpectedStateForKey(String),
    UnexpectedStateForMount(String),
    IsMountedCheckCallFailed(String, String),
    ListDatasetsMountPointsCallFailed(String),
    ListUnmountedDatasetsCallFailed(String),
    KeyLoadedCheckFailed(String, String),
    LoadKeyCmdFailed(String, String),
    UnloadKeyCmdFailed(String, String),
    KeyNotLoadedForMount(String),
    MountCmdFailed(String, String),
    UnmountCmdFailed(String, String),
    DatasetNameIsInvalid(String),
}

/// The mathematical value of a [`ZfsError`]: the same variants over character sequences.
pub enum ZfsErrorView {
    SystemError(Seq<char>),
    DatasetNotFound(Seq<char>),
    UnexpectedStateForKey(Seq<char>),
    UnexpectedStateForMount(Seq<char>),
    IsMountedCheckCallFailed(Seq<char>, Seq<char>),
    ListDatasetsMountPointsCallFailed(Seq<char>),
    ListUnmountedDatasetsCallFailed(Seq<char>),
    KeyLoadedCheckFailed(Seq<char>, Seq<char>),
    LoadKeyCmdFailed(Seq<char>, Seq<char>),
    UnloadKeyCmdFailed(Seq<char>, Seq<char>),
    KeyNotLoadedForMount(Seq<char>),
    MountCmdFailed(Seq<char>, Seq<char>),
    UnmountCmdFailed(Seq<char>, Seq<char>),
    DatasetNameIsInvalid(Seq<char>),
}

impl View for ZfsError {
    type V = ZfsErrorView;

    open spec fn view(&self) -> ZfsErrorView {
        match self {
            ZfsError::SystemError(a) => ZfsErrorView::SystemError(a@),
            ZfsError::DatasetNotFound(a) => ZfsErrorView::DatasetNotFound(a@),
            ZfsError::UnexpectedStateForKey(a) => ZfsErrorView::UnexpectedStateForKey(a@),
            ZfsError::UnexpectedStateForMount(a) => ZfsErrorView::UnexpectedStateForMount(a@),
            ZfsError::IsMountedCheckCallFailed(a, b) => ZfsErrorView::IsMountedCheckCallFailed(
                a@,
                b@,
            ),
            ZfsError::ListDatasetsMountPointsCallFailed(a) =>
                ZfsErrorView::ListDatasetsMountPointsCallFailed(a@),
            ZfsError::ListUnmountedDatasetsCallFailed(a) =>
                ZfsErrorView::ListUnmountedDatasetsCallFailed(a@),
            ZfsError::KeyLoadedCheckFailed(a, b) => ZfsErrorView::KeyLoadedCheckFailed(a@, b@),
            ZfsError::LoadKeyCmdFailed(a, b) => ZfsErrorView::LoadKeyCmdFailed(a@, b@),
            ZfsError::UnloadKeyCmdFailed(a, b) => ZfsErrorView::UnloadKeyCmdFailed(a@, b@),
            ZfsError::KeyNotLoadedForMount(a) => ZfsErrorView::KeyNotLoadedForMount(a@),
            ZfsError::MountCmdFailed(a, b) => ZfsErrorView::MountCmdFailed(a@, b@),
            ZfsError::UnmountCmdFailed(a, b) => ZfsErrorView::UnmountCmdFailed(a@, b@),
            ZfsError::DatasetNameIsInvalid(a) => ZfsErrorView::DatasetNameIsInvalid(a@),
        }
    }
}

/// The view of a result whose success value is plain.
pub open spec fn result_view<T>(r: Result<T, ZfsError>) -> Result<T, ZfsErrorView> {
    match r {
        Ok(v) => Ok(v),
        Err(e) => Err(e@),
    }
}

} // verus!
