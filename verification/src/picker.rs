//! The file picker pop-up and its model.
use vstd::prelude::*;

verus! {

/// Which pop-up menu is open, with what it lists.
#[derive(Clone)]
pub enum FilePickerState {
    Closed,
    FolderMenu,
    FileMenu { folder_name: String, files: Vec<(String, String)> },
    ReceiveMenu { files: Vec<String> },
}

/// The pop-up menu as plain values: files to send are (label, full path) pairs.
pub enum PickerModel {
    Closed,
    FolderMenu,
    FileMenu { folder_name: Seq<char>, files: Seq<(Seq<char>, Seq<char>)> },
    ReceiveMenu { files: Seq<Seq<char>> },
}

impl View for FilePickerState {
    type V = PickerModel;

    open spec fn view(&self) -> PickerModel {
        match self {
            FilePickerState::Closed => PickerModel::Closed,
            FilePickerState::FolderMenu => PickerModel::FolderMenu,
            FilePickerState::FileMenu { folder_name, files } => PickerModel::FileMenu {
                folder_name: folder_name@,
                files: files.deep_view(),
            },
            FilePickerState::ReceiveMenu { files } => PickerModel::ReceiveMenu {
                files: files.deep_view(),
            },
        }
    }
}

} // verus!
