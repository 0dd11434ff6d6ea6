use std::str::FromStr;

use vstd::prelude::*;
use vstd::utf8::encode_utf8;

use crate::protocol::error::ProtocolError;

verus! {

/// The message types of the websocket protocol.
#[derive(Debug, Clone, Copy, PartialEq, Eq, Hash, Structural)]
pub enum Action {
    Authorization,
    ClientInfo,
    FolderSync,
    FolderModify,
    FolderDelete,
    FolderRename,
    FolderSyncModify,
    FolderSyncDelete,
    FolderSyncEnd,
    FolderSyncRename,
    FolderModifyAck,
    FolderRenameAck,
    FolderDeleteAck,
    NoteSync,
    NoteModify,
    NoteDelete,
    NoteRename,
    NoteCheck,
    NoteRePush,
    NoteSyncModify,
    NoteSyncDelete,
    NoteSyncRename,
    NoteSyncMtime,
    NoteSyncNeedPush,
    NoteSyncEnd,
    NoteModifyAck,
    NoteRenameAck,
    NoteDeleteAck,
    FileSync,
    FileUploadCheck,
    FileDelete,
    FileRename,
    FileChunkDownload,
    FileRePush,
    FileSyncUpdate,
    FileSyncDelete,
    FileSyncRename,
    FileSyncMtime,
    FileSyncEnd,
    FileUpload,
    FileSyncChunkDownload,
    FileRenameAck,
    FileUploadAck,
    FileDeleteAck,
    SettingSync,
    SettingModify,
    SettingDelete,
    SettingCheck,
    SettingClear,
    SettingRePush,
    SettingSyncModify,
    SettingSyncDelete,
    SettingSyncMtime,
    SettingSyncEnd,
    SettingSyncNeedUpload,
    SettingSyncClear,
    SettingModifyAck,
    SettingDeleteAck,
}

/// The name of an action on the wire.
pub open spec fn action_name(a: Action) -> Seq<char> {
    match a {
        Action::Authorization => "Authorization"@,
        Action::ClientInfo => "ClientInfo"@,
        Action::FolderSync => "FolderSync"@,
        Action::FolderModify => "FolderModify"@,
        Action::FolderDelete => "FolderDelete"@,
        Action::FolderRename => "FolderRename"@,
        Action::FolderSyncModify => "FolderSyncModify"@,
        Action::FolderSyncDelete => "FolderSyncDelete"@,
        Action::FolderSyncEnd => "FolderSyncEnd"@,
        Action::FolderSyncRename => "FolderSyncRename"@,
        Action::FolderModifyAck => "FolderModifyAck"@,
        Action::FolderRenameAck => "FolderRenameAck"@,
        Action::FolderDeleteAck => "FolderDeleteAck"@,
        Action::NoteSync => "NoteSync"@,
        Action::NoteModify => "NoteModify"@,
        Action::NoteDelete => "NoteDelete"@,
        Action::NoteRename => "NoteRename"@,
        Action::NoteCheck => "NoteCheck"@,
        Action::NoteRePush => "NoteRePush"@,
        Action::NoteSyncModify => "NoteSyncModify"@,
        Action::NoteSyncDelete => "NoteSyncDelete"@,
        Action::NoteSyncRename => "NoteSyncRename"@,
        Action::NoteSyncMtime => "NoteSyncMtime"@,
        Action::NoteSyncNeedPush => "NoteSyncNeedPush"@,
        Action::NoteSyncEnd => "NoteSyncEnd"@,
        Action::NoteModifyAck => "NoteModifyAck"@,
        Action::NoteRenameAck => "NoteRenameAck"@,
        Action::NoteDeleteAck => "NoteDeleteAck"@,
        Action::FileSync => "FileSync"@,
        Action::FileUploadCheck => "FileUploadCheck"@,
        Action::FileDelete => "FileDelete"@,
        Action::FileRename => "FileRename"@,
        Action::FileChunkDownload => "FileChunkDownload"@,
        Action::FileRePush => "FileRePush"@,
        Action::FileSyncUpdate => "FileSyncUpdate"@,
        Action::FileSyncDelete => "FileSyncDelete"@,
        Action::FileSyncRename => "FileSyncRename"@,
        Action::FileSyncMtime => "FileSyncMtime"@,
        Action::FileSyncEnd => "FileSyncEnd"@,
        Action::FileUpload => "FileUpload"@,
        Action::FileSyncChunkDownload => "FileSyncChunkDownload"@,
        Action::FileRenameAck => "FileRenameAck"@,
        Action::FileUploadAck => "FileUploadAck"@,
        Action::FileDeleteAck => "FileDeleteAck"@,
        Action::SettingSync => "SettingSync"@,
        Action::SettingModify => "SettingModify"@,
        Action::SettingDelete => "SettingDelete"@,
        Action::SettingCheck => "SettingCheck"@,
        Action::SettingClear => "SettingClear"@,
        Action::SettingRePush => "SettingRePush"@,
        Action::SettingSyncModify => "SettingSyncModify"@,
        Action::SettingSyncDelete => "SettingSyncDelete"@,
        Action::SettingSyncMtime => "SettingSyncMtime"@,
        Action::SettingSyncEnd => "SettingSyncEnd"@,
        Action::SettingSyncNeedUpload => "SettingSyncNeedUpload"@,
        Action::SettingSyncClear => "SettingSyncClear"@,
        Action::SettingModifyAck => "SettingModifyAck"@,
        Action::SettingDeleteAck => "SettingDeleteAck"@,
    }
}

/// The action named `s`, if any.
pub open spec fn action_from_name(s: Seq<char>) -> Option<Action> {
    if s == "Authorization"@ {
        Some(Action::Authorization)
    } else if s == "ClientInfo"@ {
        Some(Action::ClientInfo)
    } else if s == "FolderSync"@ {
        Some(Action::FolderSync)
    } else if s == "FolderModify"@ {
        Some(Action::FolderModify)
    } else if s == "FolderDelete"@ {
        Some(Action::FolderDelete)
    } else if s == "FolderRename"@ {
        Some(Action::FolderRename)
    } else if s == "FolderSyncModify"@ {
        Some(Action::FolderSyncModify)
    } else if s == "FolderSyncDelete"@ {
        Some(Action::FolderSyncDelete)
    } else if s == "FolderSyncEnd"@ {
        Some(Action::FolderSyncEnd)
    } else if s == "FolderSyncRename"@ {
        Some(Action::FolderSyncRename)
    } else if s == "FolderModifyAck"@ {
        Some(Action::FolderModifyAck)
    } else if s == "FolderRenameAck"@ {
        Some(Action::FolderRenameAck)
    } else if s == "FolderDeleteAck"@ {
        Some(Action::FolderDeleteAck)
    } else if s == "NoteSync"@ {
        Some(Action::NoteSync)
    } else if s == "NoteModify"@ {
        Some(Action::NoteModify)
    } else if s == "NoteDelete"@ {
        Some(Action::NoteDelete)
    } else if s == "NoteRename"@ {
        Some(Action::NoteRename)
    } else if s == "NoteCheck"@ {
        Some(Action::NoteCheck)
    } else if s == "NoteRePush"@ {
        Some(Action::NoteRePush)
    } else if s == "NoteSyncModify"@ {
        Some(Action::NoteSyncModify)
    } else if s == "NoteSyncDelete"@ {
        Some(Action::NoteSyncDelete)
    } else if s == "NoteSyncRename"@ {
        Some(Action::NoteSyncRename)
    } else if s == "NoteSyncMtime"@ {
        Some(Action::NoteSyncMtime)
    } else if s == "NoteSyncNeedPush"@ {
        Some(Action::NoteSyncNeedPush)
    } else if s == "NoteSyncEnd"@ {
        Some(Action::NoteSyncEnd)
    } else if s == "NoteModifyAck"@ {
        Some(Action::NoteModifyAck)
    } else if s == "NoteRenameAck"@ {
        Some(Action::NoteRenameAck)
    } else if s == "NoteDeleteAck"@ {
        Some(Action::NoteDeleteAck)
    } else if s == "FileSync"@ {
        Some(Action::FileSync)
    } else if s == "FileUploadCheck"@ {
        Some(Action::FileUploadCheck)
    } else if s == "FileDelete"@ {
        Some(Action::FileDelete)
    } else if s == "FileRename"@ {
        Some(Action::FileRename)
    } else if s == "FileChunkDownload"@ {
        Some(Action::FileChunkDownload)
    } else if s == "FileRePush"@ {
        Some(Action::FileRePush)
    } else if s == "FileSyncUpdate"@ {
        Some(Action::FileSyncUpdate)
    } else if s == "FileSyncDelete"@ {
        Some(Action::FileSyncDelete)
    } else if s == "FileSyncRename"@ {
        Some(Action::FileSyncRename)
    } else if s == "FileSyncMtime"@ {
        Some(Action::FileSyncMtime)
    } else if s == "FileSyncEnd"@ {
        Some(Action::FileSyncEnd)
    } else if s == "FileUpload"@ {
        Some(Action::FileUpload)
    } else if s == "FileSyncChunkDownload"@ {
        Some(Action::FileSyncChunkDownload)
    } else if s == "FileRenameAck"@ {
        Some(Action::FileRenameAck)
    } else if s == "FileUploadAck"@ {
        Some(Action::FileUploadAck)
    } else if s == "FileDeleteAck"@ {
        Some(Action::FileDeleteAck)
    } else if s == "SettingSync"@ {
        Some(Action::SettingSync)
    } else if s == "SettingModify"@ {
        Some(Action::SettingModify)
    } else if s == "SettingDelete"@ {
        Some(Action::SettingDelete)
    } else if s == "SettingCheck"@ {
        Some(Action::SettingCheck)
    } else if s == "SettingClear"@ {
        Some(Action::SettingClear)
    } else if s == "SettingRePush"@ {
        Some(Action::SettingRePush)
    } else if s == "SettingSyncModify"@ {
        Some(Action::SettingSyncModify)
    } else if s == "SettingSyncDelete"@ {
        Some(Action::SettingSyncDelete)
    } else if s == "SettingSyncMtime"@ {
        Some(Action::SettingSyncMtime)
    } else if s == "SettingSyncEnd"@ {
        Some(Action::SettingSyncEnd)
    } else if s == "SettingSyncNeedUpload"@ {
        Some(Action::SettingSyncNeedUpload)
    } else if s == "SettingSyncClear"@ {
        Some(Action::SettingSyncClear)
    } else if s == "SettingModifyAck"@ {
        Some(Action::SettingModifyAck)
    } else if s == "SettingDeleteAck"@ {
        Some(Action::SettingDeleteAck)
    } else {
        None
    }
}

/// Whether two strings hold the same text, compared byte by byte.
fn str_eq(a: &str, b: &str) -> (r: bool)
    ensures
        r == (a@ == b@),
{
    let x = a.as_bytes();
    let y = b.as_bytes();
    proof {
        vstd::utf8::encode_utf8_decode_utf8(a@);
        vstd::utf8::encode_utf8_decode_utf8(b@);
    }
    if x.len() != y.len() {
        return false;
    }
    let mut i: usize = 0;
    while i < x.len()
        invariant
            x@ == encode_utf8(a@),
            y@ == encode_utf8(b@),
            x@.len() == y@.len(),
            i <= x@.len(),
            forall|j: int| 0 <= j < i ==> x@[j] == y@[j],
        decreases x@.len() - i,
    {
        if x[i] != y[i] {
            assert(x@[i as int] != y@[i as int]);
            assert(x@ != y@);
            return false;
        }
        i = i + 1;
    }
    assert(x@ =~= y@);
    true
}

impl Action {
    /// The name of the action on the wire.
    pub fn as_str(&self) -> (r: &'static str)
        ensures
            r@ == action_name(*self),
    {
        match self {
            Action::Authorization => "Authorization",
            Action::ClientInfo => "ClientInfo",
            Action::FolderSync => "FolderSync",
            Action::FolderModify => "FolderModify",
            Action::FolderDelete => "FolderDelete",
            Action::FolderRename => "FolderRename",
            Action::FolderSyncModify => "FolderSyncModify",
            Action::FolderSyncDelete => "FolderSyncDelete",
            Action::FolderSyncEnd => "FolderSyncEnd",
            Action::FolderSyncRename => "FolderSyncRename",
            Action::FolderModifyAck => "FolderModifyAck",
            Action::FolderRenameAck => "FolderRenameAck",
            Action::FolderDeleteAck => "FolderDeleteAck",
            Action::NoteSync => "NoteSync",
            Action::NoteModify => "NoteModify",
            Action::NoteDelete => "NoteDelete",
            Action::NoteRename => "NoteRename",
            Action::NoteCheck => "NoteCheck",
            Action::NoteRePush => "NoteRePush",
            Action::NoteSyncModify => "NoteSyncModify",
            Action::NoteSyncDelete => "NoteSyncDelete",
            Action::NoteSyncRename => "NoteSyncRename",
            Action::NoteSyncMtime => "NoteSyncMtime",
            Action::NoteSyncNeedPush => "NoteSyncNeedPush",
            Action::NoteSyncEnd => "NoteSyncEnd",
            Action::NoteModifyAck => "NoteModifyAck",
            Action::NoteRenameAck => "NoteRenameAck",
            Action::NoteDeleteAck => "NoteDeleteAck",
            Action::FileSync => "FileSync",
            Action::FileUploadCheck => "FileUploadCheck",
            Action::FileDelete => "FileDelete",
            Action::FileRename => "FileRename",
            Action::FileChunkDownload => "FileChunkDownload",
            Action::FileRePush => "FileRePush",
            Action::FileSyncUpdate => "FileSyncUpdate",
            Action::FileSyncDelete => "FileSyncDelete",
            Action::FileSyncRename => "FileSyncRename",
            Action::FileSyncMtime => "FileSyncMtime",
            Action::FileSyncEnd => "FileSyncEnd",
            Action::FileUpload => "FileUpload",
            Action::FileSyncChunkDownload => "FileSyncChunkDownload",
            Action::FileRenameAck => "FileRenameAck",
            Action::FileUploadAck => "FileUploadAck",
            Action::FileDeleteAck => "FileDeleteAck",
            Action::SettingSync => "SettingSync",
            Action::SettingModify => "SettingModify",
            Action::SettingDelete => "SettingDelete",
            Action::SettingCheck => "SettingCheck",
            Action::SettingClear => "SettingClear",
            Action::SettingRePush => "SettingRePush",
            Action::SettingSyncModify => "SettingSyncModify",
            Action::SettingSyncDelete => "SettingSyncDelete",
            Action::SettingSyncMtime => "SettingSyncMtime",
            Action::SettingSyncEnd => "SettingSyncEnd",
            Action::SettingSyncNeedUpload => "SettingSyncNeedUpload",
            Action::SettingSyncClear => "SettingSyncClear",
            Action::SettingModifyAck => "SettingModifyAck",
            Action::SettingDeleteAck => "SettingDeleteAck",
        }
    }

    /// The action named `value`; unknown names are refused.
    pub fn parse(value: &str) -> (r: Result<Action, ProtocolError>)
        ensures
            match action_from_name(value@) {
                Some(a) => r == Ok::<Action, ProtocolError>(a),
                None => r matches Err(e) && e matches ProtocolError::UnknownAction(s) && s@ == value@,
            },
    {
        if str_eq(value, "Authorization") {
            Ok(Action::Authorization)
        } else if str_eq(value, "ClientInfo") {
            Ok(Action::ClientInfo)
        } else if str_eq(value, "FolderSync") {
            Ok(Action::FolderSync)
        } else if str_eq(value, "FolderModify") {
            Ok(Action::FolderModify)
        } else if str_eq(value, "FolderDelete") {
            Ok(Action::FolderDelete)
        } else if str_eq(value, "FolderRename") {
            Ok(Action::FolderRename)
        } else if str_eq(value, "FolderSyncModify") {
            Ok(Action::FolderSyncModify)
        } else if str_eq(value, "FolderSyncDelete") {
            Ok(Action::FolderSyncDelete)
        } else if str_eq(value, "FolderSyncEnd") {
            Ok(Action::FolderSyncEnd)
        } else if str_eq(value, "FolderSyncRename") {
            Ok(Action::FolderSyncRename)
        } else if str_eq(value, "FolderModifyAck") {
            Ok(Action::FolderModifyAck)
        } else if str_eq(value, "FolderRenameAck") {
            Ok(Action::FolderRenameAck)
        } else if str_eq(value, "FolderDeleteAck") {
            Ok(Action::FolderDeleteAck)
        } else if str_eq(value, "NoteSync") {
            Ok(Action::NoteSync)
        } else if str_eq(value, "NoteModify") {
            Ok(Action::NoteModify)
        } else if str_eq(value, "NoteDelete") {
            Ok(Action::NoteDelete)
        } else if str_eq(value, "NoteRename") {
            Ok(Action::NoteRename)
        } else if str_eq(value, "NoteCheck") {
            Ok(Action::NoteCheck)
        } else if str_eq(value, "NoteRePush") {
            Ok(Action::NoteRePush)
        } else if str_eq(value, "NoteSyncModify") {
            Ok(Action::NoteSyncModify)
        } else if str_eq(value, "NoteSyncDelete") {
            Ok(Action::NoteSyncDelete)
        } else if str_eq(value, "NoteSyncRename") {
            Ok(Action::NoteSyncRename)
        } else if str_eq(value, "NoteSyncMtime") {
            Ok(Action::NoteSyncMtime)
        } else if str_eq(value, "NoteSyncNeedPush") {
            Ok(Action::NoteSyncNeedPush)
        } else if str_eq(value, "NoteSyncEnd") {
            Ok(Action::NoteSyncEnd)
        } else if str_eq(value, "NoteModifyAck") {
            Ok(Action::NoteModifyAck)
        } else if str_eq(value, "NoteRenameAck") {
            Ok(Action::NoteRenameAck)
        } else if str_eq(value, "NoteDeleteAck") {
            Ok(Action::NoteDeleteAck)
        } else if str_eq(value, "FileSync") {
            Ok(Action::FileSync)
        } else if str_eq(value, "FileUploadCheck") {
            Ok(Action::FileUploadCheck)
        } else if str_eq(value, "FileDelete") {
            Ok(Action::FileDelete)
        } else if str_eq(value, "FileRename") {
            Ok(Action::FileRename)
        } else if str_eq(value, "FileChunkDownload") {
            Ok(Action::FileChunkDownload)
        } else if str_eq(value, "FileRePush") {
            Ok(Action::FileRePush)
        } else if str_eq(value, "FileSyncUpdate") {
            Ok(Action::FileSyncUpdate)
        } else if str_eq(value, "FileSyncDelete") {
            Ok(Action::FileSyncDelete)
        } else if str_eq(value, "FileSyncRename") {
            Ok(Action::FileSyncRename)
        } else if str_eq(value, "FileSyncMtime") {
            Ok(Action::FileSyncMtime)
        } else if str_eq(value, "FileSyncEnd") {
            Ok(Action::FileSyncEnd)
        } else if str_eq(value, "FileUpload") {
            Ok(Action::FileUpload)
        } else if str_eq(value, "FileSyncChunkDownload") {
            Ok(Action::FileSyncChunkDownload)
        } else if str_eq(value, "FileRenameAck") {
            Ok(Action::FileRenameAck)
        } else if str_eq(value, "FileUploadAck") {
            Ok(Action::FileUploadAck)
        } else if str_eq(value, "FileDeleteAck") {
            Ok(Action::FileDeleteAck)
        } else if str_eq(value, "SettingSync") {
            Ok(Action::SettingSync)
        } else if str_eq(value, "SettingModify") {
            Ok(Action::SettingModify)
        } else if str_eq(value, "SettingDelete") {
            Ok(Action::SettingDelete)
        } else if str_eq(value, "SettingCheck") {
            Ok(Action::SettingCheck)
        } else if str_eq(value, "SettingClear") {
            Ok(Action::SettingClear)
        } else if str_eq(value, "SettingRePush") {
            Ok(Action::SettingRePush)
        } else if str_eq(value, "SettingSyncModify") {
            Ok(Action::SettingSyncModify)
        } else if str_eq(value, "SettingSyncDelete") {
            Ok(Action::SettingSyncDelete)
        } else if str_eq(value, "SettingSyncMtime") {
            Ok(Action::SettingSyncMtime)
        } else if str_eq(value, "SettingSyncEnd") {
            Ok(Action::SettingSyncEnd)
        } else if str_eq(value, "SettingSyncNeedUpload") {
            Ok(Action::SettingSyncNeedUpload)
        } else if str_eq(value, "SettingSyncClear") {
            Ok(Action::SettingSyncClear)
        } else if str_eq(value, "SettingModifyAck") {
            Ok(Action::SettingModifyAck)
        } else if str_eq(value, "SettingDeleteAck") {
            Ok(Action::SettingDeleteAck)
        } else {
            Err(ProtocolError::UnknownAction(value.to_owned()))
        }
    }
}

impl<'a> TryFrom<&'a str> for Action {
    type Error = ProtocolError;

    fn try_from(value: &'a str) -> (r: Result<Action, ProtocolError>)
        ensures
            match action_from_name(value@) {
                Some(a) => r == Ok::<Action, ProtocolError>(a),
                None => r matches Err(e) && e matches ProtocolError::UnknownAction(s) && s@ == value@,
            },
    {
        Action::parse(value)
    }
}

/// The conversions from text state their results in their own contracts,
/// which are those of [`Action::parse`].
impl<'a> vstd::std_specs::convert::TryFromSpecImpl<&'a str> for Action {
    open spec fn obeys_try_from_spec() -> bool {
        false
    }

    open spec fn try_from_spec(v: &'a str) -> Result<Action, ProtocolError> {
        arbitrary()
    }
}

impl TryFrom<String> for Action {
    type Error = ProtocolError;

    fn try_from(value: String) -> (r: Result<Action, ProtocolError>)
        ensures
            match action_from_name(value@) {
                Some(a) => r == Ok::<Action, ProtocolError>(a),
                None => r matches Err(e) && e matches ProtocolError::UnknownAction(s) && s@ == value@,
            },
    {
        Action::parse(value.as_str())
    }
}

impl vstd::std_specs::convert::TryFromSpecImpl<String> for Action {
    open spec fn obeys_try_from_spec() -> bool {
        false
    }

    open spec fn try_from_spec(v: String) -> Result<Action, ProtocolError> {
        arbitrary()
    }
}

impl FromStr for Action {
    type Err = ProtocolError;

    fn from_str(value: &str) -> (r: Result<Action, ProtocolError>)
        ensures
            match action_from_name(value@) {
                Some(a) => r == Ok::<Action, ProtocolError>(a),
                None => r matches Err(e) && e matches ProtocolError::UnknownAction(s) && s@ == value@,
            },
    {
        Action::parse(value)
    }
}

} // verus!

verus! {

/// The lengths of the action names, and the characters that tell apart
/// names of equal length.
proof fn lemma_action_name_shapes()
    ensures
        "Authorization"@.len() == 13,
        "ClientInfo"@.len() == 10,
        "FolderSync"@.len() == 10,
        "FolderModify"@.len() == 12,
        "FolderDelete"@.len() == 12,
        "FolderRename"@.len() == 12,
        "FolderSyncModify"@.len() == 16,
        "FolderSyncDelete"@.len() == 16,
        "FolderSyncEnd"@.len() == 13,
        "FolderSyncRename"@.len() == 16,
        "FolderModifyAck"@.len() == 15,
        "FolderRenameAck"@.len() == 15,
        "FolderDeleteAck"@.len() == 15,
        "NoteSync"@.len() == 8,
        "NoteModify"@.len() == 10,
        "NoteDelete"@.len() == 10,
        "NoteRename"@.len() == 10,
        "NoteCheck"@.len() == 9,
        "NoteRePush"@.len() == 10,
        "NoteSyncModify"@.len() == 14,
        "NoteSyncDelete"@.len() == 14,
        "NoteSyncRename"@.len() == 14,
        "NoteSyncMtime"@.len() == 13,
        "NoteSyncNeedPush"@.len() == 16,
        "NoteSyncEnd"@.len() == 11,
        "NoteModifyAck"@.len() == 13,
        "NoteRenameAck"@.len() == 13,
        "NoteDeleteAck"@.len() == 13,
        "FileSync"@.len() == 8,
        "FileUploadCheck"@.len() == 15,
        "FileDelete"@.len() == 10,
        "FileRename"@.len() == 10,
        "FileChunkDownload"@.len() == 17,
        "FileRePush"@.len() == 10,
        "FileSyncUpdate"@.len() == 14,
        "FileSyncDelete"@.len() == 14,
        "FileSyncRename"@.len() == 14,
        "FileSyncMtime"@.len() == 13,
        "FileSyncEnd"@.len() == 11,
        "FileUpload"@.len() == 10,
        "FileSyncChunkDownload"@.len() == 21,
        "FileRenameAck"@.len() == 13,
        "FileUploadAck"@.len() == 13,
        "FileDeleteAck"@.len() == 13,
        "SettingSync"@.len() == 11,
        "SettingModify"@.len() == 13,
        "SettingDelete"@.len() == 13,
        "SettingCheck"@.len() == 12,
        "SettingClear"@.len() == 12,
        "SettingRePush"@.len() == 13,
        "SettingSyncModify"@.len() == 17,
        "SettingSyncDelete"@.len() == 17,
        "SettingSyncMtime"@.len() == 16,
        "SettingSyncEnd"@.len() == 14,
        "SettingSyncNeedUpload"@.len() == 21,
        "SettingSyncClear"@.len() == 16,
        "SettingModifyAck"@.len() == 16,
        "SettingDeleteAck"@.len() == 16,
        "Authorization"@[0] == 'A',
        "ClientInfo"@[0] == 'C',
        "FileChunkDownload"@[0] == 'F',
        "FileDelete"@[0] == 'F',
        "FileDelete"@[1] == 'i',
        "FileDelete"@[4] == 'D',
        "FileDeleteAck"@[0] == 'F',
        "FileDeleteAck"@[1] == 'i',
        "FileDeleteAck"@[4] == 'D',
        "FileRePush"@[0] == 'F',
        "FileRePush"@[1] == 'i',
        "FileRePush"@[4] == 'R',
        "FileRePush"@[6] == 'P',
        "FileRename"@[0] == 'F',
        "FileRename"@[1] == 'i',
        "FileRename"@[4] == 'R',
        "FileRename"@[6] == 'n',
        "FileRenameAck"@[0] == 'F',
        "FileRenameAck"@[1] == 'i',
        "FileRenameAck"@[4] == 'R',
        "FileSync"@[0] == 'F',
        "FileSyncChunkDownload"@[0] == 'F',
        "FileSyncDelete"@[0] == 'F',
        "FileSyncDelete"@[8] == 'D',
        "FileSyncEnd"@[0] == 'F',
        "FileSyncMtime"@[0] == 'F',
        "FileSyncMtime"@[1] == 'i',
        "FileSyncMtime"@[4] == 'S',
        "FileSyncRename"@[0] == 'F',
        "FileSyncRename"@[8] == 'R',
        "FileSyncUpdate"@[0] == 'F',
        "FileSyncUpdate"@[8] == 'U',
        "FileUpload"@[0] == 'F',
        "FileUpload"@[1] == 'i',
        "FileUpload"@[4] == 'U',
        "FileUploadAck"@[0] == 'F',
        "FileUploadAck"@[1] == 'i',
        "FileUploadAck"@[4] == 'U',
        "FileUploadCheck"@[1] == 'i',
        "FolderDelete"@[0] == 'F',
        "FolderDelete"@[6] == 'D',
        "FolderDeleteAck"@[1] == 'o',
        "FolderDeleteAck"@[6] == 'D',
        "FolderModify"@[0] == 'F',
        "FolderModify"@[6] == 'M',
        "FolderModifyAck"@[1] == 'o',
        "FolderModifyAck"@[6] == 'M',
        "FolderRename"@[0] == 'F',
        "FolderRename"@[6] == 'R',
        "FolderRenameAck"@[1] == 'o',
        "FolderRenameAck"@[6] == 'R',
        "FolderSync"@[0] == 'F',
        "FolderSync"@[1] == 'o',
        "FolderSyncDelete"@[0] == 'F',
        "FolderSyncDelete"@[10] == 'D',
        "FolderSyncEnd"@[0] == 'F',
        "FolderSyncEnd"@[1] == 'o',
        "FolderSyncModify"@[0] == 'F',
        "FolderSyncModify"@[10] == 'M',
        "FolderSyncRename"@[0] == 'F',
        "FolderSyncRename"@[10] == 'R',
        "NoteDelete"@[0] == 'N',
        "NoteDelete"@[4] == 'D',
        "NoteDeleteAck"@[0] == 'N',
        "NoteDeleteAck"@[4] == 'D',
        "NoteModify"@[0] == 'N',
        "NoteModify"@[4] == 'M',
        "NoteModifyAck"@[0] == 'N',
        "NoteModifyAck"@[4] == 'M',
        "NoteRePush"@[0] == 'N',
        "NoteRePush"@[4] == 'R',
        "NoteRePush"@[6] == 'P',
        "NoteRename"@[0] == 'N',
        "NoteRename"@[4] == 'R',
        "NoteRename"@[6] == 'n',
        "NoteRenameAck"@[0] == 'N',
        "NoteRenameAck"@[4] == 'R',
        "NoteSync"@[0] == 'N',
        "NoteSyncDelete"@[0] == 'N',
        "NoteSyncDelete"@[8] == 'D',
        "NoteSyncEnd"@[0] == 'N',
        "NoteSyncModify"@[0] == 'N',
        "NoteSyncModify"@[8] == 'M',
        "NoteSyncMtime"@[0] == 'N',
        "NoteSyncMtime"@[4] == 'S',
        "NoteSyncNeedPush"@[0] == 'N',
        "NoteSyncRename"@[0] == 'N',
        "NoteSyncRename"@[8] == 'R',
        "SettingCheck"@[0] == 'S',
        "SettingCheck"@[8] == 'h',
        "SettingClear"@[0] == 'S',
        "SettingClear"@[8] == 'l',
        "SettingDelete"@[0] == 'S',
        "SettingDelete"@[7] == 'D',
        "SettingDeleteAck"@[0] == 'S',
        "SettingDeleteAck"@[7] == 'D',
        "SettingModify"@[0] == 'S',
        "SettingModify"@[7] == 'M',
        "SettingModifyAck"@[0] == 'S',
        "SettingModifyAck"@[7] == 'M',
        "SettingRePush"@[0] == 'S',
        "SettingRePush"@[7] == 'R',
        "SettingSync"@[0] == 'S',
        "SettingSyncClear"@[0] == 'S',
        "SettingSyncClear"@[7] == 'S',
        "SettingSyncClear"@[11] == 'C',
        "SettingSyncDelete"@[0] == 'S',
        "SettingSyncDelete"@[11] == 'D',
        "SettingSyncEnd"@[0] == 'S',
        "SettingSyncModify"@[0] == 'S',
        "SettingSyncModify"@[11] == 'M',
        "SettingSyncMtime"@[0] == 'S',
        "SettingSyncMtime"@[7] == 'S',
        "SettingSyncMtime"@[11] == 'M',
        "SettingSyncNeedUpload"@[0] == 'S',
{
    reveal_strlit("Authorization");
    reveal_strlit("ClientInfo");
    reveal_strlit("FolderSync");
    reveal_strlit("FolderModify");
    reveal_strlit("FolderDelete");
    reveal_strlit("FolderRename");
    reveal_strlit("FolderSyncModify");
    reveal_strlit("FolderSyncDelete");
    reveal_strlit("FolderSyncEnd");
    reveal_strlit("FolderSyncRename");
    reveal_strlit("FolderModifyAck");
    reveal_strlit("FolderRenameAck");
    reveal_strlit("FolderDeleteAck");
    reveal_strlit("NoteSync");
    reveal_strlit("NoteModify");
    reveal_strlit("NoteDelete");
    reveal_strlit("NoteRename");
    reveal_strlit("NoteCheck");
    reveal_strlit("NoteRePush");
    reveal_strlit("NoteSyncModify");
    reveal_strlit("NoteSyncDelete");
    reveal_strlit("NoteSyncRename");
    reveal_strlit("NoteSyncMtime");
    reveal_strlit("NoteSyncNeedPush");
    reveal_strlit("NoteSyncEnd");
    reveal_strlit("NoteModifyAck");
    reveal_strlit("NoteRenameAck");
    reveal_strlit("NoteDeleteAck");
    reveal_strlit("FileSync");
    reveal_strlit("FileUploadCheck");
    reveal_strlit("FileDelete");
    reveal_strlit("FileRename");
    reveal_strlit("FileChunkDownload");
    reveal_strlit("FileRePush");
    reveal_strlit("FileSyncUpdate");
    reveal_strlit("FileSyncDelete");
    reveal_strlit("FileSyncRename");
    reveal_strlit("FileSyncMtime");
    reveal_strlit("FileSyncEnd");
    reveal_strlit("FileUpload");
    reveal_strlit("FileSyncChunkDownload");
    reveal_strlit("FileRenameAck");
    reveal_strlit("FileUploadAck");
    reveal_strlit("FileDeleteAck");
    reveal_strlit("SettingSync");
    reveal_strlit("SettingModify");
    reveal_strlit("SettingDelete");
    reveal_strlit("SettingCheck");
    reveal_strlit("SettingClear");
    reveal_strlit("SettingRePush");
    reveal_strlit("SettingSyncModify");
    reveal_strlit("SettingSyncDelete");
    reveal_strlit("SettingSyncMtime");
    reveal_strlit("SettingSyncEnd");
    reveal_strlit("SettingSyncNeedUpload");
    reveal_strlit("SettingSyncClear");
    reveal_strlit("SettingModifyAck");
    reveal_strlit("SettingDeleteAck");
}

/// Law: every action's wire name reads back as that action.
pub proof fn lemma_action_name_roundtrip(a: Action)
    ensures
        action_from_name(action_name(a)) == Some(a),
{
    lemma_action_name_shapes();
    match a {
        Action::Authorization => {},
        Action::ClientInfo => {},
        Action::FolderSync => {},
        Action::FolderModify => {},
        Action::FolderDelete => {},
        Action::FolderRename => {},
        Action::FolderSyncModify => {},
        Action::FolderSyncDelete => {},
        Action::FolderSyncEnd => {},
        Action::FolderSyncRename => {},
        Action::FolderModifyAck => {},
        Action::FolderRenameAck => {},
        Action::FolderDeleteAck => {},
        Action::NoteSync => {},
        Action::NoteModify => {},
        Action::NoteDelete => {},
        Action::NoteRename => {},
        Action::NoteCheck => {},
        Action::NoteRePush => {},
        Action::NoteSyncModify => {},
        Action::NoteSyncDelete => {},
        Action::NoteSyncRename => {},
        Action::NoteSyncMtime => {},
        Action::NoteSyncNeedPush => {},
        Action::NoteSyncEnd => {},
        Action::NoteModifyAck => {},
        Action::NoteRenameAck => {},
        Action::NoteDeleteAck => {},
        Action::FileSync => {},
        Action::FileUploadCheck => {},
        Action::FileDelete => {},
        Action::FileRename => {},
        Action::FileChunkDownload => {},
        Action::FileRePush => {},
        Action::FileSyncUpdate => {},
        Action::FileSyncDelete => {},
        Action::FileSyncRename => {},
        Action::FileSyncMtime => {},
        Action::FileSyncEnd => {},
        Action::FileUpload => {},
        Action::FileSyncChunkDownload => {},
        Action::FileRenameAck => {},
        Action::FileUploadAck => {},
        Action::FileDeleteAck => {},
        Action::SettingSync => {},
        Action::SettingModify => {},
        Action::SettingDelete => {},
        Action::SettingCheck => {},
        Action::SettingClear => {},
        Action::SettingRePush => {},
        Action::SettingSyncModify => {},
        Action::SettingSyncDelete => {},
        Action::SettingSyncMtime => {},
        Action::SettingSyncEnd => {},
        Action::SettingSyncNeedUpload => {},
        Action::SettingSyncClear => {},
        Action::SettingModifyAck => {},
        Action::SettingDeleteAck => {},
    }
}

/// Law: distinct actions have distinct wire names.
pub proof fn lemma_action_name_injective(a: Action, b: Action)
    requires
        action_name(a) == action_name(b),
    ensures
        a == b,
{
    lemma_action_name_roundtrip(a);
    lemma_action_name_roundtrip(b);
}

} // verus!

verus! {

/// Law: every action goes on the wire under its own protocol name, the
/// name of the action itself, and each such name reads back as that
/// action; `Action::as_str` and `Action::parse` follow these names.
pub proof fn lemma_action_wire_names()
    ensures
        action_name(Action::Authorization) == "Authorization"@,
        action_name(Action::ClientInfo) == "ClientInfo"@,
        action_name(Action::FolderSync) == "FolderSync"@,
        action_name(Action::FolderModify) == "FolderModify"@,
        action_name(Action::FolderDelete) == "FolderDelete"@,
        action_name(Action::FolderRename) == "FolderRename"@,
        action_name(Action::FolderSyncModify) == "FolderSyncModify"@,
        action_name(Action::FolderSyncDelete) == "FolderSyncDelete"@,
        action_name(Action::FolderSyncEnd) == "FolderSyncEnd"@,
        action_name(Action::FolderSyncRename) == "FolderSyncRename"@,
        action_name(Action::FolderModifyAck) == "FolderModifyAck"@,
        action_name(Action::FolderRenameAck) == "FolderRenameAck"@,
        action_name(Action::FolderDeleteAck) == "FolderDeleteAck"@,
        action_name(Action::NoteSync) == "NoteSync"@,
        action_name(Action::NoteModify) == "NoteModify"@,
        action_name(Action::NoteDelete) == "NoteDelete"@,
        action_name(Action::NoteRename) == "NoteRename"@,
        action_name(Action::NoteCheck) == "NoteCheck"@,
        action_name(Action::NoteRePush) == "NoteRePush"@,
        action_name(Action::NoteSyncModify) == "NoteSyncModify"@,
        action_name(Action::NoteSyncDelete) == "NoteSyncDelete"@,
        action_name(Action::NoteSyncRename) == "NoteSyncRename"@,
        action_name(Action::NoteSyncMtime) == "NoteSyncMtime"@,
        action_name(Action::NoteSyncNeedPush) == "NoteSyncNeedPush"@,
        action_name(Action::NoteSyncEnd) == "NoteSyncEnd"@,
        action_name(Action::NoteModifyAck) == "NoteModifyAck"@,
        action_name(Action::NoteRenameAck) == "NoteRenameAck"@,
        action_name(Action::NoteDeleteAck) == "NoteDeleteAck"@,
        action_name(Action::FileSync) == "FileSync"@,
        action_name(Action::FileUploadCheck) == "FileUploadCheck"@,
        action_name(Action::FileDelete) == "FileDelete"@,
        action_name(Action::FileRename) == "FileRename"@,
        action_name(Action::FileChunkDownload) == "FileChunkDownload"@,
        action_name(Action::FileRePush) == "FileRePush"@,
        action_name(Action::FileSyncUpdate) == "FileSyncUpdate"@,
        action_name(Action::FileSyncDelete) == "FileSyncDelete"@,
        action_name(Action::FileSyncRename) == "FileSyncRename"@,
        action_name(Action::FileSyncMtime) == "FileSyncMtime"@,
        action_name(Action::FileSyncEnd) == "FileSyncEnd"@,
        action_name(Action::FileUpload) == "FileUpload"@,
        action_name(Action::FileSyncChunkDownload) == "FileSyncChunkDownload"@,
        action_name(Action::FileRenameAck) == "FileRenameAck"@,
        action_name(Action::FileUploadAck) == "FileUploadAck"@,
        action_name(Action::FileDeleteAck) == "FileDeleteAck"@,
        action_name(Action::SettingSync) == "SettingSync"@,
        action_name(Action::SettingModify) == "SettingModify"@,
        action_name(Action::SettingDelete) == "SettingDelete"@,
        action_name(Action::SettingCheck) == "SettingCheck"@,
        action_name(Action::SettingClear) == "SettingClear"@,
        action_name(Action::SettingRePush) == "SettingRePush"@,
        action_name(Action::SettingSyncModify) == "SettingSyncModify"@,
        action_name(Action::SettingSyncDelete) == "SettingSyncDelete"@,
        action_name(Action::SettingSyncMtime) == "SettingSyncMtime"@,
        action_name(Action::SettingSyncEnd) == "SettingSyncEnd"@,
        action_name(Action::SettingSyncNeedUpload) == "SettingSyncNeedUpload"@,
        action_name(Action::SettingSyncClear) == "SettingSyncClear"@,
        action_name(Action::SettingModifyAck) == "SettingModifyAck"@,
        action_name(Action::SettingDeleteAck) == "SettingDeleteAck"@,
        action_from_name("Authorization"@) == Some(Action::Authorization),
        action_from_name("ClientInfo"@) == Some(Action::ClientInfo),
        action_from_name("FolderSync"@) == Some(Action::FolderSync),
        action_from_name("FolderModify"@) == Some(Action::FolderModify),
        action_from_name("FolderDelete"@) == Some(Action::FolderDelete),
        action_from_name("FolderRename"@) == Some(Action::FolderRename),
        action_from_name("FolderSyncModify"@) == Some(Action::FolderSyncModify),
        action_from_name("FolderSyncDelete"@) == Some(Action::FolderSyncDelete),
        action_from_name("FolderSyncEnd"@) == Some(Action::FolderSyncEnd),
        action_from_name("FolderSyncRename"@) == Some(Action::FolderSyncRename),
        action_from_name("FolderModifyAck"@) == Some(Action::FolderModifyAck),
        action_from_name("FolderRenameAck"@) == Some(Action::FolderRenameAck),
        action_from_name("FolderDeleteAck"@) == Some(Action::FolderDeleteAck),
        action_from_name("NoteSync"@) == Some(Action::NoteSync),
        action_from_name("NoteModify"@) == Some(Action::NoteModify),
        action_from_name("NoteDelete"@) == Some(Action::NoteDelete),
        action_from_name("NoteRename"@) == Some(Action::NoteRename),
        action_from_name("NoteCheck"@) == Some(Action::NoteCheck),
        action_from_name("NoteRePush"@) == Some(Action::NoteRePush),
        action_from_name("NoteSyncModify"@) == Some(Action::NoteSyncModify),
        action_from_name("NoteSyncDelete"@) == Some(Action::NoteSyncDelete),
        action_from_name("NoteSyncRename"@) == Some(Action::NoteSyncRename),
        action_from_name("NoteSyncMtime"@) == Some(Action::NoteSyncMtime),
        action_from_name("NoteSyncNeedPush"@) == Some(Action::NoteSyncNeedPush),
        action_from_name("NoteSyncEnd"@) == Some(Action::NoteSyncEnd),
        action_from_name("NoteModifyAck"@) == Some(Action::NoteModifyAck),
        action_from_name("NoteRenameAck"@) == Some(Action::NoteRenameAck),
        action_from_name("NoteDeleteAck"@) == Some(Action::NoteDeleteAck),
        action_from_name("FileSync"@) == Some(Action::FileSync),
        action_from_name("FileUploadCheck"@) == Some(Action::FileUploadCheck),
        action_from_name("FileDelete"@) == Some(Action::FileDelete),
        action_from_name("FileRename"@) == Some(Action::FileRename),
        action_from_name("FileChunkDownload"@) == Some(Action::FileChunkDownload),
        action_from_name("FileRePush"@) == Some(Action::FileRePush),
        action_from_name("FileSyncUpdate"@) == Some(Action::FileSyncUpdate),
        action_from_name("FileSyncDelete"@) == Some(Action::FileSyncDelete),
        action_from_name("FileSyncRename"@) == Some(Action::FileSyncRename),
        action_from_name("FileSyncMtime"@) == Some(Action::FileSyncMtime),
        action_from_name("FileSyncEnd"@) == Some(Action::FileSyncEnd),
        action_from_name("FileUpload"@) == Some(Action::FileUpload),
        action_from_name("FileSyncChunkDownload"@) == Some(Action::FileSyncChunkDownload),
        action_from_name("FileRenameAck"@) == Some(Action::FileRenameAck),
        action_from_name("FileUploadAck"@) == Some(Action::FileUploadAck),
        action_from_name("FileDeleteAck"@) == Some(Action::FileDeleteAck),
        action_from_name("SettingSync"@) == Some(Action::SettingSync),
        action_from_name("SettingModify"@) == Some(Action::SettingModify),
        action_from_name("SettingDelete"@) == Some(Action::SettingDelete),
        action_from_name("SettingCheck"@) == Some(Action::SettingCheck),
        action_from_name("SettingClear"@) == Some(Action::SettingClear),
        action_from_name("SettingRePush"@) == Some(Action::SettingRePush),
        action_from_name("SettingSyncModify"@) == Some(Action::SettingSyncModify),
        action_from_name("SettingSyncDelete"@) == Some(Action::SettingSyncDelete),
        action_from_name("SettingSyncMtime"@) == Some(Action::SettingSyncMtime),
        action_from_name("SettingSyncEnd"@) == Some(Action::SettingSyncEnd),
        action_from_name("SettingSyncNeedUpload"@) == Some(Action::SettingSyncNeedUpload),
        action_from_name("SettingSyncClear"@) == Some(Action::SettingSyncClear),
        action_from_name("SettingModifyAck"@) == Some(Action::SettingModifyAck),
        action_from_name("SettingDeleteAck"@) == Some(Action::SettingDeleteAck),
{
    lemma_action_name_roundtrip(Action::Authorization);
    lemma_action_name_roundtrip(Action::ClientInfo);
    lemma_action_name_roundtrip(Action::FolderSync);
    lemma_action_name_roundtrip(Action::FolderModify);
    lemma_action_name_roundtrip(Action::FolderDelete);
    lemma_action_name_roundtrip(Action::FolderRename);
    lemma_action_name_roundtrip(Action::FolderSyncModify);
    lemma_action_name_roundtrip(Action::FolderSyncDelete);
    lemma_action_name_roundtrip(Action::FolderSyncEnd);
    lemma_action_name_roundtrip(Action::FolderSyncRename);
    lemma_action_name_roundtrip(Action::FolderModifyAck);
    lemma_action_name_roundtrip(Action::FolderRenameAck);
    lemma_action_name_roundtrip(Action::FolderDeleteAck);
    lemma_action_name_roundtrip(Action::NoteSync);
    lemma_action_name_roundtrip(Action::NoteModify);
    lemma_action_name_roundtrip(Action::NoteDelete);
    lemma_action_name_roundtrip(Action::NoteRename);
    lemma_action_name_roundtrip(Action::NoteCheck);
    lemma_action_name_roundtrip(Action::NoteRePush);
    lemma_action_name_roundtrip(Action::NoteSyncModify);
    lemma_action_name_roundtrip(Action::NoteSyncDelete);
    lemma_action_name_roundtrip(Action::NoteSyncRename);
    lemma_action_name_roundtrip(Action::NoteSyncMtime);
    lemma_action_name_roundtrip(Action::NoteSyncNeedPush);
    lemma_action_name_roundtrip(Action::NoteSyncEnd);
    lemma_action_name_roundtrip(Action::NoteModifyAck);
    lemma_action_name_roundtrip(Action::NoteRenameAck);
    lemma_action_name_roundtrip(Action::NoteDeleteAck);
    lemma_action_name_roundtrip(Action::FileSync);
    lemma_action_name_roundtrip(Action::FileUploadCheck);
    lemma_action_name_roundtrip(Action::FileDelete);
    lemma_action_name_roundtrip(Action::FileRename);
    lemma_action_name_roundtrip(Action::FileChunkDownload);
    lemma_action_name_roundtrip(Action::FileRePush);
    lemma_action_name_roundtrip(Action::FileSyncUpdate);
    lemma_action_name_roundtrip(Action::FileSyncDelete);
    lemma_action_name_roundtrip(Action::FileSyncRename);
    lemma_action_name_roundtrip(Action::FileSyncMtime);
    lemma_action_name_roundtrip(Action::FileSyncEnd);
    lemma_action_name_roundtrip(Action::FileUpload);
    lemma_action_name_roundtrip(Action::FileSyncChunkDownload);
    lemma_action_name_roundtrip(Action::FileRenameAck);
    lemma_action_name_roundtrip(Action::FileUploadAck);
    lemma_action_name_roundtrip(Action::FileDeleteAck);
    lemma_action_name_roundtrip(Action::SettingSync);
    lemma_action_name_roundtrip(Action::SettingModify);
    lemma_action_name_roundtrip(Action::SettingDelete);
    lemma_action_name_roundtrip(Action::SettingCheck);
    lemma_action_name_roundtrip(Action::SettingClear);
    lemma_action_name_roundtrip(Action::SettingRePush);
    lemma_action_name_roundtrip(Action::SettingSyncModify);
    lemma_action_name_roundtrip(Action::SettingSyncDelete);
    lemma_action_name_roundtrip(Action::SettingSyncMtime);
    lemma_action_name_roundtrip(Action::SettingSyncEnd);
    lemma_action_name_roundtrip(Action::SettingSyncNeedUpload);
    lemma_action_name_roundtrip(Action::SettingSyncClear);
    lemma_action_name_roundtrip(Action::SettingModifyAck);
    lemma_action_name_roundtrip(Action::SettingDeleteAck);
}

} // verus!
