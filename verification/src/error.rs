//! The ways in which an operation on the hub can fail.

use vstd::prelude::*;

verus! {

/// Why the hub refused an operation.
#[derive(Debug, Clone, Copy, PartialEq, Eq, Structural)]
pub enum HubError {
    /// No room has the given id.
    NotFound,
    /// A room with the given id exists already.
    AlreadyExists,
    /// The room's channel is gone, or nobody listens on it any more.
    RoomGone,
    /// The room exists, and the player is not in it.
    PlayerAbsent,
    /// The session is past its handshake and cannot join again.
    AlreadyJoined,
}

/// Why the profile store did not do what it was asked.
#[derive(Debug, Clone, Copy, PartialEq, Eq, Structural)]
pub enum StoreError {
    /// The statement ran and changed no row.
    NothingWritten,
}

impl HubError {
    /// What the caller is told of the failure.
    pub fn message(&self) -> (text: &'static str)
        ensures
            text@ == self.message_text(),
    {
        match self {
            HubError::NotFound => "房间不存在",
            HubError::AlreadyExists => "房间已存在",
            HubError::RoomGone => "房间退出失败",
            HubError::PlayerAbsent => "玩家不存在",
            HubError::AlreadyJoined => "连接已加入房间",
        }
    }

    /// The description that `message` returns.
    pub open spec fn message_text(self) -> Seq<char> {
        match self {
            HubError::NotFound => "房间不存在"@,
            HubError::AlreadyExists => "房间已存在"@,
            HubError::RoomGone => "房间退出失败"@,
            HubError::PlayerAbsent => "玩家不存在"@,
            HubError::AlreadyJoined => "连接已加入房间"@,
        }
    }
}

} // verus!
