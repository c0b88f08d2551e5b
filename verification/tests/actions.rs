use walle_core::action::{
    BanGroupMember, DeleteMessage, GetChannelInfo, GetChannelList, GetFile, GetGroupInfo,
    GetGroupMemberInfo, GetGroupMemberList, GetGuildInfo, GetGuildMemberInfo, GetGuildMemberList,
    GetMessage, GetUserInfo, KickGroupMember, LeaveGroup, LeaveGuild, SetChannelName,
    SetGroupAdmin, SetGroupName, SetGuildName, UnbanGroupMember, UnsetGroupAdmin, UploadFile,
};
use walle_core::message::{message_of_segment, message_of_text};
use walle_core::{
    ActionType, ContentType, ExtendedAction, ExtendedMap, ExtendedValue, GetFileFragmented,
    GetLatestEvents, MessageSegment, ResultExt, SendMessage, StandardAction,
    UploadFileFragmented, WalleError,
};

fn s(text: &str) -> String {
    text.to_string()
}

fn e() -> ExtendedMap {
    ExtendedMap::new()
}

fn upload() -> UploadFile {
    UploadFile {
        ty: s("data"),
        name: s("a.bin"),
        url: None,
        headers: None,
        path: None,
        data: Some(vec![1, 2, 3]),
        sha256: None,
        extra: e(),
    }
}

fn send_message() -> SendMessage {
    SendMessage {
        detail_type: s("private"),
        group_id: None,
        user_id: Some(s("u1")),
        guild_id: None,
        channel_id: None,
        message: message_of_text("hi"),
        extra: e(),
    }
}

#[test]
fn file_actions_travel_as_msgpack() {
    let actions = vec![
        StandardAction::UploadFile(upload()),
        StandardAction::UploadFileFragmented(UploadFileFragmented::Prepare {
            name: s("a.bin"),
            total_size: 3,
        }),
        StandardAction::UploadFileFragmented(UploadFileFragmented::Transfer {
            file_id: s("f"),
            offset: 0,
            size: 3,
            data: vec![1, 2, 3],
        }),
        StandardAction::UploadFileFragmented(UploadFileFragmented::Finish {
            file_id: s("f"),
            sha256: s("00"),
        }),
        StandardAction::GetFile(GetFile { file_id: s("f"), ty: s("data"), extra: e() }),
        StandardAction::GetFileFragmented(GetFileFragmented::Prepare { file_id: s("f") }),
        StandardAction::GetFileFragmented(GetFileFragmented::Transfer {
            file_id: s("f"),
            offset: 0,
            size: 3,
        }),
    ];
    for action in actions {
        assert_eq!(action.content_type(), ContentType::MsgPack);
    }
}

#[test]
fn other_actions_travel_as_json() {
    let actions = vec![
        StandardAction::GetLatestEvents(GetLatestEvents { limit: 0, timeout: 0, extra: e() }),
        StandardAction::GetSupportedActions(e()),
        StandardAction::GetStatus(e()),
        StandardAction::GetVersion(e()),
        StandardAction::SendMessage(send_message()),
        StandardAction::DeleteMessage(DeleteMessage { message_id: s("m"), extra: e() }),
        StandardAction::GetMessage(GetMessage { message_id: s("m"), extra: e() }),
        StandardAction::GetSelfInfo(e()),
        StandardAction::GetUserInfo(GetUserInfo { user_id: s("u"), extra: e() }),
        StandardAction::GetFriendList(e()),
        StandardAction::GetGroupInfo(GetGroupInfo { group_id: s("g"), extra: e() }),
        StandardAction::GetGroupList(e()),
        StandardAction::GetGroupMemberInfo(GetGroupMemberInfo {
            group_id: s("g"),
            user_id: s("u"),
            extra: e(),
        }),
        StandardAction::GetGroupMemberList(GetGroupMemberList { group_id: s("g"), extra: e() }),
        StandardAction::SetGroupName(SetGroupName {
            group_id: s("g"),
            group_name: s("n"),
            extra: e(),
        }),
        StandardAction::LeaveGroup(LeaveGroup { group_id: s("g"), extra: e() }),
        StandardAction::KickGroupMember(KickGroupMember {
            group_id: s("g"),
            user_id: s("u"),
            extra: e(),
        }),
        StandardAction::BanGroupMember(BanGroupMember {
            group_id: s("g"),
            user_id: s("u"),
            extra: e(),
        }),
        StandardAction::UnbanGroupMember(UnbanGroupMember {
            group_id: s("g"),
            user_id: s("u"),
            extra: e(),
        }),
        StandardAction::SetGroupAdmin(SetGroupAdmin {
            group_id: s("g"),
            user_id: s("u"),
            extra: e(),
        }),
        StandardAction::UnsetGroupAdmin(UnsetGroupAdmin {
            group_id: s("g"),
            user_id: s("u"),
            extra: e(),
        }),
        StandardAction::GetGuildInfo(GetGuildInfo { guild_id: s("g"), extra: e() }),
        StandardAction::GetGuildList(e()),
        StandardAction::GetChannelInfo(GetChannelInfo {
            guild_id: s("g"),
            channel_id: s("c"),
            extra: e(),
        }),
        StandardAction::GetChannelList(GetChannelList { guild_id: s("g"), extra: e() }),
        StandardAction::GetGuildMemberInfo(GetGuildMemberInfo {
            guild_id: s("g"),
            user_id: s("u"),
            extra: e(),
        }),
        StandardAction::GetGuildMemberList(GetGuildMemberList { guild_id: s("g"), extra: e() }),
        StandardAction::SetGuildName(SetGuildName {
            guild_id: s("g"),
            guild_name: s("n"),
            extra: e(),
        }),
        StandardAction::SetChannelName(SetChannelName {
            guild_id: s("g"),
            channel_id: s("c"),
            channel_name: s("n"),
            extra: e(),
        }),
        StandardAction::LeaveGuild(LeaveGuild { guild_id: s("g"), extra: e() }),
    ];
    assert_eq!(actions.len(), 30);
    for action in actions {
        assert_eq!(action.content_type(), ContentType::Json);
    }
}

#[test]
fn parameters_convert_into_their_action() {
    assert_eq!(
        StandardAction::from(send_message()),
        StandardAction::SendMessage(send_message())
    );
    assert_eq!(
        StandardAction::from(upload()),
        StandardAction::UploadFile(upload())
    );
    assert_eq!(
        StandardAction::from(GetLatestEvents { limit: 5, timeout: 1, extra: e() }),
        StandardAction::GetLatestEvents(GetLatestEvents { limit: 5, timeout: 1, extra: e() })
    );
    assert_eq!(
        StandardAction::from(GetFileFragmented::Prepare { file_id: s("f") }),
        StandardAction::GetFileFragmented(GetFileFragmented::Prepare { file_id: s("f") })
    );
    let extended = ExtendedAction { action: s("get_status"), params: e() };
    assert_eq!(extended.clone(), extended);
}

#[test]
fn messages_from_text_and_segments() {
    let message = message_of_text("hello");
    assert_eq!(message.len(), 1);
    assert_eq!(message[0].ty, "text");
    assert_eq!(
        message[0].data.entries,
        vec![(s("text"), ExtendedValue::Str(s("hello")))]
    );
    assert_eq!(message[0], MessageSegment::text(s("hello")));
    let segment = MessageSegment { ty: s("image"), data: e() };
    assert_eq!(message_of_segment(segment.clone()), vec![segment]);
}

#[test]
fn error_messages() {
    assert_eq!(
        WalleError::DeclareNotMatch("message", s("notice")).message(),
        "expect message found notice"
    );
    assert_eq!(WalleError::ActionSendError.message(), "Action send error");
    assert_eq!(WalleError::ResponseTimeout.message(), "Action Response Timeout");
    assert_eq!(WalleError::RespNotMatch.message(), "RespMissmatch");
    assert_eq!(WalleError::AlreadyStarted.message(), "OneBot is already started");
    assert_eq!(WalleError::NotStarted.message(), "OneBot is not started");
    assert_eq!(
        WalleError::MapMissedKey(s("user_id")).message(),
        "ExtendedMap missed key: user_id"
    );
    assert_eq!(
        WalleError::ValueTypeNotMatch(s("str"), s("int")).message(),
        "Type mismatch expect str, got int"
    );
    assert_eq!(WalleError::IllegalBase64(s("??")).message(), "Illegal base64");
    assert_eq!(WalleError::BotNotExist.message(), "Bot not exist");
    assert_eq!(WalleError::Other(s("resp timeout")).message(), "resp timeout");
    assert_eq!(WalleError::custom(s("boom")), WalleError::Other(s("boom")));
}

#[test]
fn results_give_up_their_error() {
    let fine: Result<u8, WalleError> = Ok(3);
    let failed: Result<u8, WalleError> = Err(WalleError::BotNotExist);
    assert_eq!(fine.ignore(), Some(3));
    assert_eq!(failed.ignore(), None);
}
