//! The catalog of standard actions and the wire encoding that each one asks for.

use vstd::prelude::*;
use vstd::std_specs::convert::FromSpecImpl;
use crate::content::ContentType;
use crate::message::Message;
use crate::value::ExtendedMap;

verus! {

/// The standard actions: what an application asks of a bot.
#[derive(Debug, Clone, PartialEq)]
pub enum StandardAction {
    // meta
    GetLatestEvents(GetLatestEvents),
    GetSupportedActions(ExtendedMap),
    GetStatus(ExtendedMap),
    GetVersion(ExtendedMap),
    // message
    SendMessage(SendMessage),
    DeleteMessage(DeleteMessage),
    GetMessage(GetMessage),
    // user
    GetSelfInfo(ExtendedMap),
    GetUserInfo(GetUserInfo),
    GetFriendList(ExtendedMap),
    // group
    GetGroupInfo(GetGroupInfo),
    GetGroupList(ExtendedMap),
    GetGroupMemberInfo(GetGroupMemberInfo),
    GetGroupMemberList(GetGroupMemberList),
    SetGroupName(SetGroupName),
    LeaveGroup(LeaveGroup),
    KickGroupMember(KickGroupMember),
    BanGroupMember(BanGroupMember),
    UnbanGroupMember(UnbanGroupMember),
    SetGroupAdmin(SetGroupAdmin),
    UnsetGroupAdmin(UnsetGroupAdmin),
    // guild
    GetGuildInfo(GetGuildInfo),
    GetGuildList(ExtendedMap),
    GetChannelInfo(GetChannelInfo),
    GetChannelList(GetChannelList),
    GetGuildMemberInfo(GetGuildMemberInfo),
    GetGuildMemberList(GetGuildMemberList),
    SetGuildName(SetGuildName),
    SetChannelName(SetChannelName),
    LeaveGuild(LeaveGuild),
    // file
    UploadFile(UploadFile),
    UploadFileFragmented(UploadFileFragmented),
    GetFile(GetFile),
    GetFileFragmented(GetFileFragmented),
}

/// An action by name, with whatever parameters it has: any action of the
/// protocol can be written so.
#[derive(Debug, Clone, PartialEq)]
pub struct ExtendedAction {
    pub action: String,
    pub params: ExtendedMap,
}

/// Parameters of the action that sends a message.
#[derive(Debug, Clone, PartialEq)]
pub struct SendMessage {
    pub detail_type: String,
    pub group_id: Option<String>,
    pub user_id: Option<String>,
    pub guild_id: Option<String>,
    pub channel_id: Option<String>,
    pub message: Message,
    pub extra: ExtendedMap,
}

/// Parameters of the action that polls for events.
#[derive(Debug, Clone, PartialEq)]
pub struct GetLatestEvents {
    pub limit: i64,
    pub timeout: i64,
    pub extra: ExtendedMap,
}

/// Parameters of the action that deletes a message.
#[derive(Debug, Clone, PartialEq)]
pub struct DeleteMessage {
    pub message_id: String,
    pub extra: ExtendedMap,
}

/// Parameters of the action that fetches a message.
#[derive(Debug, Clone, PartialEq)]
pub struct GetMessage {
    pub message_id: String,
    pub extra: ExtendedMap,
}

/// Parameters of the action that asks for a user.
#[derive(Debug, Clone, PartialEq)]
pub struct GetUserInfo {
    pub user_id: String,
    pub extra: ExtendedMap,
}

/// Parameters of the action that asks for a group.
#[derive(Debug, Clone, PartialEq)]
pub struct GetGroupInfo {
    pub group_id: String,
    pub extra: ExtendedMap,
}

/// Parameters of the action that lists the members of a group.
#[derive(Debug, Clone, PartialEq)]
pub struct GetGroupMemberList {
    pub group_id: String,
    pub extra: ExtendedMap,
}

/// Parameters of the action that leaves a group.
#[derive(Debug, Clone, PartialEq)]
pub struct LeaveGroup {
    pub group_id: String,
    pub extra: ExtendedMap,
}

/// Parameters of the action that asks for a member of a group.
#[derive(Debug, Clone, PartialEq)]
pub struct GetGroupMemberInfo {
    pub group_id: String,
    pub user_id: String,
    pub extra: ExtendedMap,
}

/// Parameters of the action that removes a member from a group.
#[derive(Debug, Clone, PartialEq)]
pub struct KickGroupMember {
    pub group_id: String,
    pub user_id: String,
    pub extra: ExtendedMap,
}

/// Parameters of the action that silences a member of a group.
#[derive(Debug, Clone, PartialEq)]
pub struct BanGroupMember {
    pub group_id: String,
    pub user_id: String,
    pub extra: ExtendedMap,
}

/// Parameters of the action that lifts the silence of a member.
#[derive(Debug, Clone, PartialEq)]
pub struct UnbanGroupMember {
    pub group_id: String,
    pub user_id: String,
    pub extra: ExtendedMap,
}

/// Parameters of the action that makes a member an administrator.
#[derive(Debug, Clone, PartialEq)]
pub struct SetGroupAdmin {
    pub group_id: String,
    pub user_id: String,
    pub extra: ExtendedMap,
}

/// Parameters of the action that takes the administrator role from a member.
#[derive(Debug, Clone, PartialEq)]
pub struct UnsetGroupAdmin {
    pub group_id: String,
    pub user_id: String,
    pub extra: ExtendedMap,
}

/// Parameters of the action that renames a group.
#[derive(Debug, Clone, PartialEq)]
pub struct SetGroupName {
    pub group_id: String,
    pub group_name: String,
    pub extra: ExtendedMap,
}

/// Parameters of the action that asks for a channel of a guild.
#[derive(Debug, Clone, PartialEq)]
pub struct GetChannelInfo {
    pub guild_id: String,
    pub channel_id: String,
    pub extra: ExtendedMap,
}

/// Parameters of the action that lists the channels of a guild.
#[derive(Debug, Clone, PartialEq)]
pub struct GetChannelList {
    pub guild_id: String,
    pub extra: ExtendedMap,
}

/// Parameters of the action that asks for a member of a guild.
#[derive(Debug, Clone, PartialEq)]
pub struct GetGuildMemberInfo {
    pub guild_id: String,
    pub user_id: String,
    pub extra: ExtendedMap,
}

/// Parameters of the action that lists the members of a guild.
#[derive(Debug, Clone, PartialEq)]
pub struct GetGuildMemberList {
    pub guild_id: String,
    pub extra: ExtendedMap,
}

/// Parameters of the action that renames a guild.
#[derive(Debug, Clone, PartialEq)]
pub struct SetGuildName {
    pub guild_id: String,
    pub guild_name: String,
    pub extra: ExtendedMap,
}

/// Parameters of the action that renames a channel.
#[derive(Debug, Clone, PartialEq)]
pub struct SetChannelName {
    pub guild_id: String,
    pub channel_id: String,
    pub channel_name: String,
    pub extra: ExtendedMap,
}

/// Parameters of the action that leaves a guild.
#[derive(Debug, Clone, PartialEq)]
pub struct LeaveGuild {
    pub guild_id: String,
    pub extra: ExtendedMap,
}

/// Parameters of the action that uploads a file: by `ty` a URL, a path or the data itself.
#[derive(Debug, Clone, PartialEq)]
pub struct UploadFile {
    pub ty: String,
    pub name: String,
    pub url: Option<String>,
    pub headers: Option<std::collections::HashMap<String, String>>,
    pub path: Option<String>,
    pub data: Option<Vec<u8>>,
    pub sha256: Option<String>,
    pub extra: ExtendedMap,
}

/// Parameters of the action that fetches a file.
#[derive(Debug, Clone, PartialEq)]
pub struct GetFile {
    pub file_id: String,
    pub ty: String,
    pub extra: ExtendedMap,
}

/// Parameters of the action that asks for a guild.
#[derive(Debug, Clone, PartialEq)]
pub struct GetGuildInfo {
    pub guild_id: String,
    pub extra: ExtendedMap,
}

/// Parameters of the action that uploads a file in pieces, by stage.
#[derive(Debug, Clone, PartialEq, Eq)]
pub enum UploadFileFragmented {
    Prepare { name: String, total_size: i64 },
    Transfer { file_id: String, offset: i64, size: i64, data: Vec<u8> },
    Finish { file_id: String, sha256: String },
}

/// Parameters of the action that fetches a file in pieces, by stage.
#[derive(Debug, Clone, PartialEq, Eq)]
pub enum GetFileFragmented {
    Prepare { file_id: String },
    Transfer { file_id: String, offset: i64, size: i64 },
}

impl From<SendMessage> for StandardAction {
    fn from(from: SendMessage) -> (action: Self) {
        StandardAction::SendMessage(from)
    }
}

impl FromSpecImpl<SendMessage> for StandardAction {
    open spec fn obeys_from_spec() -> bool {
        true
    }

    open spec fn from_spec(from: SendMessage) -> Self {
        StandardAction::SendMessage(from)
    }
}

impl From<GetLatestEvents> for StandardAction {
    fn from(from: GetLatestEvents) -> (action: Self) {
        StandardAction::GetLatestEvents(from)
    }
}

impl FromSpecImpl<GetLatestEvents> for StandardAction {
    open spec fn obeys_from_spec() -> bool {
        true
    }

    open spec fn from_spec(from: GetLatestEvents) -> Self {
        StandardAction::GetLatestEvents(from)
    }
}

impl From<DeleteMessage> for StandardAction {
    fn from(from: DeleteMessage) -> (action: Self) {
        StandardAction::DeleteMessage(from)
    }
}

impl FromSpecImpl<DeleteMessage> for StandardAction {
    open spec fn obeys_from_spec() -> bool {
        true
    }

    open spec fn from_spec(from: DeleteMessage) -> Self {
        StandardAction::DeleteMessage(from)
    }
}

impl From<GetUserInfo> for StandardAction {
    fn from(from: GetUserInfo) -> (action: Self) {
        StandardAction::GetUserInfo(from)
    }
}

impl FromSpecImpl<GetUserInfo> for StandardAction {
    open spec fn obeys_from_spec() -> bool {
        true
    }

    open spec fn from_spec(from: GetUserInfo) -> Self {
        StandardAction::GetUserInfo(from)
    }
}

impl From<GetGroupInfo> for StandardAction {
    fn from(from: GetGroupInfo) -> (action: Self) {
        StandardAction::GetGroupInfo(from)
    }
}

impl FromSpecImpl<GetGroupInfo> for StandardAction {
    open spec fn obeys_from_spec() -> bool {
        true
    }

    open spec fn from_spec(from: GetGroupInfo) -> Self {
        StandardAction::GetGroupInfo(from)
    }
}

impl From<GetGroupMemberList> for StandardAction {
    fn from(from: GetGroupMemberList) -> (action: Self) {
        StandardAction::GetGroupMemberList(from)
    }
}

impl FromSpecImpl<GetGroupMemberList> for StandardAction {
    open spec fn obeys_from_spec() -> bool {
        true
    }

    open spec fn from_spec(from: GetGroupMemberList) -> Self {
        StandardAction::GetGroupMemberList(from)
    }
}

impl From<LeaveGroup> for StandardAction {
    fn from(from: LeaveGroup) -> (action: Self) {
        StandardAction::LeaveGroup(from)
    }
}

impl FromSpecImpl<LeaveGroup> for StandardAction {
    open spec fn obeys_from_spec() -> bool {
        true
    }

    open spec fn from_spec(from: LeaveGroup) -> Self {
        StandardAction::LeaveGroup(from)
    }
}

impl From<GetGroupMemberInfo> for StandardAction {
    fn from(from: GetGroupMemberInfo) -> (action: Self) {
        StandardAction::GetGroupMemberInfo(from)
    }
}

impl FromSpecImpl<GetGroupMemberInfo> for StandardAction {
    open spec fn obeys_from_spec() -> bool {
        true
    }

    open spec fn from_spec(from: GetGroupMemberInfo) -> Self {
        StandardAction::GetGroupMemberInfo(from)
    }
}

impl From<KickGroupMember> for StandardAction {
    fn from(from: KickGroupMember) -> (action: Self) {
        StandardAction::KickGroupMember(from)
    }
}

impl FromSpecImpl<KickGroupMember> for StandardAction {
    open spec fn obeys_from_spec() -> bool {
        true
    }

    open spec fn from_spec(from: KickGroupMember) -> Self {
        StandardAction::KickGroupMember(from)
    }
}

impl From<BanGroupMember> for StandardAction {
    fn from(from: BanGroupMember) -> (action: Self) {
        StandardAction::BanGroupMember(from)
    }
}

impl FromSpecImpl<BanGroupMember> for StandardAction {
    open spec fn obeys_from_spec() -> bool {
        true
    }

    open spec fn from_spec(from: BanGroupMember) -> Self {
        StandardAction::BanGroupMember(from)
    }
}

impl From<UnbanGroupMember> for StandardAction {
    fn from(from: UnbanGroupMember) -> (action: Self) {
        StandardAction::UnbanGroupMember(from)
    }
}

impl FromSpecImpl<UnbanGroupMember> for StandardAction {
    open spec fn obeys_from_spec() -> bool {
        true
    }

    open spec fn from_spec(from: UnbanGroupMember) -> Self {
        StandardAction::UnbanGroupMember(from)
    }
}

impl From<SetGroupAdmin> for StandardAction {
    fn from(from: SetGroupAdmin) -> (action: Self) {
        StandardAction::SetGroupAdmin(from)
    }
}

impl FromSpecImpl<SetGroupAdmin> for StandardAction {
    open spec fn obeys_from_spec() -> bool {
        true
    }

    open spec fn from_spec(from: SetGroupAdmin) -> Self {
        StandardAction::SetGroupAdmin(from)
    }
}

impl From<UnsetGroupAdmin> for StandardAction {
    fn from(from: UnsetGroupAdmin) -> (action: Self) {
        StandardAction::UnsetGroupAdmin(from)
    }
}

impl FromSpecImpl<UnsetGroupAdmin> for StandardAction {
    open spec fn obeys_from_spec() -> bool {
        true
    }

    open spec fn from_spec(from: UnsetGroupAdmin) -> Self {
        StandardAction::UnsetGroupAdmin(from)
    }
}

impl From<SetGroupName> for StandardAction {
    fn from(from: SetGroupName) -> (action: Self) {
        StandardAction::SetGroupName(from)
    }
}

impl FromSpecImpl<SetGroupName> for StandardAction {
    open spec fn obeys_from_spec() -> bool {
        true
    }

    open spec fn from_spec(from: SetGroupName) -> Self {
        StandardAction::SetGroupName(from)
    }
}

impl From<UploadFile> for StandardAction {
    fn from(from: UploadFile) -> (action: Self) {
        StandardAction::UploadFile(from)
    }
}

impl FromSpecImpl<UploadFile> for StandardAction {
    open spec fn obeys_from_spec() -> bool {
        true
    }

    open spec fn from_spec(from: UploadFile) -> Self {
        StandardAction::UploadFile(from)
    }
}

impl From<UploadFileFragmented> for StandardAction {
    fn from(from: UploadFileFragmented) -> (action: Self) {
        StandardAction::UploadFileFragmented(from)
    }
}

impl FromSpecImpl<UploadFileFragmented> for StandardAction {
    open spec fn obeys_from_spec() -> bool {
        true
    }

    open spec fn from_spec(from: UploadFileFragmented) -> Self {
        StandardAction::UploadFileFragmented(from)
    }
}

impl From<GetFile> for StandardAction {
    fn from(from: GetFile) -> (action: Self) {
        StandardAction::GetFile(from)
    }
}

impl FromSpecImpl<GetFile> for StandardAction {
    open spec fn obeys_from_spec() -> bool {
        true
    }

    open spec fn from_spec(from: GetFile) -> Self {
        StandardAction::GetFile(from)
    }
}

impl From<GetFileFragmented> for StandardAction {
    fn from(from: GetFileFragmented) -> (action: Self) {
        StandardAction::GetFileFragmented(from)
    }
}

impl FromSpecImpl<GetFileFragmented> for StandardAction {
    open spec fn obeys_from_spec() -> bool {
        true
    }

    open spec fn from_spec(from: GetFileFragmented) -> Self {
        StandardAction::GetFileFragmented(from)
    }
}

/// An action that knows the wire encoding of its envelope.
pub trait ActionType {
    /// The encoding that the action asks for.
    spec fn wire_encoding(&self) -> ContentType;

    /// The encoding in which the envelope of this action travels.
    fn content_type(&self) -> (content_type: ContentType)
        ensures
            content_type == self.wire_encoding(),
    ;
}

impl StandardAction {
    /// Whether the action moves file content: the two uploads and the two
    /// downloads do, no other action does.
    pub open spec fn carries_file(&self) -> bool {
        ||| self is UploadFile
        ||| self is UploadFileFragmented
        ||| self is GetFile
        ||| self is GetFileFragmented
    }
}

impl ActionType for StandardAction {
    open spec fn wire_encoding(&self) -> ContentType {
        if self.carries_file() {
            ContentType::MsgPack
        } else {
            ContentType::Json
        }
    }

    fn content_type(&self) -> (content_type: ContentType) {
        match self {
            Self::UploadFile(_)
            | Self::UploadFileFragmented(_)
            | Self::GetFile(_)
            | Self::GetFileFragmented(_) => ContentType::MsgPack,
            _ => ContentType::Json,
        }
    }
}

/// Every action has exactly one encoding: the binary one where it moves file
/// content, the text one otherwise.
pub proof fn lemma_content_type_total(action: StandardAction)
    ensures
        action.carries_file() <==> action.wire_encoding() == ContentType::MsgPack,
        !action.carries_file() <==> action.wire_encoding() == ContentType::Json,
        action.wire_encoding() == ContentType::MsgPack || action.wire_encoding()
            == ContentType::Json,
{
}

} // verus!
