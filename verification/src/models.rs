//! What clients are shown, and how it is written in JSON.

use vstd::prelude::*;
use vstd::std_specs::convert::FromSpecImpl;
use crate::json::{items, lemma_items_push, no_fields, Fields, Json, JsonView};
use crate::orm::channels::Channels;
use crate::orm::guild_members::GuildMembers;
use crate::orm::guilds::Guilds;
use crate::orm::messages::Messages;
use crate::orm::users::Users;
use crate::orm::value::Timestamp;

verus! {

/// An optional moment, in milliseconds.
pub open spec fn optional_millis(time: Option<Timestamp>) -> JsonView {
    match time {
        Some(time) => JsonView::Int(time.spec_millis()),
        None => JsonView::Null,
    }
}

/// An optional moment, in milliseconds.
fn optional_millis_json(time: Option<Timestamp>) -> (r: Json)
    ensures
        r@ == optional_millis(time),
{
    match time {
        Some(time) => Json::number(time.millis()),
        None => Json::Null,
    }
}

/// A user, as clients see it.
#[derive(Debug, PartialEq)]
pub struct User {
    pub id: String,
    pub username: String,
    pub tag: String,
    pub created_at: Timestamp,
    pub bot: bool,
    pub status: String,
    pub flags: i32,
    pub bio: Option<String>,
    pub avatar: Option<String>,
    pub banner: Option<String>,
}

impl Clone for User {
    fn clone(&self) -> (r: Self)
        ensures
            r == *self,
    {
        User {
            id: self.id.clone(),
            username: self.username.clone(),
            tag: self.tag.clone(),
            created_at: self.created_at,
            bot: self.bot,
            status: self.status.clone(),
            flags: self.flags,
            bio: self.bio.clone(),
            avatar: self.avatar.clone(),
            banner: self.banner.clone(),
        }
    }
}

impl User {
    /// What it looks like in JSON.
    pub open spec fn spec_json(self) -> JsonView {
        let fields = no_fields()
            .push(("id"@, JsonView::Text(self.id@)))
            .push(("username"@, JsonView::Text(self.username@)))
            .push(("tag"@, JsonView::Text(self.tag@)))
            .push(("createdAt"@, JsonView::Int(self.created_at.spec_millis())))
            .push(("bot"@, JsonView::Bool(self.bot)))
            .push(("status"@, JsonView::Text(self.status@)))
            .push(("flags"@, JsonView::Int(self.flags as int)))
            .push(("bio"@, JsonView::optional_text(self.bio)))
            .push(("avatar"@, JsonView::optional_text(self.avatar)))
            .push(("banner"@, JsonView::optional_text(self.banner)));
        JsonView::Object(fields)
    }

    /// Writes it in JSON.
    pub fn to_json(&self) -> (r: Json)
        ensures
            r@ == self.spec_json(),
    {
        let fields: Fields = Fields::new()
            .with("id", Json::text(self.id.as_str()))
            .with("username", Json::text(self.username.as_str()))
            .with("tag", Json::text(self.tag.as_str()))
            .with("createdAt", Json::number(self.created_at.millis()))
            .with("bot", Json::Bool(self.bot))
            .with("status", Json::text(self.status.as_str()))
            .with("flags", Json::number(self.flags as i64))
            .with("bio", Json::optional_text(&self.bio))
            .with("avatar", Json::optional_text(&self.avatar))
            .with("banner", Json::optional_text(&self.banner));
        fields.object()
    }
}

/// An account, as its owner sees it.
#[derive(Debug, PartialEq)]
pub struct Account {
    pub id: String,
    pub email: String,
    pub email_verified: bool,
    pub locale: String,
}

impl Clone for Account {
    fn clone(&self) -> (r: Self)
        ensures
            r == *self,
    {
        Account {
            id: self.id.clone(),
            email: self.email.clone(),
            email_verified: self.email_verified,
            locale: self.locale.clone(),
        }
    }
}

impl Account {
    /// What it looks like in JSON.
    pub open spec fn spec_json(self) -> JsonView {
        let fields = no_fields()
            .push(("id"@, JsonView::Text(self.id@)))
            .push(("email"@, JsonView::Text(self.email@)))
            .push(("emailVerified"@, JsonView::Bool(self.email_verified)))
            .push(("locale"@, JsonView::Text(self.locale@)));
        JsonView::Object(fields)
    }

    /// Writes it in JSON.
    pub fn to_json(&self) -> (r: Json)
        ensures
            r@ == self.spec_json(),
    {
        let fields: Fields = Fields::new()
            .with("id", Json::text(self.id.as_str()))
            .with("email", Json::text(self.email.as_str()))
            .with("emailVerified", Json::Bool(self.email_verified))
            .with("locale", Json::text(self.locale.as_str()));
        fields.object()
    }
}

/// How the owner of an account has set it up.
#[derive(Debug, PartialEq)]
pub struct AccountSettings {
    pub theme: String,
    pub compact_mode: Option<bool>,
    pub compact_show_avatars: Option<bool>,
    pub pending_deletion: Option<bool>,
    pub delete_at: Option<String>,
}

impl Clone for AccountSettings {
    fn clone(&self) -> (r: Self)
        ensures
            r == *self,
    {
        AccountSettings {
            theme: self.theme.clone(),
            compact_mode: self.compact_mode,
            compact_show_avatars: self.compact_show_avatars,
            pending_deletion: self.pending_deletion,
            delete_at: self.delete_at.clone(),
        }
    }
}

impl AccountSettings {
    /// What it looks like in JSON.
    pub open spec fn spec_json(self) -> JsonView {
        let fields = no_fields()
            .push(("theme"@, JsonView::Text(self.theme@)))
            .push(("compactMode"@, JsonView::optional_bool(self.compact_mode)))
            .push(("compactShowAvatars"@, JsonView::optional_bool(self.compact_show_avatars)))
            .push(("pendingDeletion"@, JsonView::optional_bool(self.pending_deletion)))
            .push(("deleteAt"@, JsonView::optional_text(self.delete_at)));
        JsonView::Object(fields)
    }

    /// Writes it in JSON.
    pub fn to_json(&self) -> (r: Json)
        ensures
            r@ == self.spec_json(),
    {
        let fields: Fields = Fields::new()
            .with("theme", Json::text(self.theme.as_str()))
            .with("compactMode", Json::optional_bool(self.compact_mode))
            .with("compactShowAvatars", Json::optional_bool(self.compact_show_avatars))
            .with("pendingDeletion", Json::optional_bool(self.pending_deletion))
            .with("deleteAt", Json::optional_text(&self.delete_at));
        fields.object()
    }
}

/// A channel of a guild, as clients see it.
#[derive(Debug, PartialEq)]
pub struct Channel {
    pub id: String,
    pub name: String,
    pub guild_id: String,
    pub created_at: Option<Timestamp>,
    pub rate_limit_per_user: i32,
}

impl Clone for Channel {
    fn clone(&self) -> (r: Self)
        ensures
            r == *self,
    {
        Channel {
            id: self.id.clone(),
            name: self.name.clone(),
            guild_id: self.guild_id.clone(),
            created_at: self.created_at,
            rate_limit_per_user: self.rate_limit_per_user,
        }
    }
}

impl Channel {
    /// What it looks like in JSON.
    pub open spec fn spec_json(self) -> JsonView {
        let fields = no_fields()
            .push(("id"@, JsonView::Text(self.id@)))
            .push(("name"@, JsonView::Text(self.name@)))
            .push(("guildId"@, JsonView::Text(self.guild_id@)))
            .push(("createdAt"@, optional_millis(self.created_at)))
            .push(("rateLimitPerUser"@, JsonView::Int(self.rate_limit_per_user as int)));
        JsonView::Object(fields)
    }

    /// Writes it in JSON.
    pub fn to_json(&self) -> (r: Json)
        ensures
            r@ == self.spec_json(),
    {
        let fields: Fields = Fields::new()
            .with("id", Json::text(self.id.as_str()))
            .with("name", Json::text(self.name.as_str()))
            .with("guildId", Json::text(self.guild_id.as_str()))
            .with("createdAt", optional_millis_json(self.created_at))
            .with("rateLimitPerUser", Json::number(self.rate_limit_per_user as i64));
        fields.object()
    }
}

/// The membership of a user in a guild, as clients see it.
#[derive(Debug, PartialEq)]
pub struct GuildMember {
    pub id: i32,
    pub guild_id: String,
    pub user_id: String,
    pub nickname: Option<String>,
    pub joined_at: Timestamp,
    pub user: Option<User>,
}

impl Clone for GuildMember {
    fn clone(&self) -> (r: Self)
        ensures
            r == *self,
    {
        GuildMember {
            id: self.id,
            guild_id: self.guild_id.clone(),
            user_id: self.user_id.clone(),
            nickname: self.nickname.clone(),
            joined_at: self.joined_at,
            user: match &self.user {
                Some(user) => Some(user.clone()),
                None => None,
            },
        }
    }
}

impl GuildMember {
    /// What it looks like in JSON.
    pub open spec fn spec_json(self) -> JsonView {
        let fields = no_fields()
            .push(("id"@, JsonView::Int(self.id as int)))
            .push(("guildId"@, JsonView::Text(self.guild_id@)))
            .push(("userId"@, JsonView::Text(self.user_id@)))
            .push(("nickname"@, JsonView::optional_text(self.nickname)))
            .push(("joinedAt"@, JsonView::Int(self.joined_at.spec_millis())));
        let fields = match self.user {
            Some(user) => fields.push(("user"@, user.spec_json())),
            None => fields,
        };
        JsonView::Object(fields)
    }

    /// Writes it in JSON.
    pub fn to_json(&self) -> (r: Json)
        ensures
            r@ == self.spec_json(),
    {
        let fields: Fields = Fields::new()
            .with("id", Json::number(self.id as i64))
            .with("guildId", Json::text(self.guild_id.as_str()))
            .with("userId", Json::text(self.user_id.as_str()))
            .with("nickname", Json::optional_text(&self.nickname))
            .with("joinedAt", Json::number(self.joined_at.millis()));
        let fields: Fields = match &self.user {
            Some(user) => fields.with("user", user.to_json()),
            None => fields,
        };
        fields.object()
    }
}

/// A guild, as clients see it.
#[derive(Debug, PartialEq)]
pub struct Guild {
    pub id: String,
    pub name: String,
    pub brief: String,
    pub icon: Option<String>,
    pub owner_id: String,
    pub created_at: Option<Timestamp>,
    pub channels: Option<Vec<Channel>>,
    pub members: Option<Vec<GuildMember>>,
}

impl Clone for Guild {
    fn clone(&self) -> (r: Self)
        ensures
            r.id == self.id,
            r.name == self.name,
            r.brief == self.brief,
            r.icon == self.icon,
            r.owner_id == self.owner_id,
            r.created_at == self.created_at,
            match (r.channels, self.channels) {
                (Some(copy), Some(channels)) => copy@ == channels@,
                (None, None) => true,
                _ => false,
            },
            match (r.members, self.members) {
                (Some(copy), Some(members)) => copy@ == members@,
                (None, None) => true,
                _ => false,
            },
            r.spec_json() == self.spec_json(),
    {
        let r = Guild {
            id: self.id.clone(),
            name: self.name.clone(),
            brief: self.brief.clone(),
            icon: self.icon.clone(),
            owner_id: self.owner_id.clone(),
            created_at: self.created_at,
            channels: match &self.channels {
                Some(channels) => Some(channels.clone()),
                None => None,
            },
            members: match &self.members {
                Some(members) => Some(members.clone()),
                None => None,
            },
        };
        assert(self.channels is Some ==> r.channels->0@ =~= self.channels->0@);
        assert(self.members is Some ==> r.members->0@ =~= self.members->0@);
        r
    }
}

/// What channels look like in JSON.
pub open spec fn channels_json(channels: Seq<Channel>) -> Seq<JsonView> {
    channels.map_values(|c: Channel| c.spec_json())
}

/// Writes channels in JSON.
fn channels_to_json(channels: &Vec<Channel>) -> (r: Json)
    ensures
        r@ == JsonView::Array(channels_json(channels@)),
{
    let mut values: Vec<Json> = Vec::new();
    let mut i: usize = 0;
    while i < channels.len()
        invariant
            i <= channels@.len(),
            items(values@) == channels_json(channels@.take(i as int)),
        decreases channels@.len() - i,
    {
        let ghost before = values@;
        values.push(channels[i].to_json());
        proof {
            lemma_items_push(before, values@.last());
            assert(channels_json(channels@.take(i + 1)) =~= channels_json(
                channels@.take(i as int),
            ).push(channels@[i as int].spec_json()));
        }
        i = i + 1;
    }
    assert(channels@.take(i as int) =~= channels@);
    Json::Array(values)
}

/// What memberships look like in JSON.
pub open spec fn members_json(members: Seq<GuildMember>) -> Seq<JsonView> {
    members.map_values(|m: GuildMember| m.spec_json())
}

/// Writes memberships in JSON.
fn members_to_json(members: &Vec<GuildMember>) -> (r: Json)
    ensures
        r@ == JsonView::Array(members_json(members@)),
{
    let mut values: Vec<Json> = Vec::new();
    let mut i: usize = 0;
    while i < members.len()
        invariant
            i <= members@.len(),
            items(values@) == members_json(members@.take(i as int)),
        decreases members@.len() - i,
    {
        let ghost before = values@;
        values.push(members[i].to_json());
        proof {
            lemma_items_push(before, values@.last());
            assert(members_json(members@.take(i + 1)) =~= members_json(
                members@.take(i as int),
            ).push(members@[i as int].spec_json()));
        }
        i = i + 1;
    }
    assert(members@.take(i as int) =~= members@);
    Json::Array(values)
}

impl Guild {
    /// What it looks like in JSON.
    pub open spec fn spec_json(self) -> JsonView {
        let fields = no_fields()
            .push(("id"@, JsonView::Text(self.id@)))
            .push(("name"@, JsonView::Text(self.name@)))
            .push(("brief"@, JsonView::Text(self.brief@)))
            .push(("icon"@, JsonView::optional_text(self.icon)))
            .push(("ownerId"@, JsonView::Text(self.owner_id@)))
            .push(("createdAt"@, optional_millis(self.created_at)));
        let fields = match self.channels {
            Some(channels) => fields.push(("channels"@, JsonView::Array(channels_json(channels@)))),
            None => fields,
        };
        let fields = match self.members {
            Some(members) => fields.push(("members"@, JsonView::Array(members_json(members@)))),
            None => fields,
        };
        JsonView::Object(fields)
    }

    /// Writes it in JSON.
    pub fn to_json(&self) -> (r: Json)
        ensures
            r@ == self.spec_json(),
    {
        let fields: Fields = Fields::new()
            .with("id", Json::text(self.id.as_str()))
            .with("name", Json::text(self.name.as_str()))
            .with("brief", Json::text(self.brief.as_str()))
            .with("icon", Json::optional_text(&self.icon))
            .with("ownerId", Json::text(self.owner_id.as_str()))
            .with("createdAt", optional_millis_json(self.created_at));
        let fields: Fields = match &self.channels {
            Some(channels) => fields.with("channels", channels_to_json(channels)),
            None => fields,
        };
        let fields: Fields = match &self.members {
            Some(members) => fields.with("members", members_to_json(members)),
            None => fields,
        };
        fields.object()
    }
}

/// What a membership adds to the author of a message.
#[derive(Debug, PartialEq)]
pub struct MemberInfo {
    pub nickname: Option<String>,
}

impl Clone for MemberInfo {
    fn clone(&self) -> (r: Self)
        ensures
            r == *self,
    {
        MemberInfo {
            nickname: self.nickname.clone(),
        }
    }
}

impl MemberInfo {
    /// What it looks like in JSON.
    pub open spec fn spec_json(self) -> JsonView {
        let fields = no_fields()
            .push(("nickname"@, JsonView::optional_text(self.nickname)));
        JsonView::Object(fields)
    }

    /// Writes it in JSON.
    pub fn to_json(&self) -> (r: Json)
        ensures
            r@ == self.spec_json(),
    {
        let fields: Fields = Fields::new()
            .with("nickname", Json::optional_text(&self.nickname));
        fields.object()
    }
}

/// The author of a message.
#[derive(Debug, PartialEq)]
pub struct MessageAuthor {
    pub id: String,
    pub username: String,
    pub tag: String,
    pub avatar: Option<String>,
    pub bot: bool,
    pub status: String,
    pub flags: i32,
    pub member: Option<MemberInfo>,
}

impl Clone for MessageAuthor {
    fn clone(&self) -> (r: Self)
        ensures
            r == *self,
    {
        MessageAuthor {
            id: self.id.clone(),
            username: self.username.clone(),
            tag: self.tag.clone(),
            avatar: self.avatar.clone(),
            bot: self.bot,
            status: self.status.clone(),
            flags: self.flags,
            member: match &self.member {
                Some(member) => Some(member.clone()),
                None => None,
            },
        }
    }
}

impl MessageAuthor {
    /// What it looks like in JSON.
    pub open spec fn spec_json(self) -> JsonView {
        let fields = no_fields()
            .push(("id"@, JsonView::Text(self.id@)))
            .push(("username"@, JsonView::Text(self.username@)))
            .push(("tag"@, JsonView::Text(self.tag@)))
            .push(("avatar"@, JsonView::optional_text(self.avatar)))
            .push(("bot"@, JsonView::Bool(self.bot)))
            .push(("status"@, JsonView::Text(self.status@)))
            .push(("flags"@, JsonView::Int(self.flags as int)));
        let fields = match self.member {
            Some(member) => fields.push(("member"@, member.spec_json())),
            None => fields,
        };
        JsonView::Object(fields)
    }

    /// Writes it in JSON.
    pub fn to_json(&self) -> (r: Json)
        ensures
            r@ == self.spec_json(),
    {
        let fields: Fields = Fields::new()
            .with("id", Json::text(self.id.as_str()))
            .with("username", Json::text(self.username.as_str()))
            .with("tag", Json::text(self.tag.as_str()))
            .with("avatar", Json::optional_text(&self.avatar))
            .with("bot", Json::Bool(self.bot))
            .with("status", Json::text(self.status.as_str()))
            .with("flags", Json::number(self.flags as i64));
        let fields: Fields = match &self.member {
            Some(member) => fields.with("member", member.to_json()),
            None => fields,
        };
        fields.object()
    }
}

/// A message, as clients see it.
#[derive(Debug, PartialEq)]
pub struct Message {
    pub id: String,
    pub author_id: String,
    pub channel_id: String,
    pub guild_id: String,
    pub content: Option<String>,
    pub created_at: Option<Timestamp>,
    pub updated_at: Option<Timestamp>,
    pub message_type: String,
    pub nonce: Option<String>,
    pub author: Option<MessageAuthor>,
}

impl Clone for Message {
    fn clone(&self) -> (r: Self)
        ensures
            r == *self,
    {
        Message {
            id: self.id.clone(),
            author_id: self.author_id.clone(),
            channel_id: self.channel_id.clone(),
            guild_id: self.guild_id.clone(),
            content: self.content.clone(),
            created_at: self.created_at,
            updated_at: self.updated_at,
            message_type: self.message_type.clone(),
            nonce: self.nonce.clone(),
            author: match &self.author {
                Some(author) => Some(author.clone()),
                None => None,
            },
        }
    }
}

impl Message {
    /// What it looks like in JSON.
    pub open spec fn spec_json(self) -> JsonView {
        let fields = no_fields()
            .push(("id"@, JsonView::Text(self.id@)))
            .push(("authorId"@, JsonView::Text(self.author_id@)))
            .push(("channelId"@, JsonView::Text(self.channel_id@)))
            .push(("guildId"@, JsonView::Text(self.guild_id@)))
            .push(("content"@, JsonView::optional_text(self.content)))
            .push(("createdAt"@, optional_millis(self.created_at)))
            .push(("updatedAt"@, optional_millis(self.updated_at)))
            .push(("type"@, JsonView::Text(self.message_type@)))
            .push(("nonce"@, JsonView::optional_text(self.nonce)));
        let fields = match self.author {
            Some(author) => fields.push(("author"@, author.spec_json())),
            None => fields,
        };
        JsonView::Object(fields)
    }

    /// Writes it in JSON.
    pub fn to_json(&self) -> (r: Json)
        ensures
            r@ == self.spec_json(),
    {
        let fields: Fields = Fields::new()
            .with("id", Json::text(self.id.as_str()))
            .with("authorId", Json::text(self.author_id.as_str()))
            .with("channelId", Json::text(self.channel_id.as_str()))
            .with("guildId", Json::text(self.guild_id.as_str()))
            .with("content", Json::optional_text(&self.content))
            .with("createdAt", optional_millis_json(self.created_at))
            .with("updatedAt", optional_millis_json(self.updated_at))
            .with("type", Json::text(self.message_type.as_str()))
            .with("nonce", Json::optional_text(&self.nonce));
        let fields: Fields = match &self.author {
            Some(author) => fields.with("author", author.to_json()),
            None => fields,
        };
        fields.object()
    }
}

/// An invitation into a guild.
#[derive(Debug, PartialEq)]
pub struct Invite {
    pub id: String,
    pub guild_id: String,
    pub code: String,
    pub uses: i32,
    pub max_uses: i32,
    pub creator_id: Option<String>,
    pub channel_id: String,
    pub vanity: bool,
}

impl Clone for Invite {
    fn clone(&self) -> (r: Self)
        ensures
            r == *self,
    {
        Invite {
            id: self.id.clone(),
            guild_id: self.guild_id.clone(),
            code: self.code.clone(),
            uses: self.uses,
            max_uses: self.max_uses,
            creator_id: self.creator_id.clone(),
            channel_id: self.channel_id.clone(),
            vanity: self.vanity,
        }
    }
}

impl Invite {
    /// What it looks like in JSON.
    pub open spec fn spec_json(self) -> JsonView {
        let fields = no_fields()
            .push(("id"@, JsonView::Text(self.id@)))
            .push(("guildId"@, JsonView::Text(self.guild_id@)))
            .push(("code"@, JsonView::Text(self.code@)))
            .push(("uses"@, JsonView::Int(self.uses as int)))
            .push(("maxUses"@, JsonView::Int(self.max_uses as int)))
            .push(("creatorId"@, JsonView::optional_text(self.creator_id)))
            .push(("channelId"@, JsonView::Text(self.channel_id@)))
            .push(("vanity"@, JsonView::Bool(self.vanity)));
        JsonView::Object(fields)
    }

    /// Writes it in JSON.
    pub fn to_json(&self) -> (r: Json)
        ensures
            r@ == self.spec_json(),
    {
        let fields: Fields = Fields::new()
            .with("id", Json::text(self.id.as_str()))
            .with("guildId", Json::text(self.guild_id.as_str()))
            .with("code", Json::text(self.code.as_str()))
            .with("uses", Json::number(self.uses as i64))
            .with("maxUses", Json::number(self.max_uses as i64))
            .with("creatorId", Json::optional_text(&self.creator_id))
            .with("channelId", Json::text(self.channel_id.as_str()))
            .with("vanity", Json::Bool(self.vanity));
        fields.object()
    }
}

/// The guild that an invitation leads to.
#[derive(Debug, PartialEq)]
pub struct InviteGuild {
    pub id: String,
    pub name: String,
    pub brief: String,
    pub icon: Option<String>,
}

impl Clone for InviteGuild {
    fn clone(&self) -> (r: Self)
        ensures
            r == *self,
    {
        InviteGuild {
            id: self.id.clone(),
            name: self.name.clone(),
            brief: self.brief.clone(),
            icon: self.icon.clone(),
        }
    }
}

impl InviteGuild {
    /// What it looks like in JSON.
    pub open spec fn spec_json(self) -> JsonView {
        let fields = no_fields()
            .push(("id"@, JsonView::Text(self.id@)))
            .push(("name"@, JsonView::Text(self.name@)))
            .push(("brief"@, JsonView::Text(self.brief@)))
            .push(("icon"@, JsonView::optional_text(self.icon)));
        JsonView::Object(fields)
    }

    /// Writes it in JSON.
    pub fn to_json(&self) -> (r: Json)
        ensures
            r@ == self.spec_json(),
    {
        let fields: Fields = Fields::new()
            .with("id", Json::text(self.id.as_str()))
            .with("name", Json::text(self.name.as_str()))
            .with("brief", Json::text(self.brief.as_str()))
            .with("icon", Json::optional_text(&self.icon));
        fields.object()
    }
}

/// The channel that an invitation leads to.
#[derive(Debug, PartialEq)]
pub struct InviteChannel {
    pub id: String,
    pub channel_type: i32,
    pub name: String,
}

impl Clone for InviteChannel {
    fn clone(&self) -> (r: Self)
        ensures
            r == *self,
    {
        InviteChannel {
            id: self.id.clone(),
            channel_type: self.channel_type,
            name: self.name.clone(),
        }
    }
}

impl InviteChannel {
    /// What it looks like in JSON.
    pub open spec fn spec_json(self) -> JsonView {
        let fields = no_fields()
            .push(("id"@, JsonView::Text(self.id@)))
            .push(("type"@, JsonView::Int(self.channel_type as int)))
            .push(("name"@, JsonView::Text(self.name@)));
        JsonView::Object(fields)
    }

    /// Writes it in JSON.
    pub fn to_json(&self) -> (r: Json)
        ensures
            r@ == self.spec_json(),
    {
        let fields: Fields = Fields::new()
            .with("id", Json::text(self.id.as_str()))
            .with("type", Json::number(self.channel_type as i64))
            .with("name", Json::text(self.name.as_str()));
        fields.object()
    }
}

/// An invitation, as clients see it.
#[derive(Debug, PartialEq)]
pub struct InviteResponse {
    pub invite_type: i32,
    pub code: String,
    pub inviter: Option<User>,
    pub guild: InviteGuild,
    pub guild_id: String,
    pub channel: InviteChannel,
}

impl Clone for InviteResponse {
    fn clone(&self) -> (r: Self)
        ensures
            r == *self,
    {
        InviteResponse {
            invite_type: self.invite_type,
            code: self.code.clone(),
            inviter: match &self.inviter {
                Some(inviter) => Some(inviter.clone()),
                None => None,
            },
            guild: self.guild.clone(),
            guild_id: self.guild_id.clone(),
            channel: self.channel.clone(),
        }
    }
}

impl InviteResponse {
    /// What it looks like in JSON.
    pub open spec fn spec_json(self) -> JsonView {
        let fields = no_fields()
            .push(("type"@, JsonView::Int(self.invite_type as int)))
            .push(("code"@, JsonView::Text(self.code@)))
            .push(("inviter"@, match self.inviter {
                Some(inviter) => inviter.spec_json(),
                None => JsonView::Null,
            }))
            .push(("guild"@, self.guild.spec_json()))
            .push(("guildId"@, JsonView::Text(self.guild_id@)))
            .push(("channel"@, self.channel.spec_json()));
        JsonView::Object(fields)
    }

    /// Writes it in JSON.
    pub fn to_json(&self) -> (r: Json)
        ensures
            r@ == self.spec_json(),
    {
        let fields: Fields = Fields::new()
            .with("type", Json::number(self.invite_type as i64))
            .with("code", Json::text(self.code.as_str()))
            .with("inviter", match &self.inviter {
                Some(inviter) => inviter.to_json(),
                None => Json::Null,
            })
            .with("guild", self.guild.to_json())
            .with("guildId", Json::text(self.guild_id.as_str()))
            .with("channel", self.channel.to_json());
        fields.object()
    }
}

/// Whether a user is there.
#[derive(Debug, PartialEq)]
pub struct Presence {
    pub id: String,
    pub status: String,
}

impl Clone for Presence {
    fn clone(&self) -> (r: Self)
        ensures
            r == *self,
    {
        Presence {
            id: self.id.clone(),
            status: self.status.clone(),
        }
    }
}

impl Presence {
    /// What it looks like in JSON.
    pub open spec fn spec_json(self) -> JsonView {
        let fields = no_fields()
            .push(("id"@, JsonView::Text(self.id@)))
            .push(("status"@, JsonView::Text(self.status@)));
        JsonView::Object(fields)
    }

    /// Writes it in JSON.
    pub fn to_json(&self) -> (r: Json)
        ensures
            r@ == self.spec_json(),
    {
        let fields: Fields = Fields::new()
            .with("id", Json::text(self.id.as_str()))
            .with("status", Json::text(self.status.as_str()));
        fields.object()
    }
}

/// What a user may do.
pub struct UserFlags;

impl UserFlags {
    /// The flag of a user who may administer the service.
    pub const ADMIN: i32 = 1;
}

impl User {
    /// What the row of the database is shown as.
    pub open spec fn of_row(u: Users) -> User {
        User {
            id: u.id,
            username: u.username,
            tag: u.tag,
            created_at: u.created_at,
            bot: u.bot,
            status: u.status,
            flags: u.flags,
            bio: u.bio,
            avatar: u.avatar,
            banner: u.banner,
        }
    }
}

impl From<Users> for User {
    fn from(u: Users) -> (r: Self) {
        User {
            id: u.id,
            username: u.username,
            tag: u.tag,
            created_at: u.created_at,
            bot: u.bot,
            status: u.status,
            flags: u.flags,
            bio: u.bio,
            avatar: u.avatar,
            banner: u.banner,
        }
    }
}

impl FromSpecImpl<Users> for User {
    open spec fn obeys_from_spec() -> bool {
        true
    }

    open spec fn from_spec(u: Users) -> Self {
        User::of_row(u)
    }
}

impl Guild {
    /// What the row of the database is shown as.
    pub open spec fn of_row(g: Guilds) -> Guild {
        Guild {
            id: g.id,
            name: g.name,
            brief: g.brief,
            icon: g.icon,
            owner_id: g.owner_id,
            created_at: Some(g.created_at),
            channels: None,
            members: None,
        }
    }
}

impl From<Guilds> for Guild {
    fn from(g: Guilds) -> (r: Self) {
        Guild {
            id: g.id,
            name: g.name,
            brief: g.brief,
            icon: g.icon,
            owner_id: g.owner_id,
            created_at: Some(g.created_at),
            channels: None,
            members: None,
        }
    }
}

impl FromSpecImpl<Guilds> for Guild {
    open spec fn obeys_from_spec() -> bool {
        true
    }

    open spec fn from_spec(g: Guilds) -> Self {
        Guild::of_row(g)
    }
}

impl Channel {
    /// What the row of the database is shown as.
    pub open spec fn of_row(c: Channels) -> Channel {
        Channel {
            id: c.id,
            name: c.name,
            guild_id: c.guild_id,
            created_at: Some(c.created_at),
            rate_limit_per_user: c.rate_limit_per_user,
        }
    }
}

impl From<Channels> for Channel {
    fn from(c: Channels) -> (r: Self) {
        Channel {
            id: c.id,
            name: c.name,
            guild_id: c.guild_id,
            created_at: Some(c.created_at),
            rate_limit_per_user: c.rate_limit_per_user,
        }
    }
}

impl FromSpecImpl<Channels> for Channel {
    open spec fn obeys_from_spec() -> bool {
        true
    }

    open spec fn from_spec(c: Channels) -> Self {
        Channel::of_row(c)
    }
}

impl GuildMember {
    /// What the row of the database is shown as.
    pub open spec fn of_row(m: GuildMembers) -> GuildMember {
        GuildMember {
            id: m.id,
            guild_id: m.guild_id,
            user_id: m.user_id,
            nickname: m.nickname,
            joined_at: m.joined_at,
            user: None,
        }
    }
}

impl From<GuildMembers> for GuildMember {
    fn from(m: GuildMembers) -> (r: Self) {
        GuildMember {
            id: m.id,
            guild_id: m.guild_id,
            user_id: m.user_id,
            nickname: m.nickname,
            joined_at: m.joined_at,
            user: None,
        }
    }
}

impl FromSpecImpl<GuildMembers> for GuildMember {
    open spec fn obeys_from_spec() -> bool {
        true
    }

    open spec fn from_spec(m: GuildMembers) -> Self {
        GuildMember::of_row(m)
    }
}

impl Message {
    /// What the row of the database is shown as.
    pub open spec fn of_row(m: Messages) -> Message {
        Message {
            id: m.id,
            author_id: m.author_id,
            channel_id: m.channel_id,
            guild_id: m.guild_id,
            content: m.content,
            created_at: Some(m.created_at),
            updated_at: m.updated_at,
            message_type: m.message_type,
            nonce: Some(m.nonce),
            author: None,
        }
    }
}

impl From<Messages> for Message {
    fn from(m: Messages) -> (r: Self) {
        Message {
            id: m.id,
            author_id: m.author_id,
            channel_id: m.channel_id,
            guild_id: m.guild_id,
            content: m.content,
            created_at: Some(m.created_at),
            updated_at: m.updated_at,
            message_type: m.message_type,
            nonce: Some(m.nonce),
            author: None,
        }
    }
}

impl FromSpecImpl<Messages> for Message {
    open spec fn obeys_from_spec() -> bool {
        true
    }

    open spec fn from_spec(m: Messages) -> Self {
        Message::of_row(m)
    }
}

} // verus!
