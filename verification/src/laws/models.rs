//! What models look like in JSON, field by field.

use vstd::prelude::*;
use crate::json::JsonView;
use crate::laws::lookup::{lemma_found_after, lemma_found_in_nothing};
use crate::models::{
    Account, AccountSettings, Channel, Guild, GuildMember, Invite, InviteChannel, InviteGuild,
    InviteResponse, MemberInfo, Message, MessageAuthor, Presence, User,
};
use crate::orm::channels::Channels;
use crate::orm::guild_members::GuildMembers;
use crate::orm::guilds::Guilds;
use crate::orm::messages::Messages;
use crate::orm::users::Users;
use crate::orm::value::Timestamp;

verus! {

broadcast use {lemma_found_after, lemma_found_in_nothing};

/// Whether a field tells a moment in whole milliseconds, rounded towards the past.
pub open spec fn says_moment(json: JsonView, name: Seq<char>, t: Timestamp) -> bool {
    match json.field(name) {
        Some(JsonView::Int(ms)) => 1000 * ms <= t.micros < 1000 * ms + 1000,
        _ => false,
    }
}

/// A user is written with each of its parts under its own name, and with nothing else.
pub proof fn lemma_user_written(user: User)
    ensures
        user.spec_json().field("id"@) == Some(JsonView::Text(user.id@)),
        user.spec_json().field("username"@) == Some(JsonView::Text(user.username@)),
        user.spec_json().field("tag"@) == Some(JsonView::Text(user.tag@)),
        says_moment(user.spec_json(), "createdAt"@, user.created_at),
        user.spec_json().field("bot"@) == Some(JsonView::Bool(user.bot)),
        user.spec_json().field("status"@) == Some(JsonView::Text(user.status@)),
        user.spec_json().field("flags"@) == Some(JsonView::Int(user.flags as int)),
        user.spec_json().field("bio"@) == Some(match user.bio {
            Some(t) => JsonView::Text(t@),
            None => JsonView::Null,
        }),
        user.spec_json().field("avatar"@) == Some(match user.avatar {
            Some(t) => JsonView::Text(t@),
            None => JsonView::Null,
        }),
        user.spec_json().field("banner"@) == Some(match user.banner {
            Some(t) => JsonView::Text(t@),
            None => JsonView::Null,
        }),
        forall|name: Seq<char>| #[trigger] user.spec_json().field(name) is Some ==> {
            ||| name == "id"@
            ||| name == "username"@
            ||| name == "tag"@
            ||| name == "createdAt"@
            ||| name == "bot"@
            ||| name == "status"@
            ||| name == "flags"@
            ||| name == "bio"@
            ||| name == "avatar"@
            ||| name == "banner"@
        },
{
    reveal_strlit("id");
    assert("id"@.len() == 2);
    reveal_strlit("username");
    assert("username"@.len() == 8);
    reveal_strlit("tag");
    assert("tag"@.len() == 3);
    reveal_strlit("createdAt");
    assert("createdAt"@.len() == 9);
    reveal_strlit("bot");
    assert("bot"@.len() == 3);
    reveal_strlit("status");
    assert("status"@.len() == 6);
    reveal_strlit("flags");
    assert("flags"@.len() == 5);
    reveal_strlit("bio");
    assert("bio"@.len() == 3);
    reveal_strlit("avatar");
    assert("avatar"@.len() == 6);
    reveal_strlit("banner");
    assert("banner"@.len() == 6);
    assert("tag"@[0] != "bot"@[0]);
    assert("tag"@[0] != "bio"@[0]);
    assert("bot"@[1] != "bio"@[1]);
    assert("status"@[0] != "avatar"@[0]);
    assert("status"@[0] != "banner"@[0]);
    assert("avatar"@[0] != "banner"@[0]);
}

/// Whether a JSON value shows a row, each column under its own name.
pub open spec fn shows_user(json: JsonView, row: Users) -> bool {
    &&& json.field("id"@) == Some(JsonView::Text(row.id@))
    &&& json.field("username"@) == Some(JsonView::Text(row.username@))
    &&& json.field("tag"@) == Some(JsonView::Text(row.tag@))
    &&& says_moment(json, "createdAt"@, row.created_at)
    &&& json.field("bot"@) == Some(JsonView::Bool(row.bot))
    &&& json.field("status"@) == Some(JsonView::Text(row.status@))
    &&& json.field("flags"@) == Some(JsonView::Int(row.flags as int))
    &&& json.field("bio"@) == Some(match row.bio {
            Some(t) => JsonView::Text(t@),
            None => JsonView::Null,
        })
    &&& json.field("avatar"@) == Some(match row.avatar {
            Some(t) => JsonView::Text(t@),
            None => JsonView::Null,
        })
    &&& json.field("banner"@) == Some(match row.banner {
            Some(t) => JsonView::Text(t@),
            None => JsonView::Null,
        })
}

/// A row is shown with each of its columns under its own name.
pub proof fn lemma_user_shown(row: Users)
    ensures
        shows_user(User::of_row(row).spec_json(), row),
{
    lemma_user_written(User::of_row(row));
}

/// An account is written with each of its parts under its own name, and with nothing else.
pub proof fn lemma_account_written(account: Account)
    ensures
        account.spec_json().field("id"@) == Some(JsonView::Text(account.id@)),
        account.spec_json().field("email"@) == Some(JsonView::Text(account.email@)),
        account.spec_json().field("emailVerified"@) == Some(JsonView::Bool(account.email_verified)),
        account.spec_json().field("locale"@) == Some(JsonView::Text(account.locale@)),
        forall|name: Seq<char>| #[trigger] account.spec_json().field(name) is Some ==> {
            ||| name == "id"@
            ||| name == "email"@
            ||| name == "emailVerified"@
            ||| name == "locale"@
        },
{
    reveal_strlit("id");
    assert("id"@.len() == 2);
    reveal_strlit("email");
    assert("email"@.len() == 5);
    reveal_strlit("emailVerified");
    assert("emailVerified"@.len() == 13);
    reveal_strlit("locale");
    assert("locale"@.len() == 6);
}

/// The settings of an account is written with each of its parts under its own name, and with
/// nothing else.
pub proof fn lemma_account_settings_written(settings: AccountSettings)
    ensures
        settings.spec_json().field("theme"@) == Some(JsonView::Text(settings.theme@)),
        settings.spec_json().field("compactMode"@) == Some(match settings.compact_mode {
            Some(b) => JsonView::Bool(b),
            None => JsonView::Null,
        }),
        settings.spec_json().field("compactShowAvatars"@) == Some(
            match settings.compact_show_avatars {
                Some(b) => JsonView::Bool(b),
                None => JsonView::Null,
            },
        ),
        settings.spec_json().field("pendingDeletion"@) == Some(match settings.pending_deletion {
            Some(b) => JsonView::Bool(b),
            None => JsonView::Null,
        }),
        settings.spec_json().field("deleteAt"@) == Some(match settings.delete_at {
            Some(t) => JsonView::Text(t@),
            None => JsonView::Null,
        }),
        forall|name: Seq<char>| #[trigger] settings.spec_json().field(name) is Some ==> {
            ||| name == "theme"@
            ||| name == "compactMode"@
            ||| name == "compactShowAvatars"@
            ||| name == "pendingDeletion"@
            ||| name == "deleteAt"@
        },
{
    reveal_strlit("theme");
    assert("theme"@.len() == 5);
    reveal_strlit("compactMode");
    assert("compactMode"@.len() == 11);
    reveal_strlit("compactShowAvatars");
    assert("compactShowAvatars"@.len() == 18);
    reveal_strlit("pendingDeletion");
    assert("pendingDeletion"@.len() == 15);
    reveal_strlit("deleteAt");
    assert("deleteAt"@.len() == 8);
}

/// A channel is written with each of its parts under its own name, and with nothing else.
pub proof fn lemma_channel_written(channel: Channel)
    ensures
        channel.spec_json().field("id"@) == Some(JsonView::Text(channel.id@)),
        channel.spec_json().field("name"@) == Some(JsonView::Text(channel.name@)),
        channel.spec_json().field("guildId"@) == Some(JsonView::Text(channel.guild_id@)),
        match channel.created_at {
            Some(t) => says_moment(channel.spec_json(), "createdAt"@, t),
            None => channel.spec_json().field("createdAt"@) == Some(JsonView::Null),
        },
        channel.spec_json().field("rateLimitPerUser"@) == Some(
            JsonView::Int(channel.rate_limit_per_user as int),
        ),
        forall|name: Seq<char>| #[trigger] channel.spec_json().field(name) is Some ==> {
            ||| name == "id"@
            ||| name == "name"@
            ||| name == "guildId"@
            ||| name == "createdAt"@
            ||| name == "rateLimitPerUser"@
        },
{
    reveal_strlit("id");
    assert("id"@.len() == 2);
    reveal_strlit("name");
    assert("name"@.len() == 4);
    reveal_strlit("guildId");
    assert("guildId"@.len() == 7);
    reveal_strlit("createdAt");
    assert("createdAt"@.len() == 9);
    reveal_strlit("rateLimitPerUser");
    assert("rateLimitPerUser"@.len() == 16);
}

/// Whether a JSON value shows a row, each column under its own name.
pub open spec fn shows_channel(json: JsonView, row: Channels) -> bool {
    &&& json.field("id"@) == Some(JsonView::Text(row.id@))
    &&& json.field("name"@) == Some(JsonView::Text(row.name@))
    &&& json.field("guildId"@) == Some(JsonView::Text(row.guild_id@))
    &&& says_moment(json, "createdAt"@, row.created_at)
    &&& json.field("rateLimitPerUser"@) == Some(JsonView::Int(row.rate_limit_per_user as int))
}

/// A row is shown with each of its columns under its own name.
pub proof fn lemma_channel_shown(row: Channels)
    ensures
        shows_channel(Channel::of_row(row).spec_json(), row),
{
    lemma_channel_written(Channel::of_row(row));
}

/// A membership is written with each of its parts under its own name, and with nothing else.
pub proof fn lemma_guild_member_written(member: GuildMember)
    ensures
        member.spec_json().field("id"@) == Some(JsonView::Int(member.id as int)),
        member.spec_json().field("guildId"@) == Some(JsonView::Text(member.guild_id@)),
        member.spec_json().field("userId"@) == Some(JsonView::Text(member.user_id@)),
        member.spec_json().field("nickname"@) == Some(match member.nickname {
            Some(t) => JsonView::Text(t@),
            None => JsonView::Null,
        }),
        says_moment(member.spec_json(), "joinedAt"@, member.joined_at),
        member.spec_json().field("user"@) == match member.user {
            Some(part) => Some(part.spec_json()),
            None => None,
        },
        forall|name: Seq<char>| #[trigger] member.spec_json().field(name) is Some ==> {
            ||| name == "id"@
            ||| name == "guildId"@
            ||| name == "userId"@
            ||| name == "nickname"@
            ||| name == "joinedAt"@
            ||| name == "user"@
        },
{
    reveal_strlit("id");
    assert("id"@.len() == 2);
    reveal_strlit("guildId");
    assert("guildId"@.len() == 7);
    reveal_strlit("userId");
    assert("userId"@.len() == 6);
    reveal_strlit("nickname");
    assert("nickname"@.len() == 8);
    reveal_strlit("joinedAt");
    assert("joinedAt"@.len() == 8);
    reveal_strlit("user");
    assert("user"@.len() == 4);
    assert("nickname"@[0] != "joinedAt"@[0]);
}

/// Whether a JSON value shows a row, each column under its own name.
pub open spec fn shows_guild_member(json: JsonView, row: GuildMembers) -> bool {
    &&& json.field("id"@) == Some(JsonView::Int(row.id as int))
    &&& json.field("guildId"@) == Some(JsonView::Text(row.guild_id@))
    &&& json.field("userId"@) == Some(JsonView::Text(row.user_id@))
    &&& json.field("nickname"@) == Some(match row.nickname {
            Some(t) => JsonView::Text(t@),
            None => JsonView::Null,
        })
    &&& says_moment(json, "joinedAt"@, row.joined_at)
}

/// A row is shown with each of its columns under its own name.
pub proof fn lemma_guild_member_shown(row: GuildMembers)
    ensures
        shows_guild_member(GuildMember::of_row(row).spec_json(), row),
{
    lemma_guild_member_written(GuildMember::of_row(row));
}

/// A guild is written with each of its parts under its own name, and with nothing else.
pub proof fn lemma_guild_written(guild: Guild)
    ensures
        guild.spec_json().field("id"@) == Some(JsonView::Text(guild.id@)),
        guild.spec_json().field("name"@) == Some(JsonView::Text(guild.name@)),
        guild.spec_json().field("brief"@) == Some(JsonView::Text(guild.brief@)),
        guild.spec_json().field("icon"@) == Some(match guild.icon {
            Some(t) => JsonView::Text(t@),
            None => JsonView::Null,
        }),
        guild.spec_json().field("ownerId"@) == Some(JsonView::Text(guild.owner_id@)),
        match guild.created_at {
            Some(t) => says_moment(guild.spec_json(), "createdAt"@, t),
            None => guild.spec_json().field("createdAt"@) == Some(JsonView::Null),
        },
        match (guild.channels, guild.spec_json().field("channels"@)) {
            (Some(all), Some(JsonView::Array(list))) => list.len() == all@.len() && forall|i: int|
                0 <= i < list.len() ==> #[trigger] list[i] == all@[i].spec_json(),
            (None, found) => found is None,
            _ => false,
        },
        match (guild.members, guild.spec_json().field("members"@)) {
            (Some(all), Some(JsonView::Array(list))) => list.len() == all@.len() && forall|i: int|
                0 <= i < list.len() ==> #[trigger] list[i] == all@[i].spec_json(),
            (None, found) => found is None,
            _ => false,
        },
        forall|name: Seq<char>| #[trigger] guild.spec_json().field(name) is Some ==> {
            ||| name == "id"@
            ||| name == "name"@
            ||| name == "brief"@
            ||| name == "icon"@
            ||| name == "ownerId"@
            ||| name == "createdAt"@
            ||| name == "channels"@
            ||| name == "members"@
        },
{
    reveal_strlit("id");
    assert("id"@.len() == 2);
    reveal_strlit("name");
    assert("name"@.len() == 4);
    reveal_strlit("brief");
    assert("brief"@.len() == 5);
    reveal_strlit("icon");
    assert("icon"@.len() == 4);
    reveal_strlit("ownerId");
    assert("ownerId"@.len() == 7);
    reveal_strlit("createdAt");
    assert("createdAt"@.len() == 9);
    reveal_strlit("channels");
    assert("channels"@.len() == 8);
    reveal_strlit("members");
    assert("members"@.len() == 7);
    assert("name"@[0] != "icon"@[0]);
    assert("ownerId"@[0] != "members"@[0]);
}

/// Whether a JSON value shows a row, each column under its own name.
pub open spec fn shows_guild(json: JsonView, row: Guilds) -> bool {
    &&& json.field("id"@) == Some(JsonView::Text(row.id@))
    &&& json.field("name"@) == Some(JsonView::Text(row.name@))
    &&& json.field("brief"@) == Some(JsonView::Text(row.brief@))
    &&& json.field("icon"@) == Some(match row.icon {
            Some(t) => JsonView::Text(t@),
            None => JsonView::Null,
        })
    &&& json.field("ownerId"@) == Some(JsonView::Text(row.owner_id@))
    &&& says_moment(json, "createdAt"@, row.created_at)
}

/// A row is shown with each of its columns under its own name.
pub proof fn lemma_guild_shown(row: Guilds)
    ensures
        shows_guild(Guild::of_row(row).spec_json(), row),
{
    lemma_guild_written(Guild::of_row(row));
}

/// What a message tells of the membership of its author is written with each of its parts under its
/// own name, and with nothing else.
pub proof fn lemma_member_info_written(info: MemberInfo)
    ensures
        info.spec_json().field("nickname"@) == Some(match info.nickname {
            Some(t) => JsonView::Text(t@),
            None => JsonView::Null,
        }),
        forall|name: Seq<char>| #[trigger]
            info.spec_json().field(name) is Some ==> name == "nickname"@,
{
    reveal_strlit("nickname");
    assert("nickname"@.len() == 8);
}

/// The author of a message is written with each of its parts under its own name, and with nothing
/// else.
pub proof fn lemma_message_author_written(author: MessageAuthor)
    ensures
        author.spec_json().field("id"@) == Some(JsonView::Text(author.id@)),
        author.spec_json().field("username"@) == Some(JsonView::Text(author.username@)),
        author.spec_json().field("tag"@) == Some(JsonView::Text(author.tag@)),
        author.spec_json().field("avatar"@) == Some(match author.avatar {
            Some(t) => JsonView::Text(t@),
            None => JsonView::Null,
        }),
        author.spec_json().field("bot"@) == Some(JsonView::Bool(author.bot)),
        author.spec_json().field("status"@) == Some(JsonView::Text(author.status@)),
        author.spec_json().field("flags"@) == Some(JsonView::Int(author.flags as int)),
        author.spec_json().field("member"@) == match author.member {
            Some(part) => Some(part.spec_json()),
            None => None,
        },
        forall|name: Seq<char>| #[trigger] author.spec_json().field(name) is Some ==> {
            ||| name == "id"@
            ||| name == "username"@
            ||| name == "tag"@
            ||| name == "avatar"@
            ||| name == "bot"@
            ||| name == "status"@
            ||| name == "flags"@
            ||| name == "member"@
        },
{
    reveal_strlit("id");
    assert("id"@.len() == 2);
    reveal_strlit("username");
    assert("username"@.len() == 8);
    reveal_strlit("tag");
    assert("tag"@.len() == 3);
    reveal_strlit("avatar");
    assert("avatar"@.len() == 6);
    reveal_strlit("bot");
    assert("bot"@.len() == 3);
    reveal_strlit("status");
    assert("status"@.len() == 6);
    reveal_strlit("flags");
    assert("flags"@.len() == 5);
    reveal_strlit("member");
    assert("member"@.len() == 6);
    assert("tag"@[0] != "bot"@[0]);
    assert("avatar"@[0] != "status"@[0]);
    assert("avatar"@[0] != "member"@[0]);
    assert("status"@[0] != "member"@[0]);
}

/// A message is written with each of its parts under its own name, and with nothing else.
pub proof fn lemma_message_written(message: Message)
    ensures
        message.spec_json().field("id"@) == Some(JsonView::Text(message.id@)),
        message.spec_json().field("authorId"@) == Some(JsonView::Text(message.author_id@)),
        message.spec_json().field("channelId"@) == Some(JsonView::Text(message.channel_id@)),
        message.spec_json().field("guildId"@) == Some(JsonView::Text(message.guild_id@)),
        message.spec_json().field("content"@) == Some(match message.content {
            Some(t) => JsonView::Text(t@),
            None => JsonView::Null,
        }),
        match message.created_at {
            Some(t) => says_moment(message.spec_json(), "createdAt"@, t),
            None => message.spec_json().field("createdAt"@) == Some(JsonView::Null),
        },
        match message.updated_at {
            Some(t) => says_moment(message.spec_json(), "updatedAt"@, t),
            None => message.spec_json().field("updatedAt"@) == Some(JsonView::Null),
        },
        message.spec_json().field("type"@) == Some(JsonView::Text(message.message_type@)),
        message.spec_json().field("nonce"@) == Some(match message.nonce {
            Some(t) => JsonView::Text(t@),
            None => JsonView::Null,
        }),
        message.spec_json().field("author"@) == match message.author {
            Some(part) => Some(part.spec_json()),
            None => None,
        },
        forall|name: Seq<char>| #[trigger] message.spec_json().field(name) is Some ==> {
            ||| name == "id"@
            ||| name == "authorId"@
            ||| name == "channelId"@
            ||| name == "guildId"@
            ||| name == "content"@
            ||| name == "createdAt"@
            ||| name == "updatedAt"@
            ||| name == "type"@
            ||| name == "nonce"@
            ||| name == "author"@
        },
{
    reveal_strlit("id");
    assert("id"@.len() == 2);
    reveal_strlit("authorId");
    assert("authorId"@.len() == 8);
    reveal_strlit("channelId");
    assert("channelId"@.len() == 9);
    reveal_strlit("guildId");
    assert("guildId"@.len() == 7);
    reveal_strlit("content");
    assert("content"@.len() == 7);
    reveal_strlit("createdAt");
    assert("createdAt"@.len() == 9);
    reveal_strlit("updatedAt");
    assert("updatedAt"@.len() == 9);
    reveal_strlit("type");
    assert("type"@.len() == 4);
    reveal_strlit("nonce");
    assert("nonce"@.len() == 5);
    reveal_strlit("author");
    assert("author"@.len() == 6);
    assert("channelId"@[1] != "createdAt"@[1]);
    assert("channelId"@[0] != "updatedAt"@[0]);
    assert("guildId"@[0] != "content"@[0]);
    assert("createdAt"@[0] != "updatedAt"@[0]);
}

/// Whether a JSON value shows a row, each column under its own name.
pub open spec fn shows_message(json: JsonView, row: Messages) -> bool {
    &&& json.field("id"@) == Some(JsonView::Text(row.id@))
    &&& json.field("authorId"@) == Some(JsonView::Text(row.author_id@))
    &&& json.field("channelId"@) == Some(JsonView::Text(row.channel_id@))
    &&& json.field("guildId"@) == Some(JsonView::Text(row.guild_id@))
    &&& json.field("content"@) == Some(match row.content {
            Some(t) => JsonView::Text(t@),
            None => JsonView::Null,
        })
    &&& says_moment(json, "createdAt"@, row.created_at)
    &&& match row.updated_at {
            Some(t) => says_moment(json, "updatedAt"@, t),
            None => json.field("updatedAt"@) == Some(JsonView::Null),
        }
    &&& json.field("type"@) == Some(JsonView::Text(row.message_type@))
    &&& json.field("nonce"@) == Some(JsonView::Text(row.nonce@))
}

/// A row is shown with each of its columns under its own name.
pub proof fn lemma_message_shown(row: Messages)
    ensures
        shows_message(Message::of_row(row).spec_json(), row),
{
    lemma_message_written(Message::of_row(row));
}

/// An invitation is written with each of its parts under its own name, and with nothing else.
pub proof fn lemma_invite_written(invite: Invite)
    ensures
        invite.spec_json().field("id"@) == Some(JsonView::Text(invite.id@)),
        invite.spec_json().field("guildId"@) == Some(JsonView::Text(invite.guild_id@)),
        invite.spec_json().field("code"@) == Some(JsonView::Text(invite.code@)),
        invite.spec_json().field("uses"@) == Some(JsonView::Int(invite.uses as int)),
        invite.spec_json().field("maxUses"@) == Some(JsonView::Int(invite.max_uses as int)),
        invite.spec_json().field("creatorId"@) == Some(match invite.creator_id {
            Some(t) => JsonView::Text(t@),
            None => JsonView::Null,
        }),
        invite.spec_json().field("channelId"@) == Some(JsonView::Text(invite.channel_id@)),
        invite.spec_json().field("vanity"@) == Some(JsonView::Bool(invite.vanity)),
        forall|name: Seq<char>| #[trigger] invite.spec_json().field(name) is Some ==> {
            ||| name == "id"@
            ||| name == "guildId"@
            ||| name == "code"@
            ||| name == "uses"@
            ||| name == "maxUses"@
            ||| name == "creatorId"@
            ||| name == "channelId"@
            ||| name == "vanity"@
        },
{
    reveal_strlit("id");
    assert("id"@.len() == 2);
    reveal_strlit("guildId");
    assert("guildId"@.len() == 7);
    reveal_strlit("code");
    assert("code"@.len() == 4);
    reveal_strlit("uses");
    assert("uses"@.len() == 4);
    reveal_strlit("maxUses");
    assert("maxUses"@.len() == 7);
    reveal_strlit("creatorId");
    assert("creatorId"@.len() == 9);
    reveal_strlit("channelId");
    assert("channelId"@.len() == 9);
    reveal_strlit("vanity");
    assert("vanity"@.len() == 6);
    assert("guildId"@[0] != "maxUses"@[0]);
    assert("code"@[0] != "uses"@[0]);
    assert("creatorId"@[1] != "channelId"@[1]);
}

/// The guild of an invitation is written with each of its parts under its own name, and with
/// nothing else.
pub proof fn lemma_invite_guild_written(guild: InviteGuild)
    ensures
        guild.spec_json().field("id"@) == Some(JsonView::Text(guild.id@)),
        guild.spec_json().field("name"@) == Some(JsonView::Text(guild.name@)),
        guild.spec_json().field("brief"@) == Some(JsonView::Text(guild.brief@)),
        guild.spec_json().field("icon"@) == Some(match guild.icon {
            Some(t) => JsonView::Text(t@),
            None => JsonView::Null,
        }),
        forall|name: Seq<char>| #[trigger] guild.spec_json().field(name) is Some ==> {
            ||| name == "id"@
            ||| name == "name"@
            ||| name == "brief"@
            ||| name == "icon"@
        },
{
    reveal_strlit("id");
    assert("id"@.len() == 2);
    reveal_strlit("name");
    assert("name"@.len() == 4);
    reveal_strlit("brief");
    assert("brief"@.len() == 5);
    reveal_strlit("icon");
    assert("icon"@.len() == 4);
    assert("name"@[0] != "icon"@[0]);
}

/// The channel of an invitation is written with each of its parts under its own name, and with
/// nothing else.
pub proof fn lemma_invite_channel_written(channel: InviteChannel)
    ensures
        channel.spec_json().field("id"@) == Some(JsonView::Text(channel.id@)),
        channel.spec_json().field("type"@) == Some(JsonView::Int(channel.channel_type as int)),
        channel.spec_json().field("name"@) == Some(JsonView::Text(channel.name@)),
        forall|name: Seq<char>| #[trigger] channel.spec_json().field(name) is Some ==> {
            ||| name == "id"@
            ||| name == "type"@
            ||| name == "name"@
        },
{
    reveal_strlit("id");
    assert("id"@.len() == 2);
    reveal_strlit("type");
    assert("type"@.len() == 4);
    reveal_strlit("name");
    assert("name"@.len() == 4);
    assert("type"@[0] != "name"@[0]);
}

/// The answer to an invitation is written with each of its parts under its own name, and with
/// nothing else.
pub proof fn lemma_invite_response_written(response: InviteResponse)
    ensures
        response.spec_json().field("type"@) == Some(JsonView::Int(response.invite_type as int)),
        response.spec_json().field("code"@) == Some(JsonView::Text(response.code@)),
        response.spec_json().field("inviter"@) == Some(match response.inviter {
            Some(part) => part.spec_json(),
            None => JsonView::Null,
        }),
        response.spec_json().field("guild"@) == Some(response.guild.spec_json()),
        response.spec_json().field("guildId"@) == Some(JsonView::Text(response.guild_id@)),
        response.spec_json().field("channel"@) == Some(response.channel.spec_json()),
        forall|name: Seq<char>| #[trigger] response.spec_json().field(name) is Some ==> {
            ||| name == "type"@
            ||| name == "code"@
            ||| name == "inviter"@
            ||| name == "guild"@
            ||| name == "guildId"@
            ||| name == "channel"@
        },
{
    reveal_strlit("type");
    assert("type"@.len() == 4);
    reveal_strlit("code");
    assert("code"@.len() == 4);
    reveal_strlit("inviter");
    assert("inviter"@.len() == 7);
    reveal_strlit("guild");
    assert("guild"@.len() == 5);
    reveal_strlit("guildId");
    assert("guildId"@.len() == 7);
    reveal_strlit("channel");
    assert("channel"@.len() == 7);
    assert("type"@[0] != "code"@[0]);
    assert("inviter"@[0] != "guildId"@[0]);
    assert("inviter"@[0] != "channel"@[0]);
    assert("guildId"@[0] != "channel"@[0]);
}

/// A presence is written with each of its parts under its own name, and with nothing else.
pub proof fn lemma_presence_written(presence: Presence)
    ensures
        presence.spec_json().field("id"@) == Some(JsonView::Text(presence.id@)),
        presence.spec_json().field("status"@) == Some(JsonView::Text(presence.status@)),
        forall|name: Seq<char>| #[trigger] presence.spec_json().field(name) is Some ==> {
            ||| name == "id"@
            ||| name == "status"@
        },
{
    reveal_strlit("id");
    assert("id"@.len() == 2);
    reveal_strlit("status");
    assert("status"@.len() == 6);
}

} // verus!
