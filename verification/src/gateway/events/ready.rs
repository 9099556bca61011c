//! What a client is told once it has identified itself.

use vstd::prelude::*;
use crate::gateway::audience::{lists, with_new};
use crate::gateway::payload::{Payload, PayloadView};
use crate::json::{items, lemma_items_push, no_fields, Fields, Json, JsonView};
use crate::models::{
    channels_json, members_json, AccountSettings, Channel, Guild, GuildMember, Presence, User,
    UserFlags,
};
use crate::orm::accounts::Accounts;
use crate::orm::channels::Channels;
use crate::orm::guild_members::GuildMembers;
use crate::orm::guilds::Guilds;
use crate::orm::users::Users;
use crate::string_map::{sorted_keys, sorted_values, StringMap};
use crate::text::chars::{owned, texts};

verus! {

/// A user, and whether it has an open socket.
#[derive(Debug, PartialEq)]
pub struct Person {
    pub user: Users,
    pub connected: bool,
}

/// A membership, and the user it is of, where there is one.
#[derive(Debug, PartialEq)]
pub struct MemberVisit {
    pub member: GuildMembers,
    pub person: Option<Person>,
}

/// A guild with its channels and its members.
#[derive(Debug, PartialEq)]
pub struct GuildVisit {
    pub guild: Guilds,
    pub channels: Vec<Channels>,
    pub members: Vec<MemberVisit>,
}

/// Who identifies itself, and the guilds that it is a member of.
#[derive(Debug, PartialEq)]
pub struct Caller {
    pub account: Accounts,
    pub user: Users,
    pub settings: AccountSettings,
    pub memberships: Vec<GuildMembers>,
}

/// The ids of the guilds that memberships are in.
pub open spec fn guild_ids(memberships: Seq<GuildMembers>) -> Seq<Seq<char>> {
    memberships.map_values(|m: GuildMembers| m.guild_id@)
}

/// The rooms that a client is in: that of each guild, and that of the administrators for a user
/// with that flag.
pub open spec fn room_ids(memberships: Seq<GuildMembers>, flags: i32) -> Seq<Seq<char>> {
    if flags & UserFlags::ADMIN == UserFlags::ADMIN {
        guild_ids(memberships).push("admins"@)
    } else {
        guild_ids(memberships)
    }
}

/// The members of a guild whose user was found, in their order.
pub open spec fn found(members: Seq<MemberVisit>) -> Seq<(GuildMembers, Person)>
    decreases members.len(),
{
    if members.len() == 0 {
        Seq::empty()
    } else {
        let earlier = found(members.drop_last());
        match members.last().person {
            Some(person) => earlier.push((members.last().member, person)),
            None => earlier,
        }
    }
}

/// The persons that were found in the guilds, in their order.
pub open spec fn persons(visits: Seq<Option<GuildVisit>>) -> Seq<Person>
    decreases visits.len(),
{
    if visits.len() == 0 {
        Seq::empty()
    } else {
        let earlier = persons(visits.drop_last());
        match visits.last() {
            Some(visit) => earlier + found(visit.members@).map_values(
                |p: (GuildMembers, Person)| p.1,
            ),
            None => earlier,
        }
    }
}

/// The ids of the persons with an open socket, each once, in the order of their first sight.
pub open spec fn present_ids(persons: Seq<Person>) -> Seq<Seq<char>>
    decreases persons.len(),
{
    if persons.len() == 0 {
        Seq::empty()
    } else {
        let earlier = present_ids(persons.drop_last());
        if persons.last().connected {
            with_new(earlier, persons.last().user.id@)
        } else {
            earlier
        }
    }
}

/// The presences of the persons with an open socket, each once, in the order of their first
/// sight, as pairs of id and status.
pub open spec fn presences_of(persons: Seq<Person>) -> Seq<(Seq<char>, Seq<char>)>
    decreases persons.len(),
{
    if persons.len() == 0 {
        Seq::empty()
    } else {
        let earlier = presences_of(persons.drop_last());
        let person = persons.last();
        if person.connected && !present_ids(persons.drop_last()).contains(person.user.id@) {
            earlier.push((person.user.id@, person.user.status@))
        } else {
            earlier
        }
    }
}

/// All presences that a client is told: those of others, and its own unless it is among them.
pub open spec fn all_presences(
    persons: Seq<Person>,
    own_id: Seq<char>,
    own_status: Seq<char>,
) -> Seq<(Seq<char>, Seq<char>)> {
    if present_ids(persons).contains(own_id) {
        presences_of(persons)
    } else {
        presences_of(persons).push((own_id, own_status))
    }
}

/// The users that were found, by id: what was seen first stays.
pub open spec fn users_of(persons: Seq<Person>) -> Map<Seq<char>, User>
    decreases persons.len(),
{
    if persons.len() == 0 {
        Map::empty()
    } else {
        let earlier = users_of(persons.drop_last());
        let user = persons.last().user;
        if earlier.contains_key(user.id@) {
            earlier
        } else {
            earlier.insert(user.id@, User::of_row(user))
        }
    }
}

/// All users that a client is told: those that were found, and its own unless it is among them.
pub open spec fn all_users(persons: Seq<Person>, own_id: Seq<char>, own: Users) -> Map<
    Seq<char>,
    User,
> {
    if users_of(persons).contains_key(own_id) {
        users_of(persons)
    } else {
        users_of(persons).insert(own_id, User::of_row(own))
    }
}

/// What a guild looks like to a client that is told of it.
pub open spec fn guild_json(visit: GuildVisit) -> JsonView {
    JsonView::Object(
        no_fields()
            .push(("id"@, JsonView::Text(visit.guild.id@)))
            .push(("name"@, JsonView::Text(visit.guild.name@)))
            .push(("brief"@, JsonView::Text(visit.guild.brief@)))
            .push(("icon"@, JsonView::optional_text(visit.guild.icon)))
            .push(("ownerId"@, JsonView::Text(visit.guild.owner_id@)))
            .push(("createdAt"@, JsonView::Int(visit.guild.created_at.spec_millis())))
            .push(
                (
                    "channels"@,
                    JsonView::Array(
                        visit.channels@.map_values(
                            |c: Channels| Channel::of_row(c).spec_json(),
                        ),
                    ),
                ),
            )
            .push(
                (
                    "members"@,
                    JsonView::Array(
                        found(visit.members@).map_values(
                            |p: (GuildMembers, Person)| GuildMember::of_row(p.0).spec_json(),
                        ),
                    ),
                ),
            ),
    )
}

/// What the guilds that were found look like, in their order.
pub open spec fn guilds_json(visits: Seq<Option<GuildVisit>>) -> Seq<JsonView>
    decreases visits.len(),
{
    if visits.len() == 0 {
        Seq::empty()
    } else {
        let earlier = guilds_json(visits.drop_last());
        match visits.last() {
            Some(visit) => earlier.push(guild_json(visit)),
            None => earlier,
        }
    }
}

/// What presences look like.
pub open spec fn presences_json(presences: Seq<(Seq<char>, Seq<char>)>) -> Seq<JsonView> {
    presences.map_values(
        |p: (Seq<char>, Seq<char>)|
            JsonView::Object(
                no_fields().push(("id"@, JsonView::Text(p.0))).push(
                    ("status"@, JsonView::Text(p.1)),
                ),
            ),
    )
}

/// What users by id look like.
pub open spec fn users_json(users: Map<Seq<char>, User>) -> Seq<(Seq<char>, JsonView)> {
    Seq::new(
        sorted_keys(users).len(),
        |i: int| (sorted_keys(users)[i], sorted_values(users)[i].spec_json()),
    )
}

/// All that a client is told once it has identified itself.
pub open spec fn ready_json(caller: Caller, visits: Seq<Option<GuildVisit>>) -> JsonView {
    let account = caller.account;
    let persons = persons(visits);
    JsonView::Object(
        no_fields()
            .push(
                (
                    "account"@,
                    JsonView::Object(
                        no_fields()
                            .push(("id"@, JsonView::Text(account.id@)))
                            .push(("emailVerified"@, JsonView::Bool(account.email_verified)))
                            .push(("locale"@, JsonView::Text(account.locale@)))
                            .push(("email"@, JsonView::Text(account.email@))),
                    ),
                ),
            )
            .push(
                (
                    "settings"@,
                    JsonView::Object(
                        no_fields()
                            .push(("theme"@, JsonView::Text(caller.settings.theme@)))
                            .push(
                                (
                                    "compactMode"@,
                                    JsonView::optional_bool(caller.settings.compact_mode),
                                ),
                            )
                            .push(
                                (
                                    "compactShowAvatars"@,
                                    JsonView::optional_bool(caller.settings.compact_show_avatars),
                                ),
                            ),
                    ),
                ),
            )
            .push(
                (
                    "appSettings"@,
                    JsonView::Object(
                        no_fields().push(("inviteCodes"@, JsonView::Array(Seq::empty()))),
                    ),
                ),
            )
            .push(("user"@, User::of_row(caller.user).spec_json()))
            .push(("guilds"@, JsonView::Array(guilds_json(visits))))
            .push(
                (
                    "presences"@,
                    JsonView::Array(
                        presences_json(
                            all_presences(persons, account.id@, caller.user.status@),
                        ),
                    ),
                ),
            )
            .push(
                (
                    "users"@,
                    JsonView::Object(users_json(all_users(persons, account.id@, caller.user))),
                ),
            ),
    )
}

/// The ids of the presences that are told of others are those of the persons who are present.
proof fn lemma_presence_ids(persons: Seq<Person>)
    ensures
        presences_of(persons).map_values(|p: (Seq<char>, Seq<char>)| p.0) == present_ids(persons),
    decreases persons.len(),
{
    if persons.len() > 0 {
        lemma_presence_ids(persons.drop_last());
        let earlier = presences_of(persons.drop_last());
        let person = persons.last();
        assert(earlier.push((person.user.id@, person.user.status@)).map_values(
            |p: (Seq<char>, Seq<char>)| p.0,
        ) =~= earlier.map_values(|p: (Seq<char>, Seq<char>)| p.0).push(person.user.id@));
    } else {
        assert(presences_of(persons).map_values(|p: (Seq<char>, Seq<char>)| p.0) =~= Seq::empty());
    }
}

/// Each person with an open socket is present once, and nobody else is.
pub proof fn lemma_present(persons: Seq<Person>)
    ensures
        present_ids(persons).no_duplicates(),
        forall|id: Seq<char>| #[trigger]
            present_ids(persons).contains(id) <==> exists|i: int|
                0 <= i < persons.len() && (#[trigger] persons[i]).connected && persons[i].user.id@
                    == id,
    decreases persons.len(),
{
    if persons.len() > 0 {
        let shorter = persons.drop_last();
        let person = persons.last();
        lemma_present(shorter);
        let earlier = present_ids(shorter);
        let whole = present_ids(persons);
        let added = person.connected && !earlier.contains(person.user.id@);
        assert forall|id: Seq<char>| #[trigger] whole.contains(id) <==> exists|i: int|
            0 <= i < persons.len() && (#[trigger] persons[i]).connected && persons[i].user.id@
                == id by {
            if whole.contains(id) {
                let k = choose|k: int| 0 <= k < whole.len() && whole[k] == id;
                if k < earlier.len() {
                    assert(earlier[k] == id);
                    assert(earlier.contains(id));
                    let i = choose|i: int|
                        0 <= i < shorter.len() && (#[trigger] shorter[i]).connected
                            && shorter[i].user.id@ == id;
                    assert(persons[i] == shorter[i]);
                } else {
                    assert(persons[persons.len() - 1] == person);
                }
            }
            if exists|i: int|
                0 <= i < persons.len() && (#[trigger] persons[i]).connected && persons[i].user.id@
                    == id {
                let i = choose|i: int|
                    0 <= i < persons.len() && (#[trigger] persons[i]).connected
                        && persons[i].user.id@ == id;
                if i < shorter.len() {
                    assert(shorter[i] == persons[i]);
                    assert(earlier.contains(id));
                    let k = choose|k: int| 0 <= k < earlier.len() && earlier[k] == id;
                    assert(whole[k] == id);
                } else if added {
                    assert(whole[earlier.len() as int] == id);
                }
            }
        }
        if added {
            assert forall|i: int, j: int| 0 <= i < j < whole.len() implies whole[i]
                != whole[j] by {
                if j == earlier.len() {
                    assert(earlier.contains(earlier[i]));
                }
            }
        }
    }
}

/// A client is told of no presence twice, and always of its own.
pub proof fn lemma_own_presence(persons: Seq<Person>, own_id: Seq<char>, own_status: Seq<char>)
    ensures
        ({
            let ids = all_presences(persons, own_id, own_status).map_values(
                |p: (Seq<char>, Seq<char>)| p.0,
            );
            ids.no_duplicates() && ids.contains(own_id)
        }),
{
    let ids = all_presences(persons, own_id, own_status).map_values(
        |p: (Seq<char>, Seq<char>)| p.0,
    );
    lemma_present(persons);
    lemma_presence_ids(persons);
    if present_ids(persons).contains(own_id) {
        assert(ids == present_ids(persons));
    } else {
        assert(ids =~= present_ids(persons).push(own_id));
        assert(ids[ids.len() - 1] == own_id);
        assert forall|i: int, j: int| 0 <= i < j < ids.len() implies ids[i] != ids[j] by {
            if j == ids.len() - 1 {
                assert(present_ids(persons).contains(present_ids(persons)[i]));
            }
        }
    }
}

/// A client is told of each user that was found, and always of its own.
pub proof fn lemma_users_told(persons: Seq<Person>, own_id: Seq<char>, own: Users)
    ensures
        all_users(persons, own_id, own).contains_key(own_id),
        forall|i: int|
            0 <= i < persons.len() ==> all_users(persons, own_id, own).contains_key(
                (#[trigger] persons[i]).user.id@,
            ),
    decreases persons.len(),
{
    if persons.len() > 0 {
        let shorter = persons.drop_last();
        lemma_users_told(shorter, own_id, own);
        assert forall|i: int| 0 <= i < persons.len() implies all_users(
            persons,
            own_id,
            own,
        ).contains_key((#[trigger] persons[i]).user.id@) by {
            if i < shorter.len() {
                assert(shorter[i] == persons[i]);
            }
        }
    }
}

/// Writes the rooms that a client is in.
pub fn rooms(caller: &Caller) -> (r: Vec<String>)
    ensures
        texts(r@) == room_ids(caller.memberships@, caller.user.flags),
{
    let memberships: &Vec<GuildMembers> = &caller.memberships;
    let mut out: Vec<String> = Vec::new();
    let mut i: usize = 0;
    while i < memberships.len()
        invariant
            i <= memberships@.len(),
            texts(out@) == guild_ids(memberships@.take(i as int)),
        decreases memberships@.len() - i,
    {
        let ghost before = texts(out@);
        out.push(memberships[i].guild_id.clone());
        proof {
            let id = memberships@[i as int].guild_id@;
            assert(texts(out@) =~= before.push(id));
            assert(guild_ids(memberships@.take(i + 1)) =~= guild_ids(
                memberships@.take(i as int),
            ).push(id));
        }
        i = i + 1;
    }
    assert(memberships@.take(i as int) =~= memberships@);
    if caller.user.flags & UserFlags::ADMIN == UserFlags::ADMIN {
        let ghost before = texts(out@);
        out.push(owned("admins"));
        assert(texts(out@) =~= before.push("admins"@));
    }
    out
}

/// What has been put together of the persons that were found.
struct Told {
    seen: Vec<String>,
    presences: Vec<Json>,
    users: StringMap<User>,
}

impl Told {
    /// Whether this is what some persons come to.
    spec fn of(self, persons: Seq<Person>) -> bool {
        &&& texts(self.seen@) == present_ids(persons)
        &&& items(self.presences@) == presences_json(presences_of(persons))
        &&& self.users@ == users_of(persons)
    }

    /// Nobody yet.
    fn new() -> (r: Told)
        ensures
            r.of(Seq::empty()),
    {
        let r = Told { seen: Vec::new(), presences: Vec::new(), users: StringMap::new() };
        assert(texts(r.seen@) =~= Seq::<Seq<char>>::empty());
        assert(presences_json(presences_of(Seq::<Person>::empty())) =~= Seq::<JsonView>::empty());
        r
    }

    /// Adds the presence of somebody who has none yet.
    fn present(self, id: &str, status: &str) -> (r: Told)
        ensures
            texts(r.seen@) == with_new(texts(self.seen@), id@),
            if texts(self.seen@).contains(id@) {
                items(r.presences@) == items(self.presences@)
            } else {
                items(r.presences@) == items(self.presences@).push(
                    presences_json(seq![(id@, status@)])[0],
                )
            },
            r.users == self.users,
    {
        let mut seen: Vec<String> = self.seen;
        let mut presences: Vec<Json> = self.presences;
        if !lists(&seen, id) {
            let ghost before = presences@;
            let ghost earlier = texts(seen@);
            seen.push(owned(id));
            let presence: Presence = Presence { id: owned(id), status: owned(status) };
            presences.push(presence.to_json());
            proof {
                assert(texts(seen@) =~= earlier.push(id@));
                lemma_items_push(before, presences@.last());
            }
        }
        Told { seen, presences, users: self.users }
    }

    /// Adds a user whose id has none yet.
    fn know(self, id: &str, user: User) -> (r: Told)
        ensures
            r.seen == self.seen,
            r.presences == self.presences,
            r.users@ == if self.users@.contains_key(id@) {
                self.users@
            } else {
                self.users@.insert(id@, user)
            },
    {
        let users: StringMap<User> = if self.users.contains_key(id) {
            self.users
        } else {
            self.users.insert(owned(id), user)
        };
        Told { seen: self.seen, presences: self.presences, users }
    }

    /// Adds one more person.
    fn meet(self, person: &Person, Ghost(before): Ghost<Seq<Person>>) -> (r: Told)
        requires
            self.of(before),
        ensures
            r.of(before.push(*person)),
    {
        let ghost persons = before.push(*person);
        assert(persons.drop_last() =~= before);
        let user: &Users = &person.user;
        let told: Told = if person.connected {
            self.present(user.id.as_str(), user.status.as_str())
        } else {
            self
        };
        proof {
            let earlier = presences_of(before);
            let pair = (user.id@, user.status@);
            assert(presences_json(earlier.push(pair)) =~= presences_json(earlier).push(
                presences_json(seq![pair])[0],
            ));
        }
        told.know(user.id.as_str(), User::from(user.clone()))
    }

    /// Adds the members of a guild whose user was found.
    fn meet_all(self, members: &Vec<MemberVisit>, Ghost(before): Ghost<Seq<Person>>) -> (r: Told)
        requires
            self.of(before),
        ensures
            r.of(before + found(members@).map_values(|p: (GuildMembers, Person)| p.1)),
    {
        let mut told: Told = self;
        let mut i: usize = 0;
        let ghost mut met = before;
        proof {
            assert(before + found(members@.take(0)).map_values(
                |p: (GuildMembers, Person)| p.1,
            ) =~= before);
        }
        while i < members.len()
            invariant
                i <= members@.len(),
                met == before + found(members@.take(i as int)).map_values(
                    |p: (GuildMembers, Person)| p.1,
                ),
                told.of(met),
            decreases members@.len() - i,
        {
            let ghost upto = members@.take(i + 1);
            assert(upto.drop_last() =~= members@.take(i as int));
            if let Some(person) = &members[i].person {
                told = told.meet(person, Ghost(met));
                proof {
                    met = met.push(*person);
                    assert(met =~= before + found(upto).map_values(
                        |p: (GuildMembers, Person)| p.1,
                    ));
                }
            }
            i = i + 1;
        }
        assert(members@.take(i as int) =~= members@);
        told
    }
}

/// The channels of a guild, as clients see them.
fn channels_of(channels: &Vec<Channels>) -> (r: Vec<Channel>)
    ensures
        r@ == channels@.map_values(|c: Channels| Channel::of_row(c)),
{
    let mut out: Vec<Channel> = Vec::new();
    let mut i: usize = 0;
    while i < channels.len()
        invariant
            i <= channels@.len(),
            out@ == channels@.take(i as int).map_values(|c: Channels| Channel::of_row(c)),
        decreases channels@.len() - i,
    {
        out.push(Channel::from(channels[i].clone()));
        assert(out@ =~= channels@.take(i + 1).map_values(|c: Channels| Channel::of_row(c)));
        i = i + 1;
    }
    assert(channels@.take(i as int) =~= channels@);
    out
}

/// The members of a guild whose user was found, as clients see them.
fn members_of(members: &Vec<MemberVisit>) -> (r: Vec<GuildMember>)
    ensures
        r@ == found(members@).map_values(
            |p: (GuildMembers, Person)| GuildMember::of_row(p.0),
        ),
{
    let mut out: Vec<GuildMember> = Vec::new();
    let mut i: usize = 0;
    while i < members.len()
        invariant
            i <= members@.len(),
            out@ == found(members@.take(i as int)).map_values(
                |p: (GuildMembers, Person)| GuildMember::of_row(p.0),
            ),
        decreases members@.len() - i,
    {
        let ghost upto = members@.take(i + 1);
        assert(upto.drop_last() =~= members@.take(i as int));
        if members[i].person.is_some() {
            out.push(GuildMember::from(members[i].member.clone()));
        }
        assert(out@ =~= found(upto).map_values(
            |p: (GuildMembers, Person)| GuildMember::of_row(p.0),
        ));
        i = i + 1;
    }
    assert(members@.take(i as int) =~= members@);
    out
}

/// Writes what a guild looks like to a client that is told of it.
fn guild_to_json(visit: &GuildVisit) -> (r: Json)
    ensures
        r@ == guild_json(*visit),
{
    let channels: Vec<Channel> = channels_of(&visit.channels);
    let members: Vec<GuildMember> = members_of(&visit.members);
    proof {
        assert(channels_json(channels@) =~= visit.channels@.map_values(
            |c: Channels| Channel::of_row(c).spec_json(),
        ));
        assert(members_json(members@) =~= found(visit.members@).map_values(
            |p: (GuildMembers, Person)| GuildMember::of_row(p.0).spec_json(),
        ));
    }
    let guild: Guilds = visit.guild.clone();
    let shown: Guild = Guild {
        id: guild.id,
        name: guild.name,
        brief: guild.brief,
        icon: guild.icon,
        owner_id: guild.owner_id,
        created_at: Some(guild.created_at),
        channels: Some(channels),
        members: Some(members),
    };
    shown.to_json()
}

/// Writes users by id.
fn users_to_json(users: StringMap<User>) -> (r: Json)
    ensures
        r@ == JsonView::Object(users_json(users@)),
{
    let ghost whole = users_json(users@);
    let (ids, users) = users.into_columns();
    let mut fields: Fields = Fields::new();
    let mut i: usize = 0;
    while i < ids.len() && i < users.len()
        invariant
            i <= ids@.len(),
            ids@.len() == users@.len(),
            whole.len() == ids@.len(),
            forall|j: int|
                0 <= j < ids@.len() ==> #[trigger] whole[j] == (ids@[j]@, users@[j].spec_json()),
            fields@ == whole.take(i as int),
        decreases ids@.len() - i,
    {
        fields = fields.with(ids[i].as_str(), users[i].to_json());
        assert(fields@ =~= whole.take(i + 1));
        i = i + 1;
    }
    assert(whole.take(i as int) =~= whole);
    fields.object()
}

/// The message that a client is sent once it has identified itself.
pub fn ready(caller: &Caller, visits: &Vec<Option<GuildVisit>>) -> (r: Payload)
    ensures
        r@ == PayloadView::dispatch("READY"@, ready_json(*caller, visits@)),
{
    let account: &Accounts = &caller.account;
    let mut told: Told = Told::new();
    let mut guilds: Vec<Json> = Vec::new();
    let mut i: usize = 0;
    assert(visits@.take(0) =~= Seq::<Option<GuildVisit>>::empty());
    while i < visits.len()
        invariant
            i <= visits@.len(),
            told.of(persons(visits@.take(i as int))),
            items(guilds@) == guilds_json(visits@.take(i as int)),
        decreases visits@.len() - i,
    {
        let ghost upto = visits@.take(i + 1);
        assert(upto.drop_last() =~= visits@.take(i as int));
        if let Some(visit) = &visits[i] {
            let ghost before = guilds@;
            told = told.meet_all(&visit.members, Ghost(persons(visits@.take(i as int))));
            guilds.push(guild_to_json(visit));
            proof {
                lemma_items_push(before, guilds@.last());
            }
        }
        i = i + 1;
    }
    assert(visits@.take(i as int) =~= visits@);
    let ghost everyone = persons(visits@);
    let own: User = User::from(caller.user.clone());
    let told: Told = told.present(account.id.as_str(), caller.user.status.as_str());
    proof {
        let others = presences_of(everyone);
        let pair = (account.id@, caller.user.status@);
        assert(presences_json(others.push(pair)) =~= presences_json(others).push(
            presences_json(seq![pair])[0],
        ));
    }
    let told: Told = told.know(account.id.as_str(), own.clone());
    let account_data: Json = Fields::new()
        .with("id", Json::text(account.id.as_str()))
        .with("emailVerified", Json::Bool(account.email_verified))
        .with("locale", Json::text(account.locale.as_str()))
        .with("email", Json::text(account.email.as_str()))
        .object();
    let settings: Json = Fields::new()
        .with("theme", Json::text(caller.settings.theme.as_str()))
        .with("compactMode", Json::optional_bool(caller.settings.compact_mode))
        .with("compactShowAvatars", Json::optional_bool(caller.settings.compact_show_avatars))
        .object();
    let codes: Vec<Json> = Vec::new();
    let app_settings: Json = Fields::new().with("inviteCodes", Json::Array(codes)).object();
    let data: Json = Fields::new()
        .with("account", account_data)
        .with("settings", settings)
        .with("appSettings", app_settings)
        .with("user", own.to_json())
        .with("guilds", Json::Array(guilds))
        .with("presences", Json::Array(told.presences))
        .with("users", users_to_json(told.users))
        .object();
    Payload::dispatch("READY", data)
}

} // verus!
