//! What a client is told once it has identified itself.

use vstd::prelude::*;
use crate::gateway::events::ready::{
    all_presences, all_users, found, guild_json, guilds_json, lemma_own_presence, lemma_present,
    persons, present_ids, presences_json, presences_of, ready_json, room_ids, users_json, users_of,
    Caller, GuildVisit, MemberVisit, Person,
};
use crate::json::JsonView;
use crate::laws::lookup::{lemma_found_after, lemma_found_by_name, lemma_found_in_nothing};
use crate::laws::models::{
    lemma_channel_shown, lemma_guild_member_shown, lemma_user_shown, shows_channel, shows_guild,
    shows_guild_member, shows_user,
};
use crate::models::User;
use crate::orm::guild_members::GuildMembers;
use crate::string_map::{lemma_keys_listed, lists_keys, sorted_keys};

verus! {

broadcast use {lemma_found_after, lemma_found_in_nothing};

/// The memberships of a guild whose user was found.
pub open spec fn with_user(members: Seq<MemberVisit>) -> Seq<MemberVisit> {
    members.filter(|m: MemberVisit| m.person is Some)
}

/// The guilds that were found.
pub open spec fn guilds_met(visits: Seq<Option<GuildVisit>>) -> Seq<Option<GuildVisit>> {
    visits.filter(|v: Option<GuildVisit>| v is Some)
}

/// Whether a JSON value shows a guild with all its channels, and with all its members whose user
/// was found, in their order.
pub open spec fn shows_visit(json: JsonView, visit: GuildVisit) -> bool {
    &&& shows_guild(json, visit.guild)
    &&& match json.field("channels"@) {
        Some(JsonView::Array(list)) => list.len() == visit.channels@.len() && forall|i: int|
            0 <= i < list.len() ==> shows_channel(#[trigger] list[i], visit.channels@[i]),
        _ => false,
    }
    &&& match json.field("members"@) {
        Some(JsonView::Array(list)) => list.len() == with_user(visit.members@).len()
            && forall|i: int|
            0 <= i < list.len() ==> shows_guild_member(
                #[trigger] list[i],
                with_user(visit.members@)[i].member,
            ),
        _ => false,
    }
}

/// The members whose user was found are those that have one.
proof fn lemma_found_members(members: Seq<MemberVisit>)
    ensures
        found(members).len() == with_user(members).len(),
        forall|i: int|
            0 <= i < found(members).len() ==> (#[trigger] found(members)[i]).0 == with_user(
                members,
            )[i].member && Some(found(members)[i].1) == with_user(members)[i].person,
    decreases members.len(),
{
    reveal(Seq::filter);
    if members.len() > 0 {
        lemma_found_members(members.drop_last());
    }
}

/// A guild is shown with all that belongs to it.
proof fn lemma_guild_shown_whole(visit: GuildVisit)
    ensures
        shows_visit(guild_json(visit), visit),
{
    reveal_strlit("id");
    assert("id"@.len() == 2);
    reveal_strlit("name");
    assert("name"@.len() == 4);
    reveal_strlit("brief");
    assert("brief"@.len() == 5);
    reveal_strlit("icon");
    assert("icon"@.len() == 4);
    reveal_strlit("ownerId");
    assert("ownerId"@.len() == 7);
    reveal_strlit("createdAt");
    assert("createdAt"@.len() == 9);
    reveal_strlit("channels");
    assert("channels"@.len() == 8);
    reveal_strlit("members");
    assert("members"@.len() == 7);
    assert("name"@[0] != "icon"@[0]);
    assert("ownerId"@[0] != "members"@[0]);
    lemma_found_members(visit.members@);
    let json = guild_json(visit);
    if let Some(JsonView::Array(list)) = json.field("channels"@) {
        assert forall|i: int| 0 <= i < list.len() implies shows_channel(
            #[trigger] list[i],
            visit.channels@[i],
        ) by {
            lemma_channel_shown(visit.channels@[i]);
        }
    }
    if let Some(JsonView::Array(list)) = json.field("members"@) {
        assert forall|i: int| 0 <= i < list.len() implies shows_guild_member(
            #[trigger] list[i],
            with_user(visit.members@)[i].member,
        ) by {
            assert(found(visit.members@)[i].0 == with_user(visit.members@)[i].member);
            lemma_guild_member_shown(with_user(visit.members@)[i].member);
        }
    }
}

/// The guilds that are listed are those that were found, one after the other.
proof fn lemma_guilds_listed(visits: Seq<Option<GuildVisit>>)
    ensures
        guilds_json(visits).len() == guilds_met(visits).len(),
        forall|i: int|
            0 <= i < guilds_met(visits).len() ==> (#[trigger] guilds_met(visits)[i]) is Some
                && guilds_json(visits)[i] == guild_json(guilds_met(visits)[i]->0),
    decreases visits.len(),
{
    reveal(Seq::filter);
    if visits.len() > 0 {
        lemma_guilds_listed(visits.drop_last());
    }
}

/// The parts of what a client is told stand under their names.
proof fn lemma_ready_parts(caller: Caller, visits: Seq<Option<GuildVisit>>)
    ensures
        ({
            let told = ready_json(caller, visits);
            let people = persons(visits);
            let id = caller.account.id@;
            &&& told.field("guilds"@) == Some(JsonView::Array(guilds_json(visits)))
            &&& told.field("user"@) == Some(User::of_row(caller.user).spec_json())
            &&& told.field("presences"@) == Some(
                JsonView::Array(presences_json(all_presences(people, id, caller.user.status@))),
            )
            &&& told.field("users"@) == Some(
                JsonView::Object(users_json(all_users(people, id, caller.user))),
            )
            &&& told.field("account"@) is Some
            &&& told.field("settings"@) is Some
            &&& told.field("appSettings"@) is Some
        }),
{
    reveal_strlit("account");
    assert("account"@.len() == 7);
    reveal_strlit("settings");
    assert("settings"@.len() == 8);
    reveal_strlit("appSettings");
    assert("appSettings"@.len() == 11);
    reveal_strlit("user");
    assert("user"@.len() == 4);
    reveal_strlit("guilds");
    assert("guilds"@.len() == 6);
    reveal_strlit("presences");
    assert("presences"@.len() == 9);
    reveal_strlit("users");
    assert("users"@.len() == 5);
}

/// A client is told of every guild that was found and of no other: there are as many entries as
/// guilds were found, and each shows its guild, in their order.
pub proof fn lemma_all_guilds_told(caller: Caller, visits: Seq<Option<GuildVisit>>)
    ensures
        match ready_json(caller, visits).field("guilds"@) {
            Some(JsonView::Array(list)) => list.len() == guilds_met(visits).len() && forall|i: int|
                0 <= i < list.len() ==> shows_visit(
                    #[trigger] list[i],
                    guilds_met(visits)[i]->0,
                ),
            _ => false,
        },
{
    lemma_ready_parts(caller, visits);
    lemma_guilds_listed(visits);
    let list = guilds_json(visits);
    assert forall|i: int| 0 <= i < list.len() implies shows_visit(
        #[trigger] list[i],
        guilds_met(visits)[i]->0,
    ) by {
        assert(guilds_met(visits)[i] is Some);
        lemma_guild_shown_whole(guilds_met(visits)[i]->0);
    }
}

/// Whether a person is that of a member of a guild that was visited, at this place.
pub open spec fn met(visits: Seq<Option<GuildVisit>>, i: int, j: int, person: Person) -> bool {
    &&& 0 <= i < visits.len()
    &&& visits[i] is Some
    &&& 0 <= j < visits[i]->0.members@.len()
    &&& visits[i]->0.members@[j].person == Some(person)
}

/// Whether a place comes before another.
pub open spec fn earlier(i: int, j: int, k: int, l: int) -> bool {
    i < k || (i == k && j < l)
}

/// Whether a person is the first that was met with its id.
pub open spec fn first_met(visits: Seq<Option<GuildVisit>>, i: int, j: int, p: Person) -> bool {
    &&& met(visits, i, j, p)
    &&& forall|k: int, l: int, q: Person| #[trigger]
        met(visits, k, l, q) && q.user.id@ == p.user.id@ ==> !earlier(k, l, i, j)
}

/// Whether a person is the first that was met with its id and an open socket.
pub open spec fn first_present(visits: Seq<Option<GuildVisit>>, i: int, j: int, p: Person) -> bool {
    &&& met(visits, i, j, p)
    &&& p.connected
    &&& forall|k: int, l: int, q: Person| #[trigger]
        met(visits, k, l, q) && q.connected && q.user.id@ == p.user.id@ ==> !earlier(k, l, i, j)
}

/// The places of the persons that were met, in their order.
proof fn lemma_places(visits: Seq<Option<GuildVisit>>) -> (places: Seq<(int, int)>)
    ensures
        places.len() == persons(visits).len(),
        forall|k: int|
            0 <= k < places.len() ==> met(
                visits,
                (#[trigger] places[k]).0,
                places[k].1,
                persons(visits)[k],
            ),
        forall|k: int, l: int|
            0 <= k < l < places.len() ==> earlier(
                (#[trigger] places[k]).0,
                places[k].1,
                (#[trigger] places[l]).0,
                places[l].1,
            ),
        forall|i: int, j: int, p: Person| #[trigger]
            met(visits, i, j, p) ==> exists|k: int|
                0 <= k < places.len() && #[trigger] places[k] == (i, j) && persons(visits)[k] == p,
    decreases visits.len(),
{
    if visits.len() == 0 {
        Seq::empty()
    } else {
        let shorter = visits.drop_last();
        let before = lemma_places(shorter);
        let last = visits.len() - 1;
        match visits.last() {
            Some(visit) => {
                let members = visit.members@;
                let ks = lemma_found_places(members);
                let places = before + Seq::new(ks.len(), |k: int| (last, ks[k]));
                let n = before.len() as int;
                let people = persons(visits);
                assert forall|k: int| 0 <= k < places.len() implies met(
                    visits,
                    (#[trigger] places[k]).0,
                    places[k].1,
                    people[k],
                ) by {
                    if k < n {
                        assert(places[k] == before[k]);
                        assert(met(shorter, before[k].0, before[k].1, persons(shorter)[k]));
                        assert(shorter[before[k].0] == visits[before[k].0]);
                    } else {
                        assert(places[k] == (last, ks[k - n]));
                        assert(people[k] == found(members)[k - n].1);
                    }
                }
                assert forall|k: int, l: int| 0 <= k < l < places.len() implies earlier(
                    (#[trigger] places[k]).0,
                    places[k].1,
                    (#[trigger] places[l]).0,
                    places[l].1,
                ) by {
                    if k < n {
                        assert(places[k] == before[k]);
                        assert(met(shorter, before[k].0, before[k].1, persons(shorter)[k]));
                        if l < n {
                            assert(places[l] == before[l]);
                        }
                    } else {
                        assert(places[k] == (last, ks[k - n]));
                        assert(places[l] == (last, ks[l - n]));
                    }
                }
                assert forall|i: int, j: int, p: Person| #[trigger]
                    met(visits, i, j, p) implies exists|k: int|
                    0 <= k < places.len() && #[trigger] places[k] == (i, j) && people[k] == p by {
                    if i < last {
                        assert(shorter[i] == visits[i]);
                        assert(met(shorter, i, j, p));
                        let k = choose|k: int|
                            0 <= k < before.len() && #[trigger] before[k] == (i, j) && persons(
                                shorter,
                            )[k] == p;
                        assert(places[k] == (i, j));
                    } else {
                        let k = choose|k: int|
                            0 <= k < ks.len() && #[trigger] ks[k] == j && found(members)[k].1 == p;
                        assert(places[n + k] == (i, j));
                    }
                }
                places
            },
            None => {
                assert forall|k: int| 0 <= k < before.len() implies met(
                    visits,
                    (#[trigger] before[k]).0,
                    before[k].1,
                    persons(visits)[k],
                ) by {
                    assert(met(shorter, before[k].0, before[k].1, persons(shorter)[k]));
                    assert(shorter[before[k].0] == visits[before[k].0]);
                }
                assert forall|i: int, j: int, p: Person| #[trigger]
                    met(visits, i, j, p) implies exists|k: int|
                    0 <= k < before.len() && #[trigger] before[k] == (i, j) && persons(visits)[k]
                        == p by {
                    assert(shorter[i] == visits[i]);
                    assert(met(shorter, i, j, p));
                }
                before
            },
        }
    }
}

/// The places of the members of a guild whose user was found, in their order.
proof fn lemma_found_places(members: Seq<MemberVisit>) -> (places: Seq<int>)
    ensures
        places.len() == found(members).len(),
        forall|k: int|
            0 <= k < places.len() ==> 0 <= #[trigger] places[k] < members.len()
                && members[places[k]].person == Some(found(members)[k].1),
        forall|k: int, l: int|
            0 <= k < l < places.len() ==> #[trigger] places[k] < #[trigger] places[l],
        forall|j: int|
            0 <= j < members.len() && (#[trigger] members[j]).person is Some ==> exists|k: int|
                0 <= k < places.len() && #[trigger] places[k] == j && Some(found(members)[k].1)
                    == members[j].person,
    decreases members.len(),
{
    if members.len() == 0 {
        Seq::empty()
    } else {
        let shorter = members.drop_last();
        let before = lemma_found_places(shorter);
        let last = members.len() - 1;
        let places = match members.last().person {
            Some(_) => before.push(last),
            None => before,
        };
        assert forall|k: int| 0 <= k < places.len() implies 0 <= #[trigger] places[k]
            < members.len() && members[places[k]].person == Some(found(members)[k].1) by {
            if k < before.len() {
                assert(places[k] == before[k]);
                assert(shorter[before[k]] == members[before[k]]);
            }
        }
        assert forall|j: int|
            0 <= j < members.len() && (#[trigger] members[j]).person is Some implies exists|k: int|
            0 <= k < places.len() && #[trigger] places[k] == j && Some(found(members)[k].1)
                == members[j].person by {
            if j < last {
                assert(shorter[j] == members[j]);
                let k = choose|k: int|
                    0 <= k < before.len() && #[trigger] before[k] == j && Some(found(shorter)[k].1)
                        == shorter[j].person;
                assert(places[k] == j);
            } else {
                assert(places[before.len() as int] == j);
            }
        }
        places
    }
}

/// Whether a client is to be told of a status under an id: that of the first person with the id
/// and an open socket that was met, or its own where it was not met so.
pub open spec fn present_as(
    caller: Caller,
    visits: Seq<Option<GuildVisit>>,
    id: Seq<char>,
    status: Seq<char>,
) -> bool {
    ||| exists|i: int, j: int, p: Person| #[trigger]
        first_present(visits, i, j, p) && p.user.id@ == id && p.user.status@ == status
    ||| {
        &&& id == caller.account.id@
        &&& status == caller.user.status@
        &&& forall|i: int, j: int, p: Person| #[trigger]
            met(visits, i, j, p) && p.connected ==> p.user.id@ != id
    }
}

/// Whether a JSON value tells a status under an id.
pub open spec fn says_presence(json: JsonView, id: Seq<char>, status: Seq<char>) -> bool {
    json.field("id"@) == Some(JsonView::Text(id)) && json.field("status"@) == Some(
        JsonView::Text(status),
    )
}

/// The presences of persons are those of the first with each id and an open socket.
proof fn lemma_presences_first(people: Seq<Person>)
    ensures
        forall|id: Seq<char>, status: Seq<char>| #[trigger]
            presences_of(people).contains((id, status)) <==> exists|k: int|
                {
                    &&& 0 <= k < people.len()
                    &&& (#[trigger] people[k]).connected
                    &&& people[k].user.id@ == id
                    &&& people[k].user.status@ == status
                    &&& forall|l: int|
                        0 <= l < k && (#[trigger] people[l]).connected ==> people[l].user.id@ != id
                },
    decreases people.len(),
{
    if people.len() > 0 {
        let shorter = people.drop_last();
        let last = people.len() - 1;
        let person = people.last();
        let before = presences_of(shorter);
        let whole = presences_of(people);
        lemma_presences_first(shorter);
        lemma_present(shorter);
        assert forall|id: Seq<char>, status: Seq<char>| #[trigger]
            whole.contains((id, status)) <==> exists|k: int|
            {
                &&& 0 <= k < people.len()
                &&& (#[trigger] people[k]).connected
                &&& people[k].user.id@ == id
                &&& people[k].user.status@ == status
                &&& forall|l: int|
                    0 <= l < k && (#[trigger] people[l]).connected ==> people[l].user.id@ != id
            } by {
            let pair = (id, status);
            if whole.contains(pair) {
                let n = choose|n: int| 0 <= n < whole.len() && whole[n] == pair;
                if n < before.len() {
                    assert(before[n] == pair);
                    assert(before.contains(pair));
                    let k = choose|k: int|
                        {
                            &&& 0 <= k < shorter.len()
                            &&& (#[trigger] shorter[k]).connected
                            &&& shorter[k].user.id@ == id
                            &&& shorter[k].user.status@ == status
                            &&& forall|l: int|
                                0 <= l < k && (#[trigger] shorter[l]).connected
                                    ==> shorter[l].user.id@ != id
                        };
                    assert(people[k] == shorter[k]);
                    assert forall|l: int| 0 <= l < k && (#[trigger] people[l]).connected implies
                        people[l].user.id@ != id by {
                        assert(shorter[l] == people[l]);
                    }
                } else {
                    assert(people[last] == person);
                    assert forall|l: int| 0 <= l < last && (#[trigger] people[l]).connected implies
                        people[l].user.id@ != id by {
                        assert(shorter[l] == people[l]);
                        assert(!present_ids(shorter).contains(id));
                    }
                }
            }
            if exists|k: int|
                {
                    &&& 0 <= k < people.len()
                    &&& (#[trigger] people[k]).connected
                    &&& people[k].user.id@ == id
                    &&& people[k].user.status@ == status
                    &&& forall|l: int|
                        0 <= l < k && (#[trigger] people[l]).connected ==> people[l].user.id@ != id
                } {
                let k = choose|k: int|
                    {
                        &&& 0 <= k < people.len()
                        &&& (#[trigger] people[k]).connected
                        &&& people[k].user.id@ == id
                        &&& people[k].user.status@ == status
                        &&& forall|l: int|
                            0 <= l < k && (#[trigger] people[l]).connected ==> people[l].user.id@
                                != id
                    };
                if k < last {
                    assert(shorter[k] == people[k]);
                    assert forall|l: int| 0 <= l < k && (#[trigger] shorter[l]).connected implies
                        shorter[l].user.id@ != id by {
                        assert(shorter[l] == people[l]);
                    }
                    assert(before.contains(pair));
                    let n = choose|n: int| 0 <= n < before.len() && before[n] == pair;
                    assert(whole[n] == pair);
                } else {
                    if present_ids(shorter).contains(id) {
                        let l = choose|l: int|
                            0 <= l < shorter.len() && (#[trigger] shorter[l]).connected
                                && shorter[l].user.id@ == id;
                        assert(people[l] == shorter[l]);
                    }
                    assert(whole[before.len() as int] == pair);
                }
            }
        }
    } else {
        assert(presences_of(people) =~= Seq::empty());
    }
}

/// Whether a JSON value tells the status of somebody who is to be told of.
pub open spec fn tells_one_presence(
    json: JsonView,
    caller: Caller,
    visits: Seq<Option<GuildVisit>>,
) -> bool {
    exists|id: Seq<char>, status: Seq<char>|
        says_presence(json, id, status) && #[trigger] present_as(caller, visits, id, status)
}

/// Whether a list tells the status of everybody who is to be told of, of each once, and of
/// nobody else.
pub open spec fn tells_presences(
    list: Seq<JsonView>,
    caller: Caller,
    visits: Seq<Option<GuildVisit>>,
) -> bool {
    &&& forall|k: int|
        0 <= k < list.len() ==> tells_one_presence(#[trigger] list[k], caller, visits)
    &&& forall|id: Seq<char>, status: Seq<char>| #[trigger]
        present_as(caller, visits, id, status) ==> exists|k: int|
            0 <= k < list.len() && says_presence(#[trigger] list[k], id, status)
    &&& forall|k: int, l: int|
        0 <= k < l < list.len() ==> (#[trigger] list[k]).field("id"@) != (
        #[trigger] list[l]).field("id"@)
}

/// A client is told of the status of everybody with an open socket in its guilds, and of its
/// own: of each once, and of nobody else.
pub proof fn lemma_all_presences_told(caller: Caller, visits: Seq<Option<GuildVisit>>)
    ensures
        match ready_json(caller, visits).field("presences"@) {
            Some(JsonView::Array(list)) => tells_presences(list, caller, visits),
            _ => false,
        },
{
    let people = persons(visits);
    let own = caller.account.id@;
    let others = presences_of(people);
    let pairs = all_presences(people, own, caller.user.status@);
    let list = presences_json(pairs);
    lemma_ready_parts(caller, visits);
    lemma_presences_first(people);
    lemma_present(people);
    lemma_own_presence(people, own, caller.user.status@);
    let places = lemma_places(visits);
    reveal_strlit("id");
    assert("id"@.len() == 2);
    reveal_strlit("status");
    assert("status"@.len() == 6);
    assert forall|k: int| 0 <= k < list.len() implies #[trigger] says_presence(
        list[k],
        pairs[k].0,
        pairs[k].1,
    ) by {}
    assert forall|k: int, l: int| 0 <= k < l < list.len() implies (#[trigger] list[k]).field("id"@)
        != (#[trigger] list[l]).field("id"@) by {
        let ids = pairs.map_values(|p: (Seq<char>, Seq<char>)| p.0);
        assert(ids[k] != ids[l]);
        assert(says_presence(list[k], pairs[k].0, pairs[k].1));
        assert(says_presence(list[l], pairs[l].0, pairs[l].1));
    }
    assert forall|id: Seq<char>, status: Seq<char>| #[trigger]
        present_as(caller, visits, id, status) <==> pairs.contains((id, status)) by {
        lemma_present_place(caller, visits, id, status, places);
        if pairs.contains((id, status)) {
            let n = choose|n: int| 0 <= n < pairs.len() && pairs[n] == (id, status);
            if n < others.len() {
                assert(others[n] == (id, status));
                assert(others.contains((id, status)));
            }
        }
        if others.contains((id, status)) {
            let n = choose|n: int| 0 <= n < others.len() && others[n] == (id, status);
            assert(pairs[n] == (id, status));
        }
        if id == own && status == caller.user.status@ && !present_ids(people).contains(own) {
            assert(pairs[others.len() as int] == (id, status));
        }
    }
    assert forall|k: int| 0 <= k < list.len() implies tells_one_presence(
        #[trigger] list[k],
        caller,
        visits,
    ) by {
        assert(says_presence(list[k], pairs[k].0, pairs[k].1));
        assert(pairs.contains((pairs[k].0, pairs[k].1)));
        assert(present_as(caller, visits, pairs[k].0, pairs[k].1));
    }
    assert forall|id: Seq<char>, status: Seq<char>| #[trigger]
        present_as(caller, visits, id, status) implies exists|k: int|
        0 <= k < list.len() && says_presence(#[trigger] list[k], id, status) by {
        assert(pairs.contains((id, status)));
        let k = choose|k: int| 0 <= k < pairs.len() && pairs[k] == (id, status);
        assert(says_presence(list[k], pairs[k].0, pairs[k].1));
    }
}

/// Who is present among those that were met is the same by place and by order.
proof fn lemma_present_place(
    caller: Caller,
    visits: Seq<Option<GuildVisit>>,
    id: Seq<char>,
    status: Seq<char>,
    places: Seq<(int, int)>,
)
    requires
        places.len() == persons(visits).len(),
        forall|k: int|
            0 <= k < places.len() ==> met(
                visits,
                (#[trigger] places[k]).0,
                places[k].1,
                persons(visits)[k],
            ),
        forall|k: int, l: int|
            0 <= k < l < places.len() ==> earlier(
                (#[trigger] places[k]).0,
                places[k].1,
                (#[trigger] places[l]).0,
                places[l].1,
            ),
        forall|i: int, j: int, p: Person| #[trigger]
            met(visits, i, j, p) ==> exists|k: int|
                0 <= k < places.len() && #[trigger] places[k] == (i, j) && persons(visits)[k] == p,
    ensures
        present_as(caller, visits, id, status) <==> presences_of(persons(visits)).contains(
            (id, status),
        ) || (id == caller.account.id@ && status == caller.user.status@ && !present_ids(
            persons(visits),
        ).contains(id)),
{
    let people = persons(visits);
    lemma_presences_first(people);
    lemma_present(people);
    assert(present_ids(people).contains(id) <==> exists|i: int, j: int, p: Person| #[trigger]
        met(visits, i, j, p) && p.connected && p.user.id@ == id) by {
        if present_ids(people).contains(id) {
            let k = choose|k: int|
                0 <= k < people.len() && (#[trigger] people[k]).connected && people[k].user.id@
                    == id;
            assert(met(visits, places[k].0, places[k].1, people[k]));
        }
        if exists|i: int, j: int, p: Person| #[trigger]
            met(visits, i, j, p) && p.connected && p.user.id@ == id {
            let (i, j, p) = choose|i: int, j: int, p: Person| #[trigger]
                met(visits, i, j, p) && p.connected && p.user.id@ == id;
            let k = choose|k: int|
                0 <= k < places.len() && #[trigger] places[k] == (i, j) && people[k] == p;
            assert(people[k].connected);
        }
    }
    if presences_of(people).contains((id, status)) {
        let k = choose|k: int|
            {
                &&& 0 <= k < people.len()
                &&& (#[trigger] people[k]).connected
                &&& people[k].user.id@ == id
                &&& people[k].user.status@ == status
                &&& forall|l: int|
                    0 <= l < k && (#[trigger] people[l]).connected ==> people[l].user.id@ != id
            };
        let (i, j) = places[k];
        assert(met(visits, i, j, people[k]));
        assert forall|a: int, b: int, q: Person| #[trigger]
            met(visits, a, b, q) && q.connected && q.user.id@
            == people[k].user.id@ implies !earlier(a, b, i, j) by {
            let l = choose|l: int|
                0 <= l < places.len() && #[trigger] places[l] == (a, b) && people[l] == q;
            assert(people[l].connected);
            if k < l {
                assert(earlier(places[k].0, places[k].1, places[l].0, places[l].1));
            }
        }
        assert(first_present(visits, i, j, people[k]));
    }
    if exists|i: int, j: int, p: Person| #[trigger]
        first_present(visits, i, j, p) && p.user.id@ == id && p.user.status@ == status {
        let (i, j, p) = choose|i: int, j: int, p: Person| #[trigger]
            first_present(visits, i, j, p) && p.user.id@ == id && p.user.status@ == status;
        let k = choose|k: int|
            0 <= k < places.len() && #[trigger] places[k] == (i, j) && people[k] == p;
        assert(people[k].connected);
        assert forall|l: int| 0 <= l < k && (#[trigger] people[l]).connected implies
            people[l].user.id@ != id by {
            assert(met(visits, places[l].0, places[l].1, people[l]));
            assert(earlier(places[l].0, places[l].1, places[k].0, places[k].1));
        }
    }
}

/// The users that were found are the first with each id.
proof fn lemma_users_first(people: Seq<Person>, id: Seq<char>)
    ensures
        users_of(people).dom().finite(),
        if users_of(people).contains_key(id) {
            exists|k: int|
                {
                    &&& 0 <= k < people.len()
                    &&& (#[trigger] people[k]).user.id@ == id
                    &&& users_of(people)[id] == User::of_row(people[k].user)
                    &&& forall|l: int| 0 <= l < k ==> (#[trigger] people[l]).user.id@ != id
                }
        } else {
            forall|l: int| 0 <= l < people.len() ==> (#[trigger] people[l]).user.id@ != id
        },
    decreases people.len(),
{
    if people.len() > 0 {
        let shorter = people.drop_last();
        let last = people.len() - 1;
        lemma_users_first(shorter, id);
        if users_of(shorter).contains_key(id) {
            let k = choose|k: int|
                {
                    &&& 0 <= k < shorter.len()
                    &&& (#[trigger] shorter[k]).user.id@ == id
                    &&& users_of(shorter)[id] == User::of_row(shorter[k].user)
                    &&& forall|l: int| 0 <= l < k ==> (#[trigger] shorter[l]).user.id@ != id
                };
            assert(people[k].user.id@ == id);
            assert forall|l: int| 0 <= l < k implies (#[trigger] people[l]).user.id@ != id by {
                assert(shorter[l] == people[l]);
            }
        } else {
            assert forall|l: int| 0 <= l < last implies (#[trigger] people[l]).user.id@ != id by {
                assert(shorter[l] == people[l]);
            }
            assert(people[last] == people.last());
        }
    }
}

/// A client is told of every user of its guilds under the id of the user, as it was met first,
/// and of its own; and of nobody else.
pub proof fn lemma_all_users_told(caller: Caller, visits: Seq<Option<GuildVisit>>, id: Seq<char>)
    ensures
        match ready_json(caller, visits).field("users"@) {
            Some(users) => match users.field(id) {
                Some(json) => {
                    ||| exists|i: int, j: int, p: Person| #[trigger]
                        first_met(visits, i, j, p) && p.user.id@ == id && shows_user(json, p.user)
                    ||| {
                        &&& id == caller.account.id@
                        &&& shows_user(json, caller.user)
                        &&& forall|i: int, j: int, p: Person| #[trigger]
                            met(visits, i, j, p) ==> p.user.id@ != id
                    }
                },
                None => id != caller.account.id@ && forall|i: int, j: int, p: Person| #[trigger]
                    met(visits, i, j, p) ==> p.user.id@ != id,
            },
            None => false,
        },
{
    let people = persons(visits);
    let own = caller.account.id@;
    let users = all_users(people, own, caller.user);
    lemma_ready_parts(caller, visits);
    let places = lemma_places(visits);
    lemma_users_first(people, id);
    lemma_keys_listed(users);
    let list = users_json(users);
    lemma_found_by_name(list, id);
    assert(lists_keys(sorted_keys(users), users));
    assert(users.contains_key(id) <==> JsonView::Object(list).field(id) is Some) by {
        if users.contains_key(id) {
            assert(sorted_keys(users).contains(id));
            let n = choose|n: int| 0 <= n < sorted_keys(users).len() && sorted_keys(users)[n] == id;
            assert(list[n].0 == id);
        }
        if JsonView::Object(list).field(id) is Some {
            let n = choose|n: int| 0 <= n < list.len() && (#[trigger] list[n]).0 == id;
            assert(sorted_keys(users)[n] == id);
            assert(sorted_keys(users).contains(id));
        }
    }
    if users.contains_key(id) {
        let value = JsonView::Object(list).field(id)->0;
        let n = choose|n: int| 0 <= n < list.len() && #[trigger] list[n] == (id, value);
        assert(value == users[id].spec_json());
    }
    if users_of(people).contains_key(id) {
        let k = choose|k: int|
            {
                &&& 0 <= k < people.len()
                &&& (#[trigger] people[k]).user.id@ == id
                &&& users_of(people)[id] == User::of_row(people[k].user)
                &&& forall|l: int| 0 <= l < k ==> (#[trigger] people[l]).user.id@ != id
            };
        let (i, j) = places[k];
        assert(met(visits, i, j, people[k]));
        assert forall|a: int, b: int, q: Person| #[trigger]
            met(visits, a, b, q) && q.user.id@ == people[k].user.id@ implies !earlier(
            a,
            b,
            i,
            j,
        ) by {
            let l = choose|l: int|
                0 <= l < places.len() && #[trigger] places[l] == (a, b) && people[l] == q;
            if k < l {
                assert(earlier(places[k].0, places[k].1, places[l].0, places[l].1));
            }
        }
        assert(first_met(visits, i, j, people[k]));
        lemma_user_shown(people[k].user);
    } else {
        assert forall|i: int, j: int, p: Person| #[trigger] met(visits, i, j, p) implies p.user.id@
            != id by {
            let k = choose|k: int|
                0 <= k < places.len() && #[trigger] places[k] == (i, j) && people[k] == p;
        }
        lemma_user_shown(caller.user);
    }
}

/// A client joins the room of every guild that it is a member of, in their order, and that of
/// the administrators where the lowest bit of its flags is set, and no other.
pub proof fn lemma_rooms_joined(memberships: Seq<GuildMembers>, flags: i32)
    ensures
        forall|i: int|
            0 <= i < memberships.len() ==> #[trigger] room_ids(memberships, flags)[i]
                == memberships[i].guild_id@,
        room_ids(memberships, flags).len() == memberships.len() + if flags & 1i32 == 1i32 {
            1int
        } else {
            0int
        },
        flags & 1i32 == 1i32 ==> room_ids(memberships, flags).last() == "admins"@,
{
}

/// A client is told of its own account, settings and user.
pub proof fn lemma_own_told(caller: Caller, visits: Seq<Option<GuildVisit>>)
    ensures
        ({
            let told = ready_json(caller, visits);
            let account = told.field("account"@)->0;
            let settings = told.field("settings"@)->0;
            &&& told.field("account"@) is Some
            &&& account.field("id"@) == Some(JsonView::Text(caller.account.id@))
            &&& account.field("email"@) == Some(JsonView::Text(caller.account.email@))
            &&& account.field("emailVerified"@) == Some(
                JsonView::Bool(caller.account.email_verified),
            )
            &&& account.field("locale"@) == Some(JsonView::Text(caller.account.locale@))
            &&& told.field("settings"@) is Some
            &&& settings.field("theme"@) == Some(JsonView::Text(caller.settings.theme@))
            &&& settings.field("compactMode"@) == Some(
                match caller.settings.compact_mode {
                    Some(b) => JsonView::Bool(b),
                    None => JsonView::Null,
                },
            )
            &&& settings.field("compactShowAvatars"@) == Some(
                match caller.settings.compact_show_avatars {
                    Some(b) => JsonView::Bool(b),
                    None => JsonView::Null,
                },
            )
            &&& told.field("appSettings"@) is Some
            &&& match told.field("appSettings"@)->0.field("inviteCodes"@) {
                Some(JsonView::Array(codes)) => codes.len() == 0,
                _ => false,
            }
            &&& told.field("user"@) is Some
            &&& shows_user(told.field("user"@)->0, caller.user)
        }),
{
    reveal_strlit("account");
    assert("account"@.len() == 7);
    reveal_strlit("settings");
    assert("settings"@.len() == 8);
    reveal_strlit("appSettings");
    assert("appSettings"@.len() == 11);
    reveal_strlit("user");
    assert("user"@.len() == 4);
    reveal_strlit("guilds");
    assert("guilds"@.len() == 6);
    reveal_strlit("presences");
    assert("presences"@.len() == 9);
    reveal_strlit("users");
    assert("users"@.len() == 5);
    reveal_strlit("id");
    assert("id"@.len() == 2);
    reveal_strlit("emailVerified");
    assert("emailVerified"@.len() == 13);
    reveal_strlit("locale");
    assert("locale"@.len() == 6);
    reveal_strlit("email");
    assert("email"@.len() == 5);
    reveal_strlit("theme");
    assert("theme"@.len() == 5);
    reveal_strlit("compactMode");
    assert("compactMode"@.len() == 11);
    reveal_strlit("compactShowAvatars");
    assert("compactShowAvatars"@.len() == 18);
    lemma_user_shown(caller.user);
}

} // verus!
