//! What an identification comes to, from the account to the notice to others.

use vstd::prelude::*;
use crate::gateway::audience::{lemma_with_others, with_others};
use crate::gateway::events::identify::{
    follows, goes_on_with_audience, goes_on_with_guilds, goes_on_with_members, member_ids, runs,
    Identify, IdentifyAction, IdentifyError, IdentifyReply,
};
use crate::gateway::events::ready::{ready_json, room_ids, Caller, GuildVisit, MemberVisit, Person};
use crate::gateway::payload::PayloadView;
use crate::json::JsonView;
use crate::laws::models::shows_guild;
use crate::laws::presence::{lemma_member_ids, lemma_report_names, reports};
use crate::laws::ready::{guilds_met, lemma_all_guilds_told};
use crate::laws::statements::lemma_lookup_asks;
use crate::orm::channels::Channels;
use crate::orm::guild_members::GuildMembers;
use crate::orm::guilds::Guilds;
use crate::orm::value::{SqlValue, Statement};
use crate::text::chars::texts;

verus! {

/// What was learned of guilds: each guild that was asked for, and of each that was found its
/// channels and members, and whoever the members are.
#[verifier::ext_equal]
pub ghost struct Tour {
    pub guilds: Seq<Option<Guilds>>,
    pub channels: Seq<Seq<Channels>>,
    pub members: Seq<Seq<GuildMembers>>,
    pub people: Seq<Option<Person>>,
}

impl Tour {
    /// Nothing yet.
    pub open spec fn empty() -> Tour {
        Tour {
            guilds: Seq::empty(),
            channels: Seq::empty(),
            members: Seq::empty(),
            people: Seq::empty(),
        }
    }

    /// With one more reply.
    pub open spec fn and(self, reply: IdentifyReply) -> Tour {
        match reply {
            IdentifyReply::Guild(guild) => Tour { guilds: self.guilds.push(guild), ..self },
            IdentifyReply::Channels(list) => Tour { channels: self.channels.push(list@), ..self },
            IdentifyReply::Members(list) => Tour { members: self.members.push(list@), ..self },
            IdentifyReply::Person(person) => Tour { people: self.people.push(person), ..self },
            _ => self,
        }
    }
}

/// What some replies tell of guilds.
pub open spec fn heard(replies: Seq<IdentifyReply>) -> Tour
    decreases replies.len(),
{
    if replies.len() == 0 {
        Tour::empty()
    } else {
        heard(replies.drop_last()).and(replies.last())
    }
}

/// The memberships of members that were visited.
pub open spec fn rows_of(members: Seq<MemberVisit>) -> Seq<GuildMembers> {
    members.map_values(|m: MemberVisit| m.member)
}

/// Whoever members that were visited are.
pub open spec fn people_of(members: Seq<MemberVisit>) -> Seq<Option<Person>> {
    members.map_values(|m: MemberVisit| m.person)
}

/// What visits tell of guilds.
pub open spec fn tour_of(visits: Seq<Option<GuildVisit>>) -> Tour
    decreases visits.len(),
{
    if visits.len() == 0 {
        Tour::empty()
    } else {
        let earlier = tour_of(visits.drop_last());
        match visits.last() {
            None => Tour { guilds: earlier.guilds.push(None), ..earlier },
            Some(visit) => Tour {
                guilds: earlier.guilds.push(Some(visit.guild)),
                channels: earlier.channels.push(visit.channels@),
                members: earlier.members.push(rows_of(visit.members@)),
                people: earlier.people + people_of(visit.members@),
            },
        }
    }
}

/// What is known of guilds in a state.
pub open spec fn tour_in(state: Identify) -> Tour {
    match state {
        Identify::Guild { visits, .. } => tour_of(visits@),
        Identify::Channels { visits, guild, .. } => Tour {
            guilds: tour_of(visits@).guilds.push(Some(guild)),
            ..tour_of(visits@)
        },
        Identify::Members { visits, guild, channels, .. } => Tour {
            guilds: tour_of(visits@).guilds.push(Some(guild)),
            channels: tour_of(visits@).channels.push(channels@),
            ..tour_of(visits@)
        },
        Identify::Person { visits, guild, channels, members, seen, .. } => Tour {
            guilds: tour_of(visits@).guilds.push(Some(guild)),
            channels: tour_of(visits@).channels.push(channels@),
            members: tour_of(visits@).members.push(members@),
            people: tour_of(visits@).people + people_of(seen@),
        },
        _ => Tour::empty(),
    }
}

/// Whether replies tell who a client is and where it is a member.
pub open spec fn introduced(replies: Seq<IdentifyReply>, caller: Caller) -> bool {
    &&& replies.contains(IdentifyReply::Account(Some(caller.account)))
    &&& replies.contains(IdentifyReply::User(Some(caller.user)))
    &&& replies.contains(IdentifyReply::Settings(Some(caller.settings)))
    &&& replies.contains(IdentifyReply::Memberships(caller.memberships))
}

/// A reply that was heard stays heard.
proof fn lemma_heard_stays(replies: Seq<IdentifyReply>, n: int, reply: IdentifyReply)
    requires
        0 <= n < replies.len(),
        replies.take(n).contains(reply) || replies[n] == reply,
    ensures
        replies.take(n + 1).contains(reply),
{
    let less = replies.take(n);
    let more = replies.take(n + 1);
    if less.contains(reply) {
        let i = choose|i: int| 0 <= i < less.len() && less[i] == reply;
        assert(more[i] == reply);
    } else {
        assert(more[n] == reply);
    }
}

/// Who a client is stays known.
proof fn lemma_introduced_stays(replies: Seq<IdentifyReply>, n: int, caller: Caller)
    requires
        0 <= n < replies.len(),
        introduced(replies.take(n), caller),
    ensures
        introduced(replies.take(n + 1), caller),
{
    lemma_heard_stays(replies, n, IdentifyReply::Account(Some(caller.account)));
    lemma_heard_stays(replies, n, IdentifyReply::User(Some(caller.user)));
    lemma_heard_stays(replies, n, IdentifyReply::Settings(Some(caller.settings)));
    lemma_heard_stays(replies, n, IdentifyReply::Memberships(caller.memberships));
}

/// What an identification knows before the client is told.
pub open spec fn informed(state: Identify, replies: Seq<IdentifyReply>) -> bool {
    match state {
        Identify::Account => heard(replies) == Tour::empty(),
        Identify::User { account } => {
            &&& replies.contains(IdentifyReply::Account(Some(account)))
            &&& heard(replies) == Tour::empty()
        },
        Identify::Settings { account, user } => {
            &&& replies.contains(IdentifyReply::Account(Some(account)))
            &&& replies.contains(IdentifyReply::User(Some(user)))
            &&& heard(replies) == Tour::empty()
        },
        Identify::Memberships { account, user, settings } => {
            &&& replies.contains(IdentifyReply::Account(Some(account)))
            &&& replies.contains(IdentifyReply::User(Some(user)))
            &&& replies.contains(IdentifyReply::Settings(Some(settings)))
            &&& heard(replies) == Tour::empty()
        },
        Identify::Guild { caller, .. } => introduced(replies, caller) && heard(replies) == tour_in(
            state,
        ),
        Identify::Channels { caller, .. } => introduced(replies, caller) && heard(replies)
            == tour_in(state),
        Identify::Members { caller, .. } => introduced(replies, caller) && heard(replies)
            == tour_in(state),
        Identify::Person { caller, members, seen, .. } => introduced(replies, caller) && heard(
            replies,
        ) == tour_in(state) && rows_of(seen@) == members@.take(seen@.len() as int),
        Identify::Ready { caller } => introduced(replies, caller),
        Identify::Audience { caller, .. } => introduced(replies, caller),
        Identify::Over => true,
    }
}

/// Whether a message tells a client of all that replies have told of its guilds.
pub open spec fn tells_all(
    payload: PayloadView,
    caller: Caller,
    replies: Seq<IdentifyReply>,
) -> bool {
    exists|visits: Seq<Option<GuildVisit>>|
        {
            &&& tour_of(visits) == heard(replies)
            &&& visits.len() == caller.memberships@.len()
            &&& payload == PayloadView::dispatch("READY"@, #[trigger] ready_json(caller, visits))
        }
}

/// Going on with the next guild loses nothing of what is known.
proof fn lemma_goes_on_informed(
    caller: Caller,
    visits: Seq<Option<GuildVisit>>,
    next: Identify,
    action: IdentifyAction,
    replies: Seq<IdentifyReply>,
)
    requires
        visits.len() <= caller.memberships@.len(),
        goes_on_with_guilds(caller, visits, next, action),
        introduced(replies, caller),
        heard(replies) == tour_of(visits),
    ensures
        informed(next, replies),
        action is Send ==> tells_all(action->Send_0@, caller, replies) && next == (
        Identify::Ready { caller }),
        !(action is Finish),
{
    if visits.len() >= caller.memberships@.len() {
        assert(action->Send_0@ == PayloadView::dispatch("READY"@, ready_json(caller, visits)));
    }
}

/// Going on with the next member loses nothing of what is known.
proof fn lemma_goes_on_with_members(
    caller: Caller,
    visits: Seq<Option<GuildVisit>>,
    guild: Guilds,
    channels: Seq<Channels>,
    members: Seq<GuildMembers>,
    seen: Seq<MemberVisit>,
    next: Identify,
    action: IdentifyAction,
    replies: Seq<IdentifyReply>,
)
    requires
        visits.len() < caller.memberships@.len(),
        seen.len() <= members.len(),
        goes_on_with_members(caller, visits, guild, channels, members, seen, next, action),
        introduced(replies, caller),
        rows_of(seen) == members.take(seen.len() as int),
        heard(replies) == (Tour {
            guilds: tour_of(visits).guilds.push(Some(guild)),
            channels: tour_of(visits).channels.push(channels),
            members: tour_of(visits).members.push(members),
            people: tour_of(visits).people + people_of(seen),
        }),
    ensures
        informed(next, replies),
        action is Send ==> tells_all(action->Send_0@, caller, replies) && next == (
        Identify::Ready { caller }),
        !(action is Finish),
{
    if seen.len() >= members.len() {
        let visit = choose|visit: GuildVisit|
            {
                &&& visit.guild == guild
                &&& visit.channels@ == channels
                &&& visit.members@ == seen
                &&& #[trigger] goes_on_with_guilds(caller, visits.push(Some(visit)), next, action)
            };
        let whole = visits.push(Some(visit));
        assert(whole.drop_last() =~= visits);
        assert(members.take(seen.len() as int) =~= members);
        assert(tour_of(whole) =~= heard(replies));
        lemma_goes_on_informed(caller, whole, next, action, replies);
    }
}

/// Whether the first message to a client tells it of all that was heard.
pub open spec fn told_well(action: IdentifyAction, next: Identify, replies: Seq<
    IdentifyReply,
>) -> bool {
    action is Send ==> next is Ready && tells_all(
        action->Send_0@,
        next->Ready_caller,
        replies,
    )
}

/// What an identification knows stays right with every reply.
proof fn lemma_informed(
    states: Seq<Identify>,
    replies: Seq<IdentifyReply>,
    actions: Seq<IdentifyAction>,
    n: int,
)
    requires
        runs(states, replies, actions),
        states[0] is Account,
        0 <= n <= replies.len(),
    ensures
        informed(states[n], replies.take(n)),
        n > 0 ==> told_well(actions[n - 1], states[n], replies.take(n)),
    decreases n,
{
    if n > 0 {
        let m = n - 1;
        lemma_informed(states, replies, actions, m);
        let state = states[m];
        let reply = replies[m];
        let next = states[n];
        let action = actions[m];
        let less = replies.take(m);
        let more = replies.take(n);
        assert(state.valid() && state.awaits(reply));
        assert(follows(state, reply, next, action));
        assert(more.drop_last() =~= less);
        assert(more.last() == reply);
        assert(heard(more) == heard(less).and(reply));
        match (state, reply) {
            (_, IdentifyReply::Failed(_)) => {},
            (Identify::Account, IdentifyReply::Account(_)) => {
                lemma_heard_stays(replies, m, reply);
            },
            (Identify::User { account }, _) => {
                lemma_heard_stays(replies, m, reply);
                lemma_heard_stays(replies, m, IdentifyReply::Account(Some(account)));
            },
            (Identify::Settings { account, user }, _) => {
                lemma_heard_stays(replies, m, reply);
                lemma_heard_stays(replies, m, IdentifyReply::Account(Some(account)));
                lemma_heard_stays(replies, m, IdentifyReply::User(Some(user)));
            },
            (
                Identify::Memberships { account, user, settings },
                IdentifyReply::Memberships(memberships),
            ) => {
                lemma_heard_stays(replies, m, reply);
                lemma_heard_stays(replies, m, IdentifyReply::Account(Some(account)));
                lemma_heard_stays(replies, m, IdentifyReply::User(Some(user)));
                lemma_heard_stays(replies, m, IdentifyReply::Settings(Some(settings)));
                let caller = Caller { account, user, settings, memberships };
                lemma_goes_on_informed(caller, Seq::empty(), next, action, more);
            },
            (Identify::Guild { caller, visits }, IdentifyReply::Guild(found)) => {
                lemma_introduced_stays(replies, m, caller);
                if found is None {
                    let whole = visits@.push(None);
                    assert(whole.drop_last() =~= visits@);
                    assert(tour_of(whole) =~= heard(more));
                    lemma_goes_on_informed(caller, whole, next, action, more);
                } else {
                    assert(heard(more) =~= tour_in(next));
                }
            },
            (Identify::Channels { caller, .. }, _) => {
                lemma_introduced_stays(replies, m, caller);
                assert(heard(more) =~= tour_in(next));
            },
            (
                Identify::Members { caller, visits, guild, channels },
                IdentifyReply::Members(members),
            ) => {
                lemma_introduced_stays(replies, m, caller);
                let seen = Seq::<MemberVisit>::empty();
                assert(rows_of(seen) =~= members@.take(0));
                assert(tour_of(visits@).people + people_of(seen) =~= tour_of(visits@).people);
                lemma_goes_on_with_members(
                    caller,
                    visits@,
                    guild,
                    channels@,
                    members@,
                    seen,
                    next,
                    action,
                    more,
                );
            },
            (
                Identify::Person { caller, visits, guild, channels, members, seen },
                IdentifyReply::Person(person),
            ) => {
                lemma_introduced_stays(replies, m, caller);
                let all = seen@.push(MemberVisit { member: members@[seen@.len() as int], person });
                assert(rows_of(all) =~= members@.take(all.len() as int)) by {
                    assert(rows_of(all) =~= rows_of(seen@).push(members@[seen@.len() as int]));
                    assert(members@.take(all.len() as int) =~= members@.take(
                        seen@.len() as int,
                    ).push(members@[seen@.len() as int]));
                }
                assert(tour_of(visits@).people + people_of(all) =~= (tour_of(visits@).people
                    + people_of(seen@)).push(person));
                lemma_goes_on_with_members(
                    caller,
                    visits@,
                    guild,
                    channels@,
                    members@,
                    all,
                    next,
                    action,
                    more,
                );
            },
            (Identify::Ready { caller }, _) => {
                lemma_introduced_stays(replies, m, caller);
            },
            (Identify::Audience { caller, .. }, _) => {
                lemma_introduced_stays(replies, m, caller);
            },
            _ => {},
        }
    } else {
        assert(replies.take(0) =~= Seq::<IdentifyReply>::empty());
    }
}

/// The guilds that visits tell of are those that were found.
proof fn lemma_tour_guilds(visits: Seq<Option<GuildVisit>>)
    ensures
        guilds_met(visits).len() == tour_of(visits).guilds.filter(
            |g: Option<Guilds>| g is Some,
        ).len(),
        forall|k: int|
            0 <= k < guilds_met(visits).len() ==> (#[trigger] guilds_met(visits)[k]) is Some
                && tour_of(visits).guilds.filter(|g: Option<Guilds>| g is Some)[k] == Some(
                guilds_met(visits)[k]->0.guild,
            ),
    decreases visits.len(),
{
    reveal(Seq::filter);
    if visits.len() > 0 {
        let shorter = visits.drop_last();
        lemma_tour_guilds(shorter);
        let earlier = tour_of(shorter).guilds;
        let whole = tour_of(visits).guilds;
        assert(whole.drop_last() =~= earlier);
    }
}

/// The message that a client is sent lists every guild that was found in reply to its
/// memberships, in their order, and nothing of what was heard of guilds is lost on the way to it.
pub proof fn lemma_ready_tells_all(
    states: Seq<Identify>,
    replies: Seq<IdentifyReply>,
    actions: Seq<IdentifyAction>,
    n: int,
)
    requires
        runs(states, replies, actions),
        states[0] is Account,
        0 <= n < actions.len(),
        actions[n] is Send,
    ensures
        ({
            let payload = actions[n]->Send_0@;
            let so_far = replies.take(n + 1);
            let guilds = heard(so_far).guilds.filter(|g: Option<Guilds>| g is Some);
            &&& payload.op == 0
            &&& payload.t == Some("READY"@)
            &&& payload.d is Some
            &&& exists|caller: Caller| introduced(so_far, caller) && #[trigger] tells_all(
                payload,
                caller,
                so_far,
            )
            &&& match payload.d->0.field("guilds"@) {
                Some(JsonView::Array(list)) => list.len() == guilds.len() && forall|k: int|
                    0 <= k < list.len() ==> shows_guild(#[trigger] list[k], guilds[k]->0),
                _ => false,
            }
        }),
{
    lemma_informed(states, replies, actions, n + 1);
    let so_far = replies.take(n + 1);
    let caller = states[n + 1]->Ready_caller;
    let payload = actions[n]->Send_0@;
    assert(tells_all(payload, caller, so_far));
    let visits = choose|visits: Seq<Option<GuildVisit>>|
        {
            &&& tour_of(visits) == heard(so_far)
            &&& visits.len() == caller.memberships@.len()
            &&& payload == PayloadView::dispatch("READY"@, #[trigger] ready_json(caller, visits))
        };
    lemma_all_guilds_told(caller, visits);
    lemma_tour_guilds(visits);
    let guilds = heard(so_far).guilds.filter(|g: Option<Guilds>| g is Some);
    if let Some(JsonView::Array(list)) = payload.d->0.field("guilds"@) {
        assert forall|k: int| 0 <= k < list.len() implies shows_guild(
            #[trigger] list[k],
            guilds[k]->0,
        ) by {
            assert(guilds_met(visits)[k] is Some);
        }
    }
}

/// Whether a reply lists a user as a member of a guild.
pub open spec fn lists_member(reply: IdentifyReply, id: Seq<char>) -> bool {
    reply is Members && exists|m: int|
        0 <= m < reply->Members_0@.len() && (#[trigger] reply->Members_0@[m]).user_id@ == id
}

/// Whether one of the replies since the client was told lists a user as a member of a guild.
pub open spec fn listed_since(replies: Seq<IdentifyReply>, id: Seq<char>) -> bool {
    exists|s: int, i: int|
        0 <= s < i < replies.len() && #[trigger] replies[s] is Sent && #[trigger] lists_member(
            replies[i],
            id,
        )
}

/// A user is listed since the client was told in some replies and a last one.
proof fn lemma_listed_more(replies: Seq<IdentifyReply>, n: int, id: Seq<char>)
    requires
        0 <= n < replies.len(),
    ensures
        listed_since(replies.take(n + 1), id) <==> listed_since(replies.take(n), id) || (
        replies.take(n).contains(IdentifyReply::Sent) && lists_member(replies[n], id)),
{
    let more = replies.take(n + 1);
    let less = replies.take(n);
    assert(more[n] == replies[n]);
    if listed_since(more, id) {
        let (s, i) = choose|s: int, i: int|
            0 <= s < i < more.len() && #[trigger] more[s] is Sent && #[trigger] lists_member(
                more[i],
                id,
            );
        assert(less[s] == more[s]);
        if i < n {
            assert(less[i] == more[i]);
            assert(lists_member(less[i], id));
        }
    }
    if listed_since(less, id) {
        let (s, i) = choose|s: int, i: int|
            0 <= s < i < less.len() && #[trigger] less[s] is Sent && #[trigger] lists_member(
                less[i],
                id,
            );
        assert(more[s] is Sent && lists_member(more[i], id));
    }
    if less.contains(IdentifyReply::Sent) && lists_member(replies[n], id) {
        let s = choose|s: int| 0 <= s < less.len() && less[s] == IdentifyReply::Sent;
        assert(more[s] is Sent && lists_member(more[n], id));
    }
}

/// Whether a list names exactly the users other than `own` that replies list as members since
/// the client was told.
pub open spec fn names_listed(
    list: Seq<Seq<char>>,
    replies: Seq<IdentifyReply>,
    own: Seq<char>,
) -> bool {
    forall|id: Seq<char>| #[trigger] list.contains(id) <==> id != own && listed_since(replies, id)
}

/// What an identification knows of those who are to be told.
pub open spec fn counted(state: Identify, replies: Seq<IdentifyReply>) -> bool {
    match state {
        Identify::Audience { caller, recipients, .. } => replies.contains(IdentifyReply::Sent)
            && names_listed(texts(recipients@), replies, caller.account.id@),
        Identify::Over => true,
        _ => !replies.contains(IdentifyReply::Sent),
    }
}

/// Whether a client is identified by what was heard, and others are told that it is there.
pub open spec fn identified_well(action: IdentifyAction, replies: Seq<IdentifyReply>) -> bool {
    action matches IdentifyAction::Finish { result, notice } ==> exists|caller: Caller|
        {
            &&& #[trigger] introduced(replies, caller)
            &&& result.user_id@ == caller.account.id@
            &&& texts(result.rooms@) == room_ids(caller.memberships@, caller.user.flags)
            &&& match notice {
                Some(notice) => {
                    &&& caller.user.status@ != "UNAVAILABLE"@
                    &&& names_listed(texts(notice.recipients@), replies, caller.account.id@)
                    &&& reports(notice.payload@, caller.user.id@, caller.user.status@)
                },
                None => caller.user.status@ == "UNAVAILABLE"@,
            }
        }
}

/// Going on with the next guild whose members are to be told.
proof fn lemma_goes_on_counted(
    caller: Caller,
    recipients: Seq<Seq<char>>,
    asked: nat,
    next: Identify,
    action: IdentifyAction,
    replies: Seq<IdentifyReply>,
)
    requires
        goes_on_with_audience(caller, recipients, asked, next, action),
        introduced(replies, caller),
        caller.user.status@ != "UNAVAILABLE"@,
        replies.contains(IdentifyReply::Sent),
        names_listed(recipients, replies, caller.account.id@),
    ensures
        counted(next, replies),
        identified_well(action, replies),
{
    lemma_report_names(caller.user.id@, caller.user.status@);
    if asked >= caller.memberships@.len() {
        assert(introduced(replies, caller));
    }
}

/// Where others are to be told, the client is not unavailable.
pub open spec fn available(state: Identify) -> bool {
    state matches Identify::Audience { caller, .. } ==> caller.user.status@ != "UNAVAILABLE"@
}

/// What an identification knows of those who are to be told stays right with every reply.
proof fn lemma_counted(
    states: Seq<Identify>,
    replies: Seq<IdentifyReply>,
    actions: Seq<IdentifyAction>,
    n: int,
)
    requires
        runs(states, replies, actions),
        states[0] is Account,
        0 <= n <= replies.len(),
    ensures
        counted(states[n], replies.take(n)),
        available(states[n]),
        n > 0 ==> identified_well(actions[n - 1], replies.take(n)),
    decreases n,
{
    if n > 0 {
        let m = n - 1;
        lemma_counted(states, replies, actions, m);
        lemma_informed(states, replies, actions, m);
        lemma_informed(states, replies, actions, n);
        let state = states[m];
        let reply = replies[m];
        let next = states[n];
        let action = actions[m];
        let less = replies.take(m);
        let more = replies.take(n);
        assert(state.valid() && state.awaits(reply));
        assert(follows(state, reply, next, action));
        assert forall|id: Seq<char>| #[trigger] listed_since(more, id) <==> listed_since(less, id)
            || (less.contains(IdentifyReply::Sent) && lists_member(reply, id)) by {
            lemma_listed_more(replies, m, id);
        }
        assert(more.contains(IdentifyReply::Sent) <==> less.contains(IdentifyReply::Sent) || reply
            == IdentifyReply::Sent) by {
            assert(more =~= less.push(reply));
            if more.contains(IdentifyReply::Sent) {
                let i = choose|i: int| 0 <= i < more.len() && more[i] == IdentifyReply::Sent;
                if i < m {
                    assert(less[i] == more[i]);
                }
            }
            if less.contains(IdentifyReply::Sent) || reply == IdentifyReply::Sent {
                lemma_heard_stays(replies, m, IdentifyReply::Sent);
            }
        }
        match (state, reply) {
            (_, IdentifyReply::Failed(_)) => {},
            (Identify::Ready { caller }, IdentifyReply::Sent) => {
                lemma_introduced_stays(replies, m, caller);
                assert(names_listed(Seq::empty(), more, caller.account.id@)) by {
                    assert forall|id: Seq<char>| !#[trigger] listed_since(more, id) by {
                        lemma_none_listed(less, id);
                    }
                }
                if caller.user.status@ == "UNAVAILABLE"@ {
                    assert(introduced(more, caller));
                } else {
                    lemma_goes_on_counted(caller, Seq::empty(), 0, next, action, more);
                }
            },
            (
                Identify::Audience { caller, recipients, asked },
                IdentifyReply::Members(members),
            ) => {
                lemma_introduced_stays(replies, m, caller);
                let own = caller.account.id@;
                let list = with_others(texts(recipients@), member_ids(members@), own);
                lemma_with_others(texts(recipients@), member_ids(members@), own);
                assert(names_listed(list, more, own)) by {
                    assert forall|id: Seq<char>| #[trigger] list.contains(id) <==> id != own
                        && listed_since(more, id) by {
                        lemma_member_ids(members@, id);
                    }
                }
                lemma_goes_on_counted(caller, list, (asked + 1) as nat, next, action, more);
            },
            (
                Identify::Members { caller, visits, guild, channels },
                IdentifyReply::Members(members),
            ) => {
                lemma_no_finish(
                    caller,
                    visits@,
                    guild,
                    channels@,
                    members@,
                    Seq::empty(),
                    next,
                    action,
                );
            },
            (
                Identify::Person { caller, visits, guild, channels, members, seen },
                IdentifyReply::Person(person),
            ) => {
                let all = seen@.push(MemberVisit { member: members@[seen@.len() as int], person });
                lemma_no_finish(caller, visits@, guild, channels@, members@, all, next, action);
            },
            _ => {},
        }
    } else {
        assert(replies.take(0) =~= Seq::<IdentifyReply>::empty());
    }
}

/// Going on with members neither ends the identification nor begins to tell others.
proof fn lemma_no_finish(
    caller: Caller,
    visits: Seq<Option<GuildVisit>>,
    guild: Guilds,
    channels: Seq<Channels>,
    members: Seq<GuildMembers>,
    seen: Seq<MemberVisit>,
    next: Identify,
    action: IdentifyAction,
)
    requires
        goes_on_with_members(caller, visits, guild, channels, members, seen, next, action),
    ensures
        !(action is Finish),
        !(next is Audience),
        !(next is Over),
{
    if seen.len() >= members.len() {
        let visit = choose|visit: GuildVisit|
            {
                &&& visit.guild == guild
                &&& visit.channels@ == channels
                &&& visit.members@ == seen
                &&& #[trigger] goes_on_with_guilds(caller, visits.push(Some(visit)), next, action)
            };
        assert(goes_on_with_guilds(caller, visits.push(Some(visit)), next, action));
    }
}

/// Nobody is listed since the client was told before it was told.
proof fn lemma_none_listed(replies: Seq<IdentifyReply>, id: Seq<char>)
    requires
        !replies.contains(IdentifyReply::Sent),
    ensures
        !listed_since(replies, id),
{
    if listed_since(replies, id) {
        let (s, i) = choose|s: int, i: int|
            0 <= s < i < replies.len() && #[trigger] replies[s] is Sent && #[trigger] lists_member(
                replies[i],
                id,
            );
        assert(replies[s] == IdentifyReply::Sent);
    }
}

/// A client is identified as the account that was found, with the rooms of the memberships that
/// were found. Unless its user is unavailable, exactly the users other than itself are told of
/// its status that any reply lists as members since it was told itself.
pub proof fn lemma_identified_by_replies(
    states: Seq<Identify>,
    replies: Seq<IdentifyReply>,
    actions: Seq<IdentifyAction>,
    n: int,
)
    requires
        runs(states, replies, actions),
        states[0] is Account,
        0 <= n < actions.len(),
        actions[n] is Finish,
    ensures
        identified_well(actions[n], replies.take(n + 1)),
{
    lemma_counted(states, replies, actions, n + 1);
}

/// Whether a statement has a text and binds one value.
pub open spec fn asks(s: Statement, sql: Seq<char>, value: String) -> bool {
    s.sql@ == sql && s.params@ == seq![SqlValue::Text(value)]
}

/// The texts of the questions that an identification asks.
proof fn lemma_question_texts()
    ensures
        "SELECT * FROM "@ + "users"@ + " WHERE "@ + "id"@ + " = $1 LIMIT 1"@
            == "SELECT * FROM users WHERE id = $1 LIMIT 1"@,
        "SELECT * FROM "@ + "guilds"@ + " WHERE "@ + "id"@ + " = $1 LIMIT 1"@
            == "SELECT * FROM guilds WHERE id = $1 LIMIT 1"@,
        "SELECT * FROM "@ + "guildmembers"@ + " WHERE "@ + "user_id"@ + " = $1"@
            == "SELECT * FROM guildmembers WHERE user_id = $1"@,
        "SELECT * FROM "@ + "guildmembers"@ + " WHERE "@ + "guild_id"@ + " = $1"@
            == "SELECT * FROM guildmembers WHERE guild_id = $1"@,
        "SELECT * FROM "@ + "channels"@ + " WHERE "@ + "guild_id"@ + " = $1"@
            == "SELECT * FROM channels WHERE guild_id = $1"@,
{
    reveal_strlit("SELECT * FROM ");
    reveal_strlit("users");
    reveal_strlit("guilds");
    reveal_strlit("guildmembers");
    reveal_strlit("channels");
    reveal_strlit(" WHERE ");
    reveal_strlit("id");
    reveal_strlit("user_id");
    reveal_strlit("guild_id");
    reveal_strlit(" = $1");
    reveal_strlit(" = $1 LIMIT 1");
    reveal_strlit("SELECT * FROM users WHERE id = $1 LIMIT 1");
    reveal_strlit("SELECT * FROM guilds WHERE id = $1 LIMIT 1");
    reveal_strlit("SELECT * FROM guildmembers WHERE user_id = $1");
    reveal_strlit("SELECT * FROM guildmembers WHERE guild_id = $1");
    reveal_strlit("SELECT * FROM channels WHERE guild_id = $1");
    assert("SELECT * FROM "@ + "users"@ + " WHERE "@ + "id"@ + " = $1 LIMIT 1"@
        =~= "SELECT * FROM users WHERE id = $1 LIMIT 1"@);
    assert("SELECT * FROM "@ + "guilds"@ + " WHERE "@ + "id"@ + " = $1 LIMIT 1"@
        =~= "SELECT * FROM guilds WHERE id = $1 LIMIT 1"@);
    assert("SELECT * FROM "@ + "guildmembers"@ + " WHERE "@ + "user_id"@ + " = $1"@
        =~= "SELECT * FROM guildmembers WHERE user_id = $1"@);
    assert("SELECT * FROM "@ + "guildmembers"@ + " WHERE "@ + "guild_id"@ + " = $1"@
        =~= "SELECT * FROM guildmembers WHERE guild_id = $1"@);
    assert("SELECT * FROM "@ + "channels"@ + " WHERE "@ + "guild_id"@ + " = $1"@
        =~= "SELECT * FROM channels WHERE guild_id = $1"@);
}

/// Whether what is done next is the question whose answer is waited for.
pub open spec fn asks_what_it_waits_for(next: Identify, action: IdentifyAction) -> bool {
    match next {
        Identify::User { account } => action matches IdentifyAction::FetchUser(s) && asks(
            s,
            "SELECT * FROM users WHERE id = $1 LIMIT 1"@,
            account.user_id,
        ),
        Identify::Settings { account, .. } => action == (IdentifyAction::FetchSettings {
            account_id: account.id,
        }),
        Identify::Memberships { account, .. } => {
            action matches IdentifyAction::FetchMemberships(s) && asks(
                s,
                "SELECT * FROM guildmembers WHERE user_id = $1"@,
                account.id,
            )
        },
        Identify::Guild { caller, visits } => action matches IdentifyAction::FetchGuild(s) && asks(
            s,
            "SELECT * FROM guilds WHERE id = $1 LIMIT 1"@,
            caller.memberships@[visits@.len() as int].guild_id,
        ),
        Identify::Channels { guild, .. } => action matches IdentifyAction::FetchChannels(s)
            && asks(s, "SELECT * FROM channels WHERE guild_id = $1"@, guild.id),
        Identify::Members { guild, .. } => action matches IdentifyAction::FetchMembers(s) && asks(
            s,
            "SELECT * FROM guildmembers WHERE guild_id = $1"@,
            guild.id,
        ),
        Identify::Person { members, seen, .. } => action matches IdentifyAction::FetchPerson(s)
            && asks(
            s,
            "SELECT * FROM users WHERE id = $1 LIMIT 1"@,
            members@[seen@.len() as int].user_id,
        ),
        Identify::Ready { .. } => action is Send,
        Identify::Audience { caller, asked, .. } => action matches IdentifyAction::FetchMembers(s)
            && asks(
            s,
            "SELECT * FROM guildmembers WHERE guild_id = $1"@,
            caller.memberships@[asked as int].guild_id,
        ),
        Identify::Over => action is Finish || action is Fail,
        Identify::Account => false,
    }
}

/// Going on with guilds asks what is waited for.
proof fn lemma_guild_asked(
    caller: Caller,
    visits: Seq<Option<GuildVisit>>,
    next: Identify,
    action: IdentifyAction,
)
    requires
        goes_on_with_guilds(caller, visits, next, action),
    ensures
        asks_what_it_waits_for(next, action),
        next is Guild || next is Ready,
{
    lemma_question_texts();
    if visits.len() < caller.memberships@.len() {
        lemma_lookup_asks(
            action->FetchGuild_0,
            "guilds"@,
            "id"@,
            caller.memberships@[visits.len() as int].guild_id,
        );
    }
}

/// Going on with members asks what is waited for.
proof fn lemma_person_asked(
    caller: Caller,
    visits: Seq<Option<GuildVisit>>,
    guild: Guilds,
    channels: Seq<Channels>,
    members: Seq<GuildMembers>,
    seen: Seq<MemberVisit>,
    next: Identify,
    action: IdentifyAction,
)
    requires
        goes_on_with_members(caller, visits, guild, channels, members, seen, next, action),
    ensures
        asks_what_it_waits_for(next, action),
        next is Person || next is Guild || next is Ready,
{
    lemma_question_texts();
    if seen.len() < members.len() {
        lemma_lookup_asks(
            action->FetchPerson_0,
            "users"@,
            "id"@,
            members[seen.len() as int].user_id,
        );
    } else {
        let visit = choose|visit: GuildVisit|
            {
                &&& visit.guild == guild
                &&& visit.channels@ == channels
                &&& visit.members@ == seen
                &&& #[trigger] goes_on_with_guilds(caller, visits.push(Some(visit)), next, action)
            };
        lemma_guild_asked(caller, visits.push(Some(visit)), next, action);
    }
}

/// Every step asks for what is waited for next, by the id that was heard; where the account, the
/// user or the settings are not there, or the database fails, it says so and ends; and the
/// members of the guild of every membership are asked for, one after the other, before others
/// are told.
pub proof fn lemma_asks_in_turn(
    before: Identify,
    reply: IdentifyReply,
    next: Identify,
    action: IdentifyAction,
)
    requires
        before.valid(),
        before.awaits(reply),
        follows(before, reply, next, action),
    ensures
        asks_what_it_waits_for(next, action),
        reply matches IdentifyReply::Failed(e) ==> action == IdentifyAction::Fail(
            IdentifyError::Database(e),
        ),
        reply == IdentifyReply::Account(None) ==> action == IdentifyAction::Fail(
            IdentifyError::AccountNotFound,
        ),
        reply == IdentifyReply::User(None) ==> action == IdentifyAction::Fail(
            IdentifyError::UserNotFound,
        ),
        reply == IdentifyReply::Settings(None) ==> action == IdentifyAction::Fail(
            IdentifyError::SettingsNotFound,
        ),
        action is Fail ==> reply is Failed || reply == IdentifyReply::Account(None) || reply
            == IdentifyReply::User(None) || reply == IdentifyReply::Settings(None),
        reply matches IdentifyReply::Account(Some(account)) ==> next == (Identify::User {
            account,
        }),
        before is Ready ==> (next is Audience ==> next->Audience_asked == 0 && next->Audience_caller
            == before->Ready_caller),
        before is Audience && reply is Members ==> {
            let more = before->Audience_asked + 1;
            let caller = before->Audience_caller;
            &&& next is Audience <==> more < caller.memberships@.len()
            &&& next is Audience ==> next->Audience_asked == more && next->Audience_caller
                == caller
            &&& action is Finish <==> more >= caller.memberships@.len()
        },
{
    lemma_question_texts();
    match (before, reply) {
        (_, IdentifyReply::Failed(_)) => {},
        (Identify::Account, IdentifyReply::Account(Some(account))) => {
            lemma_lookup_asks(action->FetchUser_0, "users"@, "id"@, account.user_id);
        },
        (Identify::Settings { account, .. }, IdentifyReply::Settings(Some(_))) => {
            lemma_lookup_asks(
                action->FetchMemberships_0,
                "guildmembers"@,
                "user_id"@,
                account.id,
            );
        },
        (
            Identify::Memberships { account, user, settings },
            IdentifyReply::Memberships(memberships),
        ) => {
            lemma_guild_asked(
                Caller { account, user, settings, memberships },
                Seq::empty(),
                next,
                action,
            );
        },
        (Identify::Guild { caller, visits }, IdentifyReply::Guild(found)) => match found {
            Some(guild) => {
                lemma_lookup_asks(action->FetchChannels_0, "channels"@, "guild_id"@, guild.id);
            },
            None => {
                lemma_guild_asked(caller, visits@.push(None), next, action);
            },
        },
        (Identify::Channels { guild, .. }, IdentifyReply::Channels(_)) => {
            lemma_lookup_asks(action->FetchMembers_0, "guildmembers"@, "guild_id"@, guild.id);
        },
        (
            Identify::Members { caller, visits, guild, channels },
            IdentifyReply::Members(members),
        ) => {
            lemma_person_asked(
                caller,
                visits@,
                guild,
                channels@,
                members@,
                Seq::empty(),
                next,
                action,
            );
        },
        (
            Identify::Person { caller, visits, guild, channels, members, seen },
            IdentifyReply::Person(person),
        ) => {
            let all = seen@.push(MemberVisit { member: members@[seen@.len() as int], person });
            lemma_person_asked(
                caller,
                visits@,
                guild,
                channels@,
                members@,
                all,
                next,
                action,
            );
        },
        (Identify::Ready { caller }, IdentifyReply::Sent) => {
            if next is Audience {
                lemma_lookup_asks(
                    action->FetchMembers_0,
                    "guildmembers"@,
                    "guild_id"@,
                    caller.memberships@[0].guild_id,
                );
            }
        },
        (Identify::Audience { caller, asked, .. }, IdentifyReply::Members(_)) => {
            if next is Audience {
                lemma_lookup_asks(
                    action->FetchMembers_0,
                    "guildmembers"@,
                    "guild_id"@,
                    caller.memberships@[asked + 1].guild_id,
                );
            }
        },
        _ => {},
    }
}

} // verus!
