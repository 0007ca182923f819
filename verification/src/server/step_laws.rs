//! What a conversation with the server comes to, message by message: who is in
//! the directory of online clients, who is handed what, and who is told what.

use vstd::prelude::*;

use crate::protocol::message::{ClientMessage, ServerMessage};
use crate::protocol::PROTOCOL_VERSION;
use crate::server::db;
use crate::server::handler;
use crate::server::handler::{
    Answer, BytesView, Effect, KeysView, Next, OnFailure, Pending, Request, StepView, TextView,
};
use crate::server::laws;

verus! {

// ── The directory of online clients ─────────────────────────

/// The users in the directory of online clients once effects are carried out.
pub open spec fn listed_after(
    listed: Set<TextView>,
    effects: Seq<Effect<TextView, BytesView>>,
) -> Set<TextView>
    decreases effects.len(),
{
    if effects.len() == 0 {
        listed
    } else {
        let before = listed_after(listed, effects.drop_last());
        match effects.last() {
            Effect::Enlist { username } => before.insert(username),
            Effect::Delist { username } => before.remove(username),
            _ => before,
        }
    }
}

/// The users that the database has as online once effects are carried out.
pub open spec fn online_after(
    online: Set<TextView>,
    effects: Seq<Effect<TextView, BytesView>>,
) -> Set<TextView>
    decreases effects.len(),
{
    if effects.len() == 0 {
        online
    } else {
        let before = online_after(online, effects.drop_last());
        match effects.last() {
            Effect::SetOnline { username, online: true } => before.insert(username),
            Effect::SetOnline { username, online: false } => before.remove(username),
            _ => before,
        }
    }
}

/// An effect stands somewhere behind another one.
pub open spec fn follows(
    effects: Seq<Effect<TextView, BytesView>>,
    first: Effect<TextView, BytesView>,
    second: Effect<TextView, BytesView>,
) -> bool {
    exists|i: int, j: int|
        0 <= i < j < effects.len() && #[trigger] effects[i] == first && #[trigger] effects[j]
            == second
}

/// Whether everything that effects write to the client is this one message.
pub open spec fn only_reply_is(
    effects: Seq<Effect<TextView, BytesView>>,
    message: ServerMessage<TextView, BytesView>,
) -> bool {
    &&& effects.contains(Effect::Reply(message))
    &&& forall|i: int|
        0 <= i < effects.len() && #[trigger] effects[i] is Reply ==> effects[i] == Effect::Reply(
            message,
        )
    &&& forall|i: int| 0 <= i < effects.len() ==> !(#[trigger] effects[i] is Forward)
}

proof fn lemma_welcomed(
    step: StepView,
    username: TextView,
    acknowledgement: ServerMessage<TextView, BytesView>,
    listed: Set<TextView>,
    online: Set<TextView>,
)
    requires
        step == handler::welcome(username, acknowledgement),
    ensures
        listed_after(listed, step.effects) == listed.insert(username),
        online_after(online, step.effects) == online.insert(username),
        follows(
            step.effects,
            Effect::Reply(acknowledgement),
            Effect::DeliverQueue { username },
        ),
        only_reply_is(step.effects, acknowledgement),
        forall|i: int|
            0 <= i < step.effects.len() ==> !(#[trigger] step.effects[i] is Delist) && (
            step.effects[i] matches Effect::DeliverQueue { username: u } ==> u == username),
        step.next is Serve,
{
    let e = step.effects;
    assert(e.len() == 4);
    assert(e[0] == (Effect::<TextView, BytesView>::SetOnline { username, online: true }));
    assert(e[1] == (Effect::<TextView, BytesView>::Enlist { username }));
    assert(e[2] == Effect::Reply(acknowledgement));
    assert(e[3] == (Effect::<TextView, BytesView>::DeliverQueue { username }));
    let three = e.drop_last();
    let two = three.drop_last();
    let one = two.drop_last();
    let none = one.drop_last();
    assert(none.len() == 0);
    assert(one.last() == e[0] && two.last() == e[1] && three.last() == e[2] && e.last() == e[3]);
    assert(listed_after(listed, none) == listed && online_after(online, none) == online);
    assert(listed_after(listed, one) == listed);
    assert(listed_after(listed, two) == listed.insert(username));
    assert(listed_after(listed, three) == listed.insert(username));
    assert(online_after(online, one) == online.insert(username));
    assert(online_after(online, two) == online.insert(username));
    assert(online_after(online, three) == online.insert(username));
    assert(e.contains(e[2]));
}

/// Whoever logs in with the right password is asked for by that name and that
/// hash, and is then online and in the directory of online clients, reachable
/// under the name; is told so; and behind that gets everything that was stored
/// for this name, and nothing that was stored for another.
pub proof fn law_login_opens_the_door(
    me: Option<TextView>,
    username: TextView,
    password_hash: BytesView,
    now: i64,
    listed: Set<TextView>,
    online: Set<TextView>,
)
    ensures
        ({
            let asked = handler::first_step(me, ClientMessage::Login { username, password_hash });
            let step = laws::answered(me, asked, Answer::Authenticated { ok: true }, now);
            let told = ServerMessage::LoginAck { ok: true, error: None };
            &&& asked.effects.len() == 0
            &&& asked.next matches Next::Ask { request, pending }
            &&& request == (Request::<TextView, BytesView, KeysView>::Authenticate {
                username,
                password_hash,
            })
            &&& handler::name_after(me, pending, Answer::Authenticated { ok: true }) == Some(
                username,
            )
            &&& listed_after(listed, step.effects) == listed.insert(username)
            &&& online_after(online, step.effects) == online.insert(username)
            &&& only_reply_is(step.effects, told)
            &&& follows(step.effects, Effect::Reply(told), Effect::DeliverQueue { username })
            &&& forall|i: int|
                0 <= i < step.effects.len() ==> !(#[trigger] step.effects[i] is Delist) && (
                step.effects[i] matches Effect::DeliverQueue { username: u } ==> u == username)
            &&& step.next is Serve
        }),
{
    let step = handler::next_step(
        me,
        Pending::LoggingIn { username },
        Answer::Authenticated { ok: true },
        now,
    );
    lemma_welcomed(
        step,
        username,
        ServerMessage::LoginAck { ok: true, error: None },
        listed,
        online,
    );
}

/// Whoever registers under a free name is registered with the keys and the hash
/// that were sent, and is then in the directory, online, told so, and served,
/// like after a login.
pub proof fn law_registration_opens_the_door(
    me: Option<TextView>,
    username: TextView,
    password_hash: BytesView,
    identity_public_key: BytesView,
    signed_prekey: BytesView,
    signed_prekey_signature: BytesView,
    one_time_prekeys: KeysView,
    now: i64,
    listed: Set<TextView>,
    online: Set<TextView>,
)
    ensures
        ({
            let asked = handler::first_step(
                me,
                ClientMessage::Register {
                    username,
                    password_hash,
                    identity_public_key,
                    signed_prekey,
                    signed_prekey_signature,
                    one_time_prekeys,
                },
            );
            let step = laws::answered(me, asked, Answer::Registered { error: None }, now);
            let told = ServerMessage::RegisterAck { ok: true, error: None };
            &&& asked.effects.len() == 0
            &&& asked.next matches Next::Ask { request, pending }
            &&& request == (Request::<TextView, BytesView, KeysView>::RegisterUser {
                username,
                password_hash,
                identity_public_key,
                signed_prekey,
                signed_prekey_signature,
                one_time_prekeys,
            })
            &&& handler::name_after(me, pending, Answer::Registered { error: None }) == Some(
                username,
            )
            &&& listed_after(listed, step.effects) == listed.insert(username)
            &&& online_after(online, step.effects) == online.insert(username)
            &&& only_reply_is(step.effects, told)
            &&& follows(step.effects, Effect::Reply(told), Effect::DeliverQueue { username })
            &&& forall|i: int|
                0 <= i < step.effects.len() ==> !(#[trigger] step.effects[i] is Delist) && (
                step.effects[i] matches Effect::DeliverQueue { username: u } ==> u == username)
            &&& step.next is Serve
        }),
{
    let step = handler::next_step(
        me,
        Pending::Registering { username },
        Answer::Registered { error: None },
        now,
    );
    lemma_welcomed(
        step,
        username,
        ServerMessage::RegisterAck { ok: true, error: None },
        listed,
        online,
    );
}

/// Whoever is not let in is told why, and nothing else happens: no name, no
/// place in the directory, nothing that was stored.
pub proof fn law_refused_login_changes_nothing(
    me: Option<TextView>,
    username: TextView,
    why: TextView,
    now: i64,
)
    ensures
        ({
            let registering = Pending::<TextView, BytesView>::Registering { username };
            let logging_in = Pending::<TextView, BytesView>::LoggingIn { username };
            let taken = Answer::<TextView, BytesView>::Registered { error: Some(why) };
            let wrong = Answer::<TextView, BytesView>::Authenticated { ok: false };
            let unknown = Answer::<TextView, BytesView>::NotAuthenticated { error: why };
            &&& handler::next_step(me, registering, taken, now).effects == seq![
                Effect::<TextView, BytesView>::Reply(
                    ServerMessage::RegisterAck { ok: false, error: Some(why) },
                ),
            ]
            &&& handler::next_step(me, logging_in, wrong, now).effects == seq![
                Effect::<TextView, BytesView>::Reply(
                    ServerMessage::LoginAck { ok: false, error: Some("Invalid credentials"@) },
                ),
            ]
            &&& handler::next_step(me, logging_in, unknown, now).effects == seq![
                Effect::<TextView, BytesView>::Reply(
                    ServerMessage::LoginAck { ok: false, error: Some(why) },
                ),
            ]
            &&& handler::name_after(me, registering, taken) == me
            &&& handler::name_after(me, logging_in, wrong) == me
            &&& handler::name_after(me, logging_in, unknown) == me
        }),
{
}

/// A step of some conversation: what a message leads to, or what an answer
/// leads to.
pub open spec fn is_step(step: StepView) -> bool {
    ||| exists|me: Option<TextView>, msg: ClientMessage<TextView, BytesView, KeysView>|
        step == #[trigger] handler::first_step(me, msg)
    ||| exists|
        me: Option<TextView>,
        pending: Pending<TextView, BytesView>,
        answer: Answer<TextView, BytesView>,
        now: i64,
    |
        step == #[trigger] handler::next_step(me, pending, answer, now)
}

/// The directory once steps have been carried out one after the other.
pub open spec fn listed_after_all(listed: Set<TextView>, steps: Seq<StepView>) -> Set<TextView>
    decreases steps.len(),
{
    if steps.len() == 0 {
        listed
    } else {
        listed_after(listed_after_all(listed, steps.drop_last()), steps.last().effects)
    }
}

proof fn lemma_listed_grows(
    listed: Set<TextView>,
    effects: Seq<Effect<TextView, BytesView>>,
    username: TextView,
)
    requires
        forall|i: int| 0 <= i < effects.len() ==> !(#[trigger] effects[i] is Delist),
        listed.contains(username),
    ensures
        listed_after(listed, effects).contains(username),
    decreases effects.len(),
{
    if effects.len() > 0 {
        let rest = effects.drop_last();
        assert forall|i: int| 0 <= i < rest.len() implies !(#[trigger] rest[i] is Delist) by {
            assert(effects[i] == rest[i]);
        }
        lemma_listed_grows(listed, rest, username);
        assert(!(effects[effects.len() - 1] is Delist));
    }
}

/// Whoever is in the directory stays there: no message of anybody and no answer
/// of the database takes a user out, however many steps follow.
pub proof fn law_users_stay_listed(
    listed: Set<TextView>,
    steps: Seq<StepView>,
    username: TextView,
)
    requires
        listed.contains(username),
        forall|i: int| 0 <= i < steps.len() ==> is_step(#[trigger] steps[i]),
    ensures
        listed_after_all(listed, steps).contains(username),
    decreases steps.len(),
{
    if steps.len() > 0 {
        let rest = steps.drop_last();
        assert forall|i: int| 0 <= i < rest.len() implies is_step(#[trigger] rest[i]) by {
            assert(steps[i] == rest[i]);
        }
        law_users_stay_listed(listed, rest, username);
        let last = steps[steps.len() - 1];
        assert(is_step(last));
        lemma_listed_grows(listed_after_all(listed, rest), last.effects, username);
    }
}

/// At the end of its connection, and only there, a user leaves the directory and
/// is offline; nobody else does.
pub proof fn law_farewell_takes_one_user_out(
    username: TextView,
    listed: Set<TextView>,
    online: Set<TextView>,
)
    ensures
        listed_after(listed, handler::leaving(Some(username))) == listed.remove(username),
        online_after(online, handler::leaving(Some(username))) == online.remove(username),
        handler::leaving(None).len() == 0,
        forall|i: int|
            0 <= i < handler::leaving(Some(username)).len() ==> !(#[trigger] handler::leaving(
                Some(username),
            )[i] is Reply),
{
    let e = handler::leaving(Some(username));
    assert(e.len() == 2);
    let one = e.drop_last();
    let none = one.drop_last();
    assert(none.len() == 0);
    assert(one.last() == e[0] && e.last() == e[1]);
    assert(listed_after(listed, none) == listed && online_after(online, none) == online);
    assert(listed_after(listed, one) == listed);
    assert(online_after(online, one) == online.remove(username));
}

/// Only whoever has just been let in enters the directory, and under no other
/// name.
pub proof fn law_only_a_login_lists(
    me: Option<TextView>,
    msg: ClientMessage<TextView, BytesView, KeysView>,
    pending: Pending<TextView, BytesView>,
    answer: Answer<TextView, BytesView>,
    now: i64,
    username: TextView,
)
    ensures
        !handler::first_step(me, msg).effects.contains(Effect::Enlist { username }),
        handler::next_step(me, pending, answer, now).effects.contains(Effect::Enlist { username })
            ==> handler::name_after(me, pending, answer) == Some(username) && (answer == (Answer::<
            TextView,
            BytesView,
        >::Authenticated { ok: true }) || answer == (Answer::<TextView, BytesView>::Registered {
            error: None,
        })),
{
}

/// What is stored for a user goes to that user's own connection alone.
pub proof fn law_stored_messages_go_to_their_owner(
    me: Option<TextView>,
    msg: ClientMessage<TextView, BytesView, KeysView>,
    pending: Pending<TextView, BytesView>,
    answer: Answer<TextView, BytesView>,
    now: i64,
    username: TextView,
)
    ensures
        !handler::first_step(me, msg).effects.contains(Effect::DeliverQueue { username }),
        handler::next_step(me, pending, answer, now).effects.contains(
            Effect::DeliverQueue { username },
        ) ==> handler::name_after(me, pending, answer) == Some(username),
{
}

// ── Heartbeats, keys, farewells ─────────────────────────────

/// A heartbeat marks its user as online, asks how much is stored for that user,
/// tells the number, and, if there is anything, hands it out behind that.
pub proof fn law_heartbeat_fetches_what_is_stored(
    username: TextView,
    count: u32,
    now: i64,
    online: Set<TextView>,
)
    ensures
        ({
            let asked = handler::first_step(Some(username), ClientMessage::Heartbeat);
            let step = laws::answered(Some(username), asked, Answer::Pending { count }, now);
            let told = ServerMessage::HeartbeatAck { pending_messages: count };
            &&& online_after(online, asked.effects) == online.insert(username)
            &&& asked.next matches Next::Ask { request: Request::PendingCount { username: u }, .. }
                && u == username
            &&& only_reply_is(step.effects, told)
            &&& count > 0 ==> follows(
                step.effects,
                Effect::Reply(told),
                Effect::DeliverQueue { username },
            )
            &&& count == 0 ==> step.effects.len() == 1
            &&& step.next is Serve
        }),
{
    let asked = handler::first_step(Some(username), ClientMessage::Heartbeat);
    assert(asked.effects.drop_last().len() == 0);
    assert(online_after(online, asked.effects.drop_last()) == online);
    let step = laws::answered(Some(username), asked, Answer::Pending { count }, now);
    let told = ServerMessage::<TextView, BytesView>::HeartbeatAck { pending_messages: count };
    assert(step.effects[0] == Effect::Reply(told));
    assert(step.effects.contains(step.effects[0]));
    if count > 0 {
        assert(step.effects[1] == (Effect::<TextView, BytesView>::DeliverQueue { username }));
    }
}

/// Whoever asks for a user's keys gets the keys that are stored for that user,
/// all of them and as they are, or is told that there are none.
pub proof fn law_bundle_is_handed_out_as_stored(
    me: Option<TextView>,
    target: TextView,
    identity_public_key: BytesView,
    signed_prekey: BytesView,
    signed_prekey_signature: BytesView,
    one_time_prekey: Option<BytesView>,
    otpk_index: Option<u32>,
    error: TextView,
    now: i64,
)
    ensures
        ({
            let asked = handler::first_step(
                me,
                ClientMessage::FetchBundle { target_username: target },
            );
            let found = laws::answered(
                me,
                asked,
                Answer::Bundle {
                    identity_public_key,
                    signed_prekey,
                    signed_prekey_signature,
                    one_time_prekey,
                    otpk_index,
                },
                now,
            );
            let missing = laws::answered(me, asked, Answer::NoBundle { error }, now);
            &&& asked.effects.len() == 0
            &&& asked.next matches Next::Ask { request: Request::FetchBundle { username }, .. }
                && username == target
            &&& found.effects == seq![
                Effect::<TextView, BytesView>::Reply(
                    ServerMessage::Bundle {
                        username: target,
                        identity_public_key,
                        signed_prekey,
                        signed_prekey_signature,
                        one_time_prekey,
                        otpk_index,
                    },
                ),
            ]
            &&& missing.effects == seq![
                Effect::<TextView, BytesView>::Reply(
                    ServerMessage::BundleError { username: target, error },
                ),
            ]
            &&& found.next is Serve && missing.next is Serve
        }),
{
}

/// More prekeys are stored for the user that sends them; the user is told how
/// many there are now, or that they could not be stored.
pub proof fn law_refill_adds_to_the_own_keys(
    username: TextView,
    one_time_prekeys: KeysView,
    count: u32,
    now: i64,
)
    ensures
        ({
            let asked = handler::first_step(
                Some(username),
                ClientMessage::RefillPrekeys { one_time_prekeys },
            );
            &&& asked.next matches Next::Ask { request: Request::AddPrekeys { username: u, prekeys }, .. }
            &&& u == username && prekeys == one_time_prekeys
            &&& laws::answered(
                Some(username),
                asked,
                Answer::Refilled { count: Some(count) },
                now,
            ).effects == seq![
                Effect::<TextView, BytesView>::Reply(ServerMessage::RefillAck { ok: true, count }),
            ]
            &&& laws::answered(
                Some(username),
                asked,
                Answer::Refilled { count: None },
                now,
            ).effects == seq![
                Effect::<TextView, BytesView>::Reply(
                    ServerMessage::RefillAck { ok: false, count: 0 },
                ),
            ]
        }),
{
}

/// A connection ends when its client says goodbye, which is answered, and at no
/// other message.
pub proof fn law_goodbye_ends_the_connection(
    me: Option<TextView>,
    msg: ClientMessage<TextView, BytesView, KeysView>,
    pending: Pending<TextView, BytesView>,
    answer: Answer<TextView, BytesView>,
    now: i64,
)
    ensures
        handler::first_step(me, msg).next is Close <==> msg is Goodbye,
        msg is Goodbye ==> handler::first_step(me, msg).effects == seq![
            Effect::<TextView, BytesView>::Reply(ServerMessage::GoodbyeAck),
        ],
        !(handler::next_step(me, pending, answer, now).next is Close),
        msg is Hello ==> handler::first_step(me, msg).effects.len() == 0 && handler::first_step(
            me,
            msg,
        ).next is Serve,
{
}

/// The server goes on with a client that greets it with its own version, and
/// with no other; it always tells its version.
pub proof fn law_versions_have_to_agree(hello: ClientMessage<TextView, BytesView, KeysView>)
    ensures
        handler::greeting(hello).1 <==> (hello matches ClientMessage::Hello { version } && version
            == PROTOCOL_VERSION),
        hello is Hello ==> handler::greeting(hello).0 == (ServerMessage::<
            TextView,
            BytesView,
        >::HelloAck { version: PROTOCOL_VERSION, ok: handler::greeting(hello).1 }),
        !(hello is Hello) ==> handler::greeting(hello).0 is Error,
{
}

// ── Chat requests ───────────────────────────────────────────

/// A chat request reaches the user that it is addressed to, if there is one,
/// with the sender's name and the keys that were sent; the sender is told.
pub proof fn law_chat_request_is_relayed(
    me: Option<TextView>,
    to: TextView,
    identity_public_key: BytesView,
    ephemeral_pub: BytesView,
    otpk_index: Option<u32>,
    now: i64,
    later: i64,
)
    ensures
        ({
            let sent = handler::first_step(
                me,
                ClientMessage::ChatRequest { to, identity_public_key, ephemeral_pub, otpk_index },
            );
            let found = laws::answered(me, sent, Answer::Exists { yes: true }, now);
            let message = ServerMessage::IncomingChatRequest {
                from: handler::name_of(me),
                identity_public_key,
                ephemeral_pub,
                otpk_index,
            };
            &&& sent.next matches Next::Ask { request: Request::UserExists { username }, .. }
                && username == to
            &&& found.next matches Next::Ask { request: Request::Deliver { to: t, message: m }, .. }
                && t == to && m == message
            &&& is_handed_over(me, found, to, message, later)
        }),
{
    lemma_handed_over(
        me,
        to,
        ServerMessage::IncomingChatRequest {
            from: handler::name_of(me),
            identity_public_key,
            ephemeral_pub,
            otpk_index,
        },
        later,
    );
}

/// What one user wants handed to another is handed over or, where the other is
/// not connected, stored for that user from this one and unchanged; in both
/// cases the sender hears that the chat message went through.
pub open spec fn is_handed_over(
    me: Option<TextView>,
    step: StepView,
    to: TextView,
    message: ServerMessage<TextView, BytesView>,
    later: i64,
) -> bool {
    let told = ServerMessage::ChatAck { ok: true, error: None };
    let gone = laws::answered(me, step, Answer::Delivered, later);
    let kept = laws::answered(me, step, Answer::Undelivered { message }, later);
    &&& gone.effects == seq![Effect::<TextView, BytesView>::Reply(told)]
    &&& only_reply_is(kept.effects, told)
    &&& kept.effects.len() == 2
    &&& kept.effects[0] matches Effect::QueueControl { to: t, from: f, kind, message: m }
    &&& t == to && f == handler::name_of(me) && m == message && db::is_control_kind(kind)
    &&& gone.next is Serve && kept.next is Serve
}

proof fn lemma_handed_over(
    me: Option<TextView>,
    to: TextView,
    message: ServerMessage<TextView, BytesView>,
    later: i64,
)
    requires
        message is IncomingChatRequest || message is ChatRequestAccepted
            || message is ChatRequestRejected,
    ensures
        is_handed_over(
            me,
            handler::ask(
                Request::Deliver { to, message },
                Pending::Delivering { from: handler::name_of(me), to, chat: true },
            ),
            to,
            message,
            later,
        ),
{
    let from = handler::name_of(me);
    let told = ServerMessage::<TextView, BytesView>::ChatAck { ok: true, error: None };
    let kept = handler::next_step(
        me,
        Pending::Delivering { from, to, chat: true },
        Answer::Undelivered { message },
        later,
    );
    assert(kept.effects[1] == Effect::Reply(told));
    assert(kept.effects.contains(kept.effects[1]));
}

/// What a user accepts arrives as accepted: the server looks up the identity key
/// that it has for that user, and hands it, under the user's own name, to
/// whoever is answered.
pub proof fn law_acceptance_is_relayed(
    me: Option<TextView>,
    to: TextView,
    key: Option<BytesView>,
    now: i64,
    later: i64,
)
    ensures
        ({
            let sent = handler::first_step(me, ClientMessage::ChatAccept { to });
            let found = laws::answered(me, sent, Answer::IdentityKey { key }, now);
            let message = ServerMessage::ChatRequestAccepted {
                from: handler::name_of(me),
                identity_public_key: match key {
                    Some(k) => k,
                    None => Seq::<u8>::empty(),
                },
            };
            &&& sent.effects.len() == 0 && found.effects.len() == 0
            &&& sent.next matches Next::Ask { request: Request::IdentityKey { username }, .. }
                && username == handler::name_of(me)
            &&& found.next matches Next::Ask { request: Request::Deliver { to: t, message: m }, .. }
                && t == to && m == message
            &&& is_handed_over(me, found, to, message, later)
        }),
{
    lemma_handed_over(
        me,
        to,
        ServerMessage::ChatRequestAccepted {
            from: handler::name_of(me),
            identity_public_key: match key {
                Some(k) => k,
                None => Seq::<u8>::empty(),
            },
        },
        later,
    );
}

/// What a user rejects arrives as rejected, under the user's own name.
pub proof fn law_rejection_is_relayed(me: Option<TextView>, to: TextView, later: i64)
    ensures
        ({
            let sent = handler::first_step(me, ClientMessage::ChatReject { to });
            let message = ServerMessage::ChatRequestRejected { from: handler::name_of(me) };
            &&& sent.effects.len() == 0
            &&& sent.next matches Next::Ask { request: Request::Deliver { to: t, message: m }, .. }
                && t == to && m == message
            &&& is_handed_over(me, sent, to, message, later)
        }),
{
    lemma_handed_over(
        me,
        to,
        ServerMessage::ChatRequestRejected { from: handler::name_of(me) },
        later,
    );
}

/// Each kind of chat message comes of its own request and of no other: nobody
/// hears of an acceptance, a rejection, a request, a message or a file that the
/// sender did not send.
pub proof fn law_relayed_kind_is_the_sent_kind(
    me: Option<TextView>,
    msg: ClientMessage<TextView, BytesView, KeysView>,
    answer: Answer<TextView, BytesView>,
    now: i64,
    message: ServerMessage<TextView, BytesView>,
    to: TextView,
)
    requires
        ({
            let first = handler::first_step(me, msg);
            let second = laws::answered(me, first, answer, now);
            ||| first.next matches Next::Ask { request: Request::Deliver { to: t, message: m }, .. }
                && t == to && m == message
            ||| second.next matches Next::Ask { request: Request::Deliver { to: t, message: m }, .. }
                && t == to && m == message
        }),
    ensures
        message is IncomingChatRequest <==> msg is ChatRequest,
        message is ChatRequestAccepted <==> msg is ChatAccept,
        message is ChatRequestRejected <==> msg is ChatReject,
        message is IncomingMessage <==> msg is SendMessage,
        message is IncomingFile <==> msg is SendFile,
        match msg {
            ClientMessage::ChatRequest { to: t, .. } => t == to,
            ClientMessage::ChatAccept { to: t } => t == to,
            ClientMessage::ChatReject { to: t } => t == to,
            ClientMessage::SendMessage { to: t, .. } => t == to,
            ClientMessage::SendFile { to: t, .. } => t == to,
            _ => false,
        },
{
}

/// A file chunk to a user that exists is handed over with the sender's own name
/// and untouched contents, stored if that user has no connection, and
/// acknowledged in both cases.
pub proof fn law_file_is_relayed(
    me: Option<TextView>,
    to: TextView,
    filename: TextView,
    chunk_index: u32,
    total_chunks: u32,
    ciphertext: BytesView,
    nonce: BytesView,
    now: i64,
    later: i64,
)
    ensures
        ({
            let from = handler::name_of(me);
            let message = ServerMessage::IncomingFile {
                from,
                filename,
                chunk_index,
                total_chunks,
                ciphertext,
                nonce,
                server_timestamp: now as u64,
            };
            let sent = handler::first_step(
                me,
                ClientMessage::SendFile {
                    to,
                    filename,
                    chunk_index,
                    total_chunks,
                    ciphertext,
                    nonce,
                },
            );
            let found = laws::answered(me, sent, Answer::Exists { yes: true }, now);
            let done = Effect::Reply(ServerMessage::SendAck { ok: true, error: None });
            &&& sent.next matches Next::Ask { request: Request::UserExists { username }, .. }
                && username == to
            &&& found.next matches Next::Ask { request: Request::Deliver { to: t, message: m }, .. }
                && t == to && m == message
            &&& laws::answered(me, found, Answer::Delivered, later).effects == seq![done]
            &&& laws::answered(me, found, Answer::Undelivered { message }, later).effects == seq![
                Effect::QueueFile {
                    to,
                    from,
                    filename,
                    chunk_index,
                    total_chunks,
                    ciphertext,
                    nonce,
                },
                done,
            ]
        }),
{
}

/// An acknowledgement says that all is well exactly if there is no error, and
/// tells the error otherwise. Chat messages have one of their own.
pub proof fn law_acknowledgement_tells_the_outcome(chat: bool, error: Option<TextView>)
    ensures
        chat ==> handler::ack(chat, error) == (ServerMessage::<TextView, BytesView>::ChatAck {
            ok: error is None,
            error,
        }),
        !chat ==> handler::ack(chat, error) == (ServerMessage::<TextView, BytesView>::SendAck {
            ok: error is None,
            error,
        }),
{
}

/// An answer that no question asked for has no effect: each question is
/// answered by its own kind of answer alone.
pub proof fn law_stray_answers_do_nothing(
    me: Option<TextView>,
    pending: Pending<TextView, BytesView>,
    answer: Answer<TextView, BytesView>,
    now: i64,
)
    requires
        match pending {
            Pending::Registering { .. } => !(answer is Registered),
            Pending::LoggingIn { .. } => !(answer is Authenticated) && !(answer
                is NotAuthenticated),
            Pending::Heartbeat => !(answer is Pending),
            Pending::Fetching { .. } => !(answer is Bundle) && !(answer is NoBundle),
            Pending::Requesting { .. } => !(answer is Exists),
            Pending::Accepting { .. } => !(answer is IdentityKey),
            Pending::Sending { .. } => !(answer is Exists),
            Pending::SendingFile { .. } => !(answer is Exists),
            Pending::Delivering { .. } => !(answer is Delivered) && !(answer is Undelivered),
            Pending::Refilling => !(answer is Refilled),
        },
    ensures
        handler::next_step(me, pending, answer, now).effects.len() == 0,
        handler::next_step(me, pending, answer, now).next is Serve,
        handler::name_after(me, pending, answer) == me,
{
}

/// A message that is none of those that users send each other is not stored.
pub proof fn law_only_relayed_messages_are_stored(
    from: TextView,
    to: TextView,
    message: ServerMessage<TextView, BytesView>,
)
    ensures
        handler::stored(from, to, message) is Some <==> laws::sender(message) is Some,
{
}

/// Presence is best effort; a frame of another user that cannot be written ends
/// the loop; everything else that is lost ends the connection.
pub proof fn law_lost_effects_are_not_passed_over(effect: Effect<TextView, BytesView>)
    ensures
        effect.failure() == OnFailure::Ignore <==> effect is SetOnline || effect is Enlist || effect
            is Delist,
        effect.failure() == OnFailure::Leave <==> effect is Forward,
        effect.failure() == OnFailure::Abort <==> effect is Reply || effect is QueueControl
            || effect is QueueMessage || effect is QueueFile || effect is DeliverQueue,
{
}

/// Before the login a connection has no name; afterwards it speaks under its
/// own.
pub proof fn law_name_is_the_own_name(me: Option<TextView>)
    ensures
        me matches Some(name) ==> handler::name_of(me) == name,
        me is None ==> handler::name_of(me).len() == 0,
{
}

/// What another connection hands over is written to the client as it is, and
/// nothing else happens; a frame that cannot be read ends the connection without
/// a word.
pub proof fn law_handed_over_messages_are_written(
    me: Option<TextView>,
    msg: ClientMessage<TextView, BytesView, KeysView>,
    message: ServerMessage<TextView, BytesView>,
)
    ensures
        handler::direct_step(Some(message)).effects == seq![
            Effect::<TextView, BytesView>::Forward(message),
        ],
        handler::direct_step(Some(message)).next is Serve,
        handler::direct_step(None).effects.len() == 0 && handler::direct_step(None).next is Serve,
        handler::frame_step(me, None).effects.len() == 0 && handler::frame_step(me, None).next
            is Close,
        handler::frame_step(me, Some(msg)) == handler::first_step(me, msg),
{
}

} // verus!
