//! What holds of every session and of every registry that sessions write
//! to, proved from the contracts of the session and the registry.

use crate::identity::is_minted;
use crate::identity::is_uuid_v4_text;
use crate::identity::is_v4_draw;
use crate::identity::law_distinct_draws_distinct_texts;
use crate::identity::lemma_minted_is_v4_text;
use crate::identity::uuid_text;
use crate::json::JsonValue;
use crate::message::envelope_of;
use crate::message::opcode_of_tag;
use crate::message::outcome_of;
use crate::message::Envelope;
use crate::message::ParseError;
use crate::session::complete;
use crate::session::follows;
use crate::session::fresh_user;
use crate::session::MISSING_LOGIN_DATA;
use crate::session::UNNAMED_USER;
use crate::session::payload_id;
use crate::session::payload_token;
use crate::session::registers_whole;
use crate::session::registration_actions;
use crate::session::registry_after;
use crate::session::success_text;
use crate::session::whole;
use crate::session::ActionView;
use crate::user::UserView;
use vstd::prelude::*;

verus! {

/// A success payload names the token and the id that it was made of, each
/// at its fixed place.
pub proof fn lemma_payload_names(token: Seq<char>, id: Seq<char>)
    requires
        token.len() == 36,
        id.len() == 36,
    ensures
        success_text(token, id).len() == 109,
        payload_token(success_text(token, id)) == token,
        payload_id(success_text(token, id)) == id,
{
    reveal_strlit("{\"connection\": {\"token\":\"");
    reveal_strlit("\", \"id\":\"");
    reveal_strlit("\"}}");
    let payload = success_text(token, id);
    assert(payload_token(payload) =~= token);
    assert(payload_id(payload) =~= id);
}

/// Two fresh registrations whose tokens or ids differ are told apart by
/// their success payloads.
pub proof fn law_distinct_identities_distinct_payloads(
    token_a: Seq<char>,
    id_a: Seq<char>,
    token_b: Seq<char>,
    id_b: Seq<char>,
)
    requires
        is_uuid_v4_text(token_a),
        is_uuid_v4_text(id_a),
        is_uuid_v4_text(token_b),
        is_uuid_v4_text(id_b),
        token_a != token_b || id_a != id_b,
    ensures
        success_text(token_a, id_a) != success_text(token_b, id_b),
{
    lemma_payload_names(token_a, id_a);
    lemma_payload_names(token_b, id_b);
}

/// Two fresh registrations are told apart wherever their random draws
/// differ: where the draws for the two ids differ, so do the ids, where the
/// draws for the two tokens differ, so do the tokens, and either way the two
/// success payloads differ.
pub proof fn law_distinct_draws_distinct_registrations(
    token_draw_a: Seq<u8>,
    id_draw_a: Seq<u8>,
    token_draw_b: Seq<u8>,
    id_draw_b: Seq<u8>,
)
    requires
        is_v4_draw(token_draw_a),
        is_v4_draw(id_draw_a),
        is_v4_draw(token_draw_b),
        is_v4_draw(id_draw_b),
    ensures
        id_draw_a != id_draw_b ==> uuid_text(id_draw_a) != uuid_text(id_draw_b),
        token_draw_a != token_draw_b ==> uuid_text(token_draw_a) != uuid_text(token_draw_b),
        id_draw_a != id_draw_b || token_draw_a != token_draw_b ==> success_text(
            uuid_text(token_draw_a),
            uuid_text(id_draw_a),
        ) != success_text(uuid_text(token_draw_b), uuid_text(id_draw_b)),
{
    if id_draw_a != id_draw_b {
        law_distinct_draws_distinct_texts(id_draw_a, id_draw_b);
    }
    if token_draw_a != token_draw_b {
        law_distinct_draws_distinct_texts(token_draw_a, token_draw_b);
    }
    lemma_payload_names(uuid_text(token_draw_a), uuid_text(id_draw_a));
    lemma_payload_names(uuid_text(token_draw_b), uuid_text(id_draw_b));
}

/// The registry after a fresh registration is the registry before it with
/// the new user put under the new id.
pub proof fn lemma_registry_after_registration(
    registry: Map<Seq<char>, UserView>,
    token: Seq<char>,
    id: Seq<char>,
)
    ensures
        registry_after(registry, registration_actions(token, id)) == registry.insert(
            id,
            fresh_user(token, id),
        ),
{
    let actions = registration_actions(token, id);
    let two = actions.drop_last();
    let one = two.drop_last();
    assert(one.drop_last().len() == 0);
    assert(registry_after(registry, one.drop_last()) == registry);
    assert(registry_after(registry, one) == registry.insert(id, fresh_user(token, id)));
    assert(registry_after(registry, two) == registry_after(registry, one));
}

/// A `Connect` whose payload is `null` is answered with the error payload
/// and then a normal closure; the session is over, and the registry is as
/// it was. This holds of every open session, whatever it has seen before.
pub proof fn law_missing_login_data(
    envelope: Envelope,
    registry: Map<Seq<char>, UserView>,
    now_open: bool,
    actions: Seq<ActionView>,
)
    requires
        envelope.d is Null,
        follows(true, Ok(envelope), now_open, actions),
    ensures
        !now_open,
        actions == seq![ActionView::SendBinary(MISSING_LOGIN_DATA@), ActionView::Close],
        registry_after(registry, actions) == registry,
{
    let one = actions.drop_last();
    assert(one.drop_last().len() == 0);
    assert(registry_after(registry, one.drop_last()) == registry);
    assert(registry_after(registry, one) == registry);
}

/// A `Connect` whose payload is not `null` and names no `login_pkg` puts
/// one user into the registry and then sends the success payload, which
/// names the id under which that user now stands. Nothing else in the
/// registry changes, and the session stays open. Where that id was not in
/// the registry before, the registry has exactly one entry more; where it
/// was, the user under it is replaced.
pub proof fn law_fresh_registration(
    envelope: Envelope,
    registry: Map<Seq<char>, UserView>,
    now_open: bool,
    actions: Seq<ActionView>,
)
    requires
        !(envelope.d is Null),
        envelope.d.member("login_pkg"@) is None,
        follows(true, Ok(envelope), now_open, actions),
        registry.dom().finite(),
    ensures
        outcome_of(envelope) is FreshRegistration,
        now_open,
        actions.len() == 3,
        actions[0] is Register,
        actions[1] is SendBinary,
        actions[2] is LogRegistry,
        ({
            let payload = actions[1]->SendBinary_0;
            let id = payload_id(payload);
            let after = registry_after(registry, actions);
            &&& after.contains_key(id)
            &&& after[id].id == id
            &&& after[id].token == payload_token(payload)
            &&& after[id].name == UNNAMED_USER@
            &&& after.dom() == registry.dom().insert(id)
            &&& forall|key: Seq<char>| key != id && registry.contains_key(key) ==> after[key]
                == registry[key]
            &&& !registry.contains_key(id) ==> after.len() == registry.len() + 1
        }),
{
    let (token, id) = choose|token: Seq<char>, id: Seq<char>|
        is_minted(token) && is_minted(id) && actions == #[trigger] registration_actions(token, id);
    lemma_minted_is_v4_text(token);
    lemma_minted_is_v4_text(id);
    lemma_payload_names(token, id);
    lemma_registry_after_registration(registry, token, id);
}

/// A `Connect` that names a `login_pkg`, of whatever value, gets no answer
/// and leaves the registry as it was; the session stays open for more.
pub proof fn law_login_pkg_is_ignored(
    envelope: Envelope,
    registry: Map<Seq<char>, UserView>,
    now_open: bool,
    actions: Seq<ActionView>,
)
    requires
        envelope.d.member("login_pkg"@) is Some,
        follows(true, Ok(envelope), now_open, actions),
    ensures
        outcome_of(envelope) is NoOp,
        now_open,
        actions.len() == 0,
        registry_after(registry, actions) == registry,
{
}

/// A text that is not JSON is no envelope, and neither is a document whose
/// `t` is missing, is no string, or is a tag that names no opcode.
pub proof fn law_unrecognized_is_no_envelope(doc: Option<JsonValue>)
    requires
        match doc {
            None => true,
            Some(json) => match json.member("t"@) {
                Some(JsonValue::Text(tag)) => opcode_of_tag(tag) is None,
                _ => true,
            },
        },
    ensures
        envelope_of(doc) is Err,
{
}

/// A frame that holds no envelope ends the session without an answer and
/// leaves the registry as it was.
pub proof fn law_bad_frame_ends_session(
    read: Result<Envelope, ParseError>,
    registry: Map<Seq<char>, UserView>,
    was_open: bool,
    now_open: bool,
    actions: Seq<ActionView>,
)
    requires
        read is Err,
        follows(was_open, read, now_open, actions),
    ensures
        !now_open,
        actions.len() == 0,
        registry_after(registry, actions) == registry,
{
}

/// Registrations under different ids do not get in each other's way: in
/// whichever order two of them reach the registry, it ends up the same, with
/// both users in it.
pub proof fn law_registrations_commute(
    registry: Map<Seq<char>, UserView>,
    token_a: Seq<char>,
    id_a: Seq<char>,
    token_b: Seq<char>,
    id_b: Seq<char>,
)
    requires
        id_a != id_b,
        registry.dom().finite(),
    ensures
        registry_after(
            registry_after(registry, registration_actions(token_a, id_a)),
            registration_actions(token_b, id_b),
        ) == registry_after(
            registry_after(registry, registration_actions(token_b, id_b)),
            registration_actions(token_a, id_a),
        ),
        ({
            let after = registry_after(
                registry_after(registry, registration_actions(token_a, id_a)),
                registration_actions(token_b, id_b),
            );
            &&& after[id_a] == fresh_user(token_a, id_a)
            &&& after[id_b] == fresh_user(token_b, id_b)
            &&& after.dom() == registry.dom().insert(id_a).insert(id_b)
            &&& !registry.contains_key(id_a) && !registry.contains_key(id_b) ==> after.len()
                == registry.len() + 2
        }),
{
    let first_a = registry_after(registry, registration_actions(token_a, id_a));
    let first_b = registry_after(registry, registration_actions(token_b, id_b));
    lemma_registry_after_registration(registry, token_a, id_a);
    lemma_registry_after_registration(registry, token_b, id_b);
    lemma_registry_after_registration(first_a, token_b, id_b);
    lemma_registry_after_registration(first_b, token_a, id_a);
    let a_then_b = registry_after(first_a, registration_actions(token_b, id_b));
    let b_then_a = registry_after(first_b, registration_actions(token_a, id_a));
    assert(a_then_b =~= b_then_a);
    assert(a_then_b.dom() =~= registry.dom().insert(id_a).insert(id_b));
}

/// Whatever a session reads, whatever it asks to be put into the registry
/// is a whole user.
pub proof fn law_sessions_register_whole_users(
    was_open: bool,
    read: Result<Envelope, ParseError>,
    now_open: bool,
    actions: Seq<ActionView>,
)
    requires
        follows(was_open, read, now_open, actions),
    ensures
        forall|i: int| 0 <= i < actions.len() ==> registers_whole(#[trigger] actions[i]),
{
    if was_open && read is Ok && outcome_of(read->Ok_0) is FreshRegistration {
        let (token, id) = choose|token: Seq<char>, id: Seq<char>|
            is_minted(token) && is_minted(id) && actions == #[trigger] registration_actions(
                token,
                id,
            );
        lemma_minted_is_v4_text(token);
        lemma_minted_is_v4_text(id);
        assert(whole(id, fresh_user(token, id)));
    }
}

/// The registry is complete at every moment. Start from a complete
/// registry, the empty one for instance, and carry out actions of which
/// each registers a whole user or leaves the registry alone, as the actions
/// of sessions do, from however many sessions and in whatever order they
/// reach the registry. After each one of them the registry is complete: who
/// reads it finds under a key nothing, or a user with that id, a token and
/// a name, none of them empty.
pub proof fn law_registry_complete_at_every_moment(
    registry: Map<Seq<char>, UserView>,
    actions: Seq<ActionView>,
    done: int,
)
    requires
        complete(registry),
        forall|i: int| 0 <= i < actions.len() ==> registers_whole(#[trigger] actions[i]),
        0 <= done <= actions.len(),
    ensures
        complete(Map::<Seq<char>, UserView>::empty()),
        complete(registry_after(registry, actions.take(done))),
        forall|key: Seq<char>| #[trigger]
            registry_after(registry, actions.take(done)).contains_key(key) ==> {
                let user = registry_after(registry, actions.take(done))[key];
                &&& user.id == key
                &&& user.id.len() == 36
                &&& user.token.len() == 36
                &&& user.name == UNNAMED_USER@
            },
    decreases done,
{
    if done > 0 {
        law_registry_complete_at_every_moment(registry, actions, done - 1);
        let so_far = actions.take(done);
        assert(so_far.drop_last() =~= actions.take(done - 1));
        assert(so_far.last() == actions[done - 1]);
        assert(registers_whole(actions[done - 1]));
    }
}

/// One step of one session leaves a complete registry complete.
pub proof fn law_registry_stays_complete(
    registry: Map<Seq<char>, UserView>,
    was_open: bool,
    read: Result<Envelope, ParseError>,
    now_open: bool,
    actions: Seq<ActionView>,
)
    requires
        complete(registry),
        follows(was_open, read, now_open, actions),
    ensures
        complete(registry_after(registry, actions)),
{
    law_sessions_register_whole_users(was_open, read, now_open, actions);
    law_registry_complete_at_every_moment(registry, actions, actions.len() as int);
    assert(actions.take(actions.len() as int) =~= actions);
}

} // verus!
