//! Whole runs: what a command and the outcomes that follow it send out,
//! taken together, and what holds of every such run.

use crate::api::{qr_content_of, qr_request_of, rendered, token_of, token_request_of, LoginCredentials};
use crate::bot_lib::{opening, step, working_text, ActionView, Command, Session, Stage};
use crate::http::HttpOutcomeView;
use vstd::prelude::*;

verus! {

/// Feeds the outcomes to the session one by one: the session at the end and
/// all actions on the way, in order.
pub open spec fn run(session: Session, outcomes: Seq<HttpOutcomeView>) -> (
    Session,
    Seq<ActionView>,
)
    decreases outcomes.len(),
{
    if outcomes.len() == 0 {
        (session, Seq::empty())
    } else {
        let first = step(session, outcomes[0]);
        let rest = run(first.0, outcomes.drop_first());
        (rest.0, first.1 + rest.1)
    }
}

/// A command from `chat_id` and the outcomes that the driver reports after
/// it: the session at the end and everything that was sent out.
pub open spec fn trace(
    store: Map<i64, LoginCredentials>,
    chat_id: i64,
    command: Command,
    outcomes: Seq<HttpOutcomeView>,
) -> (Session, Seq<ActionView>) {
    let first = opening(store, chat_id, command);
    let rest = run(first.0, outcomes);
    (rest.0, first.1 + rest.1)
}

/// The pictures among the actions, in order.
pub open spec fn pictures(actions: Seq<ActionView>) -> Seq<Seq<u8>>
    decreases actions.len(),
{
    if actions.len() == 0 {
        Seq::empty()
    } else {
        let rest = pictures(actions.drop_first());
        match actions[0] {
            ActionView::Photo { bytes, .. } => seq![bytes] + rest,
            _ => rest,
        }
    }
}

/// Whether the action, if it is addressed to a chat, is addressed to
/// `chat_id`.
pub open spec fn stays_in(action: ActionView, chat_id: i64) -> bool {
    match action {
        ActionView::Text { chat_id: to, .. } => to == chat_id,
        ActionView::Photo { chat_id: to, .. } => to == chat_id,
        ActionView::Call(_) => true,
    }
}

/// Whether the session waits for an outcome.
pub open spec fn waiting(session: Session) -> bool {
    session.stage == Stage::AwaitingToken || session.stage == Stage::AwaitingQr
}

proof fn lemma_pictures_concat(a: Seq<ActionView>, b: Seq<ActionView>)
    ensures
        pictures(a + b) == pictures(a) + pictures(b),
    decreases a.len(),
{
    if a.len() == 0 {
        assert(a + b =~= b);
        assert(pictures(a) + pictures(b) =~= pictures(b));
    } else {
        lemma_pictures_concat(a.drop_first(), b);
        assert((a + b).drop_first() =~= a.drop_first() + b);
        assert((a + b)[0] == a[0]);
        match a[0] {
            ActionView::Photo { bytes, .. } => {
                assert(seq![bytes] + (pictures(a.drop_first()) + pictures(b)) =~= (seq![bytes]
                    + pictures(a.drop_first())) + pictures(b));
            },
            _ => {},
        }
    }
}

proof fn lemma_settled_stays(session: Session, outcomes: Seq<HttpOutcomeView>)
    requires
        !waiting(session),
    ensures
        run(session, outcomes) == (session, Seq::<ActionView>::empty()),
    decreases outcomes.len(),
{
    if outcomes.len() > 0 {
        lemma_settled_stays(session, outcomes.drop_first());
        assert(Seq::<ActionView>::empty() + Seq::<ActionView>::empty() =~= Seq::<
            ActionView,
        >::empty());
    }
}

proof fn lemma_run_shape(session: Session, outcomes: Seq<HttpOutcomeView>)
    ensures
        run(session, outcomes).0.chat_id == session.chat_id,
        forall|i: int|
            0 <= i < run(session, outcomes).1.len() ==> stays_in(
                #[trigger] run(session, outcomes).1[i],
                session.chat_id,
            ),
        pictures(run(session, outcomes).1).len() <= 1,
        waiting(session) ==> (pictures(run(session, outcomes).1).len() == 1 <==> run(
            session,
            outcomes,
        ).0.stage == Stage::Delivered),
        !waiting(session) ==> pictures(run(session, outcomes).1).len() == 0 && run(
            session,
            outcomes,
        ).0 == session,
    decreases outcomes.len(),
{
    reveal_with_fuel(pictures, 2);
    if !waiting(session) {
        lemma_settled_stays(session, outcomes);
    } else if outcomes.len() > 0 {
        let first = step(session, outcomes[0]);
        let rest = run(first.0, outcomes.drop_first());
        lemma_run_shape(first.0, outcomes.drop_first());
        lemma_pictures_concat(first.1, rest.1);
        assert(first.1.len() <= 1);
        if first.1.len() == 1 {
            assert(first.1.drop_first() =~= Seq::<ActionView>::empty());
            assert(pictures(first.1.drop_first()) =~= Seq::<Seq<u8>>::empty());
        }
        if first.0.stage == Stage::Delivered {
            assert(first.1[0] is Photo);
            assert(pictures(first.1).len() == 1);
        } else {
            assert(pictures(first.1).len() == 0);
        }
    }
}

/// A command from a chat that has no credentials sends nothing out, whatever
/// is reported afterwards: no text, no request and no picture.
pub proof fn unauthorized_chat_is_ignored(
    store: Map<i64, LoginCredentials>,
    chat_id: i64,
    command: Command,
    outcomes: Seq<HttpOutcomeView>,
)
    requires
        !store.contains_key(chat_id),
    ensures
        trace(store, chat_id, command, outcomes).0 == (Session { chat_id, stage: Stage::Ignored }),
        trace(store, chat_id, command, outcomes).1 == Seq::<ActionView>::empty(),
        pictures(trace(store, chat_id, command, outcomes).1).len() == 0,
{
    lemma_settled_stays(Session { chat_id, stage: Stage::Ignored }, outcomes);
    assert(Seq::<ActionView>::empty() + Seq::<ActionView>::empty() =~= Seq::<ActionView>::empty());
}

/// No run sends more than one picture, and it sends one exactly when it ends
/// in `Delivered`. A run that ends in `Failed` or `Ignored`, or that still
/// waits, has sent none.
pub proof fn at_most_one_picture(
    store: Map<i64, LoginCredentials>,
    chat_id: i64,
    command: Command,
    outcomes: Seq<HttpOutcomeView>,
)
    ensures
        pictures(trace(store, chat_id, command, outcomes).1).len() <= 1,
        pictures(trace(store, chat_id, command, outcomes).1).len() == 1 <==> trace(
            store,
            chat_id,
            command,
            outcomes,
        ).0.stage == Stage::Delivered,
{
    let first = opening(store, chat_id, command);
    let rest = run(first.0, outcomes);
    lemma_run_shape(first.0, outcomes);
    lemma_pictures_concat(first.1, rest.1);
    lemma_opening_has_no_picture(store, chat_id, command);
}

proof fn lemma_opening_has_no_picture(
    store: Map<i64, LoginCredentials>,
    chat_id: i64,
    command: Command,
)
    ensures
        pictures(opening(store, chat_id, command).1).len() == 0,
        opening(store, chat_id, command).0.stage != Stage::Delivered,
        opening(store, chat_id, command).0.stage != Stage::AwaitingQr,
{
    let first = opening(store, chat_id, command).1;
    if first.len() == 1 {
        assert(first.drop_first() =~= Seq::<ActionView>::empty());
    } else if first.len() == 2 {
        assert(first.drop_first().drop_first() =~= Seq::<ActionView>::empty());
    }
    reveal_with_fuel(pictures, 3);
}

/// Where both exchanges and the rendering succeed, an authorised chat gets
/// exactly this: the status line, the sign-in request for its own stored
/// credentials, the entry-code request under the token that came back, and
/// one picture, addressed to that chat, of the entry code that came back.
/// Nothing that is reported later adds to it.
pub proof fn successful_run_delivers_once(
    store: Map<i64, LoginCredentials>,
    chat_id: i64,
    command: Command,
    outcomes: Seq<HttpOutcomeView>,
)
    requires
        store.contains_key(chat_id),
        token_request_of(store[chat_id]@) is Ok,
        outcomes.len() >= 2,
        token_of(outcomes[0]) is Ok,
        qr_content_of(outcomes[1]) is Ok,
        rendered(qr_content_of(outcomes[1])->Ok_0) is Ok,
    ensures
        trace(store, chat_id, command, outcomes).0 == (Session {
            chat_id,
            stage: Stage::Delivered,
        }),
        trace(store, chat_id, command, outcomes).1 == seq![
            ActionView::Text { chat_id, text: working_text() },
            ActionView::Call(token_request_of(store[chat_id]@)->Ok_0),
            ActionView::Call(qr_request_of(token_of(outcomes[0])->Ok_0)),
            ActionView::Photo { chat_id, bytes: rendered(qr_content_of(outcomes[1])->Ok_0)->Ok_0 },
        ],
        pictures(trace(store, chat_id, command, outcomes).1) == seq![
            rendered(qr_content_of(outcomes[1])->Ok_0)->Ok_0,
        ],
{
    let s0 = Session { chat_id, stage: Stage::AwaitingToken };
    let s1 = Session { chat_id, stage: Stage::AwaitingQr };
    let s2 = Session { chat_id, stage: Stage::Delivered };
    let tail1 = outcomes.drop_first();
    let tail2 = tail1.drop_first();
    assert(tail1[0] == outcomes[1]);
    lemma_settled_stays(s2, tail2);
    assert(run(s1, tail1).0 == s2);
    assert(run(s0, outcomes).0 == s2);
    let all = trace(store, chat_id, command, outcomes).1;
    let expected = seq![
        ActionView::Text { chat_id, text: working_text() },
        ActionView::Call(token_request_of(store[chat_id]@)->Ok_0),
        ActionView::Call(qr_request_of(token_of(outcomes[0])->Ok_0)),
        ActionView::Photo { chat_id, bytes: rendered(qr_content_of(outcomes[1])->Ok_0)->Ok_0 },
    ];
    assert(all =~= expected);
    reveal_with_fuel(pictures, 5);
    assert(expected.drop_first().drop_first().drop_first().drop_first() =~= Seq::<
        ActionView,
    >::empty());
    assert(pictures(expected) =~= seq![rendered(qr_content_of(outcomes[1])->Ok_0)->Ok_0]);
}

/// A failure at any stage ends the run without a picture: where the sign-in
/// request cannot be built, where either exchange fails, or where the entry
/// code cannot be rendered, the session ends in `Failed` with that very error
/// and no picture is sent, whatever is reported later.
pub proof fn failed_run_delivers_nothing(
    store: Map<i64, LoginCredentials>,
    chat_id: i64,
    command: Command,
    outcomes: Seq<HttpOutcomeView>,
)
    requires
        store.contains_key(chat_id),
    ensures
        token_request_of(store[chat_id]@) matches Err(e) ==> trace(
            store,
            chat_id,
            command,
            outcomes,
        ).0.stage == Stage::Failed(e),
        token_request_of(store[chat_id]@) is Ok && outcomes.len() >= 1 ==> (token_of(
            outcomes[0],
        ) matches Err(e) ==> trace(store, chat_id, command, outcomes).0.stage == Stage::Failed(e)),
        token_request_of(store[chat_id]@) is Ok && outcomes.len() >= 2 && token_of(outcomes[0]) is Ok
            ==> (qr_content_of(outcomes[1]) matches Err(e) ==> trace(
            store,
            chat_id,
            command,
            outcomes,
        ).0.stage == Stage::Failed(e)),
        token_request_of(store[chat_id]@) is Ok && outcomes.len() >= 2 && token_of(outcomes[0]) is Ok
            && qr_content_of(outcomes[1]) is Ok ==> (rendered(
            qr_content_of(outcomes[1])->Ok_0,
        ) matches Err(e) ==> trace(store, chat_id, command, outcomes).0.stage == Stage::Failed(e)),
        trace(store, chat_id, command, outcomes).0.stage is Failed ==> pictures(
            trace(store, chat_id, command, outcomes).1,
        ).len() == 0,
{
    at_most_one_picture(store, chat_id, command, outcomes);
    let first = opening(store, chat_id, command);
    if token_request_of(store[chat_id]@) is Err {
        lemma_settled_stays(first.0, outcomes);
    } else if outcomes.len() >= 1 {
        let s1 = step(first.0, outcomes[0]);
        let tail1 = outcomes.drop_first();
        if token_of(outcomes[0]) is Err {
            lemma_settled_stays(s1.0, tail1);
        } else if outcomes.len() >= 2 {
            assert(tail1[0] == outcomes[1]);
            let s2 = step(s1.0, tail1[0]);
            assert(!waiting(s2.0));
            lemma_settled_stays(s2.0, tail1.drop_first());
            assert(run(s1.0, tail1).0 == s2.0);
            assert(run(first.0, outcomes).0 == s2.0);
        }
    }
}

/// Whatever a run sends to a chat, it sends to the chat that gave the
/// command, and the sign-in request, if there is one, is built from the
/// credentials stored under that chat and no other.
pub proof fn actions_stay_in_the_asking_chat(
    store: Map<i64, LoginCredentials>,
    chat_id: i64,
    command: Command,
    outcomes: Seq<HttpOutcomeView>,
)
    ensures
        trace(store, chat_id, command, outcomes).0.chat_id == chat_id,
        forall|i: int|
            0 <= i < trace(store, chat_id, command, outcomes).1.len() ==> stays_in(
                #[trigger] trace(store, chat_id, command, outcomes).1[i],
                chat_id,
            ),
        trace(store, chat_id, command, outcomes).1.len() >= 2 ==> store.contains_key(chat_id)
            && trace(store, chat_id, command, outcomes).1[1] == ActionView::Call(
            token_request_of(store[chat_id]@)->Ok_0,
        ),
{
    let first = opening(store, chat_id, command);
    lemma_run_shape(first.0, outcomes);
    if !store.contains_key(chat_id) {
        lemma_settled_stays(first.0, outcomes);
    } else if token_request_of(store[chat_id]@) is Err {
        lemma_settled_stays(first.0, outcomes);
    }
}

/// The picture depends on the replies alone: two authorised chats, in the
/// same table or in two, whose runs are told the same outcomes are sent the
/// same pictures, byte for byte, whatever their credentials are.
pub proof fn same_replies_same_picture(
    store_a: Map<i64, LoginCredentials>,
    chat_a: i64,
    store_b: Map<i64, LoginCredentials>,
    chat_b: i64,
    command: Command,
    outcomes: Seq<HttpOutcomeView>,
)
    requires
        store_a.contains_key(chat_a),
        store_b.contains_key(chat_b),
        token_request_of(store_a[chat_a]@) is Ok,
        token_request_of(store_b[chat_b]@) is Ok,
    ensures
        pictures(trace(store_a, chat_a, command, outcomes).1) == pictures(
            trace(store_b, chat_b, command, outcomes).1,
        ),
{
    let start_a = Session { chat_id: chat_a, stage: Stage::AwaitingToken };
    let start_b = Session { chat_id: chat_b, stage: Stage::AwaitingToken };
    lemma_runs_agree(start_a, start_b, outcomes);
    lemma_opening_has_no_picture(store_a, chat_a, command);
    lemma_opening_has_no_picture(store_b, chat_b, command);
    lemma_pictures_concat(opening(store_a, chat_a, command).1, run(start_a, outcomes).1);
    lemma_pictures_concat(opening(store_b, chat_b, command).1, run(start_b, outcomes).1);
    assert(pictures(opening(store_a, chat_a, command).1) =~= Seq::<Seq<u8>>::empty());
    assert(pictures(opening(store_b, chat_b, command).1) =~= Seq::<Seq<u8>>::empty());
}

proof fn lemma_runs_agree(a: Session, b: Session, outcomes: Seq<HttpOutcomeView>)
    requires
        a.stage == b.stage,
    ensures
        run(a, outcomes).0.stage == run(b, outcomes).0.stage,
        pictures(run(a, outcomes).1) == pictures(run(b, outcomes).1),
    decreases outcomes.len(),
{
    if outcomes.len() > 0 {
        let first_a = step(a, outcomes[0]);
        let first_b = step(b, outcomes[0]);
        lemma_runs_agree(first_a.0, first_b.0, outcomes.drop_first());
        lemma_pictures_concat(first_a.1, run(first_a.0, outcomes.drop_first()).1);
        lemma_pictures_concat(first_b.1, run(first_b.0, outcomes.drop_first()).1);
        reveal_with_fuel(pictures, 2);
        if first_a.1.len() == 1 {
            assert(first_a.1.drop_first() =~= Seq::<ActionView>::empty());
            assert(first_b.1.drop_first() =~= Seq::<ActionView>::empty());
        }
        assert(pictures(first_a.1) =~= pictures(first_b.1));
    }
}

} // verus!
