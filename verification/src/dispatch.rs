//! The dispatch engine: for one fetched batch of inbound messages it plans,
//! message by message and oldest first, the feedback submission, the
//! acknowledgement reply, the chat relay and the log publish, and computes
//! the cursor value to persist. The caller executes the planned actions.

use vstd::prelude::*;
use vstd::string::*;

use crate::feedback::{Feedback, FeedbackModel};
use crate::message::{classify, spec_category, spec_payload, spec_reference, Category};
use crate::text::str_eq;
use crate::trusted::{html_to_text, plain_text_of};

verus! {

/// One notification fetched from the source, already decoded to plain
/// values.
#[derive(Debug)]
pub struct InboundMessage {
    pub id: String,
    pub content: String,
    pub created_at: String,
    pub username: String,
    pub nickname: String,
}

/// The mathematical model of an inbound message.
pub struct MessageModel {
    pub id: Seq<char>,
    pub content: Seq<char>,
    pub created_at: Seq<char>,
    pub username: Seq<char>,
    pub nickname: Seq<char>,
}

impl View for InboundMessage {
    type V = MessageModel;

    open spec fn view(&self) -> MessageModel {
        MessageModel {
            id: self.id@,
            content: self.content@,
            created_at: self.created_at@,
            username: self.username@,
            nickname: self.nickname@,
        }
    }
}

impl DeepView for InboundMessage {
    type V = MessageModel;

    open spec fn deep_view(&self) -> MessageModel {
        self.view()
    }
}

/// One event for the log/search sink.
#[derive(Debug)]
pub struct LogEvent {
    pub src: String,
    pub kind: String,
    pub from: Option<String>,
    pub message: String,
}

/// The mathematical model of a log event.
pub struct LogEventModel {
    pub src: Seq<char>,
    pub kind: Seq<char>,
    pub from: Option<Seq<char>>,
    pub message: Seq<char>,
}

impl View for LogEvent {
    type V = LogEventModel;

    open spec fn view(&self) -> LogEventModel {
        LogEventModel {
            src: self.src@,
            kind: self.kind@,
            from: match self.from {
                Some(f) => Some(f@),
                None => None,
            },
            message: self.message@,
        }
    }
}

impl DeepView for LogEvent {
    type V = LogEventModel;

    open spec fn deep_view(&self) -> LogEventModel {
        self.view()
    }
}

/// One side effect the engine asks the caller to perform.
#[derive(Debug)]
pub enum Action {
    /// Submit a classified record to the feedback sink.
    SubmitFeedback(Feedback),
    /// Post an acknowledgement reply on the origin network.
    PostReply { body: String, in_reply_to: Option<String> },
    /// Relay the message to the chat sink configured for the category.
    RelayChat { category: Category, plain: String, html: String },
    /// Publish an event to the log/search sink.
    PublishLog(LogEvent),
}

/// The mathematical model of a planned action.
pub enum ActionModel {
    SubmitFeedback(FeedbackModel),
    PostReply { body: Seq<char>, in_reply_to: Option<Seq<char>> },
    RelayChat { category: Category, plain: Seq<char>, html: Seq<char> },
    PublishLog(LogEventModel),
}

impl View for Action {
    type V = ActionModel;

    open spec fn view(&self) -> ActionModel {
        match self {
            Action::SubmitFeedback(f) => ActionModel::SubmitFeedback(f@),
            Action::PostReply { body, in_reply_to } => (ActionModel::PostReply {
                body: body@,
                in_reply_to: match in_reply_to {
                    Some(i) => Some(i@),
                    None => None,
                },
            }),
            Action::RelayChat { category, plain, html } => (ActionModel::RelayChat {
                category: *category,
                plain: plain@,
                html: html@,
            }),
            Action::PublishLog(e) => ActionModel::PublishLog(e@),
        }
    }
}

impl DeepView for Action {
    type V = ActionModel;

    open spec fn deep_view(&self) -> ActionModel {
        self.view()
    }
}

/// The plan for one polling cycle: the actions to perform, in order, and
/// the cursor value to persist (`None`: nothing new, keep the old cursor).
pub struct DispatchPlan {
    pub actions: Vec<Action>,
    pub new_cursor: Option<String>,
}

/// The record category as the feedback sink names it.
pub open spec fn category_tag(c: Category) -> Seq<char> {
    match c {
        Category::Idea => "idea"@,
        Category::Question => "pregunta"@,
        Category::Comment => "comentario"@,
        Category::Mention => "mencion"@,
    }
}

/// The feedback record for one message: its category tag, the extracted
/// comment reference (the message's own identifier when none was
/// extracted), the classified payload, and the author.
pub open spec fn spec_record(m: MessageModel) -> FeedbackModel {
    FeedbackModel {
        category: category_tag(spec_category(m.content)),
        reference: match spec_reference(m.content) {
            Some(r) => r,
            None => m.id,
        },
        content: spec_payload(m.content),
        username: m.username,
        nickname: m.nickname,
        applied: 0,
        source: "Mastodon"@,
    }
}

/// The acknowledgement reply for a tagged message, addressed to the
/// author's handle.
pub open spec fn spec_reply_body(m: MessageModel) -> Seq<char> {
    "Gracias por tu "@ + category_tag(spec_category(m.content)) + " @"@ + m.nickname
}

/// The plain-text chat relay line for one message.
pub open spec fn spec_relay_plain(m: MessageModel) -> Seq<char> {
    "Src: Mastodon. From: @"@ + m.nickname + ". Content: "@ + plain_text_of(m.content)
}

/// The HTML chat relay variant for one message.
pub open spec fn spec_relay_html(m: MessageModel) -> Seq<char> {
    "<h6>Src: Mastodon</h6><ul><li>Id: "@ + m.id + "</li><li>From: @"@ + m.nickname
        + "</li><li>Content:</li></ul>"@ + m.content
}

/// The log event for one classified message.
pub open spec fn spec_log_event(m: MessageModel) -> LogEventModel {
    LogEventModel {
        src: "Mastodon"@,
        kind: category_tag(spec_category(m.content)),
        from: Some("@"@ + m.nickname),
        message: plain_text_of(m.content),
    }
}

/// The actions planned for one message, in order: feedback submission, the
/// acknowledgement reply (for tagged messages only), the chat relay, and
/// the log publish.
pub open spec fn message_actions(m: MessageModel) -> Seq<ActionModel> {
    let record = ActionModel::SubmitFeedback(spec_record(m));
    let relay = ActionModel::RelayChat {
        category: spec_category(m.content),
        plain: spec_relay_plain(m),
        html: spec_relay_html(m),
    };
    let log = ActionModel::PublishLog(spec_log_event(m));
    if spec_category(m.content) == Category::Mention {
        seq![record, relay, log]
    } else {
        let reply = ActionModel::PostReply {
            body: spec_reply_body(m),
            in_reply_to: Some(m.id),
        };
        seq![record, reply, relay, log]
    }
}

/// The actions planned for a whole batch, in the order the batch is given.
pub open spec fn batch_actions(ms: Seq<MessageModel>) -> Seq<ActionModel>
    decreases ms.len(),
{
    if ms.len() == 0 {
        Seq::empty()
    } else {
        batch_actions(ms.drop_last()) + message_actions(ms.last())
    }
}

/// The cursor update for a batch fetched newest first: the newest
/// identifier, unless the batch is empty or that identifier is empty or
/// unchanged.
pub open spec fn batch_cursor(ms: Seq<MessageModel>, last_id: Seq<char>) -> Option<Seq<char>> {
    if ms.len() == 0 {
        None
    } else {
        let newest = ms[0].id;
        if newest.len() > 0 && newest != last_id {
            Some(newest)
        } else {
            None
        }
    }
}

/// Law: a message whose body yields no comment reference gets its own
/// identifier as the record's reference; an extracted reference is taken
/// verbatim.
pub proof fn lemma_reference_fallback(m: MessageModel)
    ensures
        spec_reference(m.content) is None ==> spec_record(m).reference == m.id,
        spec_reference(m.content) is Some ==> spec_record(m).reference == spec_reference(
            m.content,
        ).unwrap(),
{
}

/// Law: an empty batch plans no actions and never updates the cursor,
/// whatever the current cursor is.
pub proof fn lemma_empty_batch_no_update(last_id: Seq<char>)
    ensures
        batch_cursor(Seq::empty(), last_id) is None,
        batch_actions(Seq::empty()) == Seq::<ActionModel>::empty(),
{
}

/// What one poll of the notification source produced, already decoded to
/// plain values by the caller.
pub enum FetchOutcome {
    /// The fetch itself failed.
    Failed,
    /// The fetch returned `raw`, but it could not be decoded into messages.
    Malformed { raw: String },
    /// The fetch returned `raw`, decoded into messages (newest first).
    Received { raw: String, messages: Vec<InboundMessage> },
}

/// The mathematical model of a fetch outcome.
pub enum FetchModel {
    Failed,
    Malformed { raw: Seq<char> },
    Received { raw: Seq<char>, messages: Seq<MessageModel> },
}

impl View for FetchOutcome {
    type V = FetchModel;

    open spec fn view(&self) -> FetchModel {
        match self {
            FetchOutcome::Failed => FetchModel::Failed,
            FetchOutcome::Malformed { raw } => FetchModel::Malformed { raw: raw@ },
            FetchOutcome::Received { raw, messages } => (FetchModel::Received {
                raw: raw@,
                messages: messages.deep_view(),
            }),
        }
    }
}

impl DeepView for FetchOutcome {
    type V = FetchModel;

    open spec fn deep_view(&self) -> FetchModel {
        self.view()
    }
}

/// The log event recording what a poll of the source returned.
pub open spec fn spec_search_event(message: Seq<char>) -> LogEventModel {
    LogEventModel { src: "Mastodon"@, kind: "search"@, from: None, message }
}

/// The actions planned for one polling cycle: the poll itself is recorded
/// in the log sink whatever happened (a failed fetch with a fixed marker),
/// and a decoded batch is planned message by message.
pub open spec fn cycle_actions(f: FetchModel) -> Seq<ActionModel> {
    match f {
        FetchModel::Failed => seq![
            ActionModel::PublishLog(spec_search_event("Something goes wrong!!"@)),
        ],
        FetchModel::Malformed { raw } => seq![ActionModel::PublishLog(spec_search_event(raw))],
        FetchModel::Received { raw, messages } => seq![
            ActionModel::PublishLog(spec_search_event(raw)),
        ] + batch_actions(messages.reverse()),
    }
}

/// The cursor update for one polling cycle: only a decoded batch can move
/// the cursor.
pub open spec fn cycle_cursor(f: FetchModel, last_id: Seq<char>) -> Option<Seq<char>> {
    match f {
        FetchModel::Received { messages, .. } => batch_cursor(messages, last_id),
        _ => None,
    }
}

/// The log event recording what a poll returned.
fn search_log(message: &str) -> (a: Action)
    ensures
        a@ == ActionModel::PublishLog(spec_search_event(message@)),
{
    Action::PublishLog(
        LogEvent {
            src: String::from_str("Mastodon"),
            kind: String::from_str("search"),
            from: None,
            message: message.to_owned(),
        },
    )
}

/// Plans one polling cycle from what the fetch produced: the log record of
/// the poll, then the per-message actions, and the cursor update. A failed
/// or malformed fetch plans no message work and no cursor update.
pub fn plan_cycle(outcome: &FetchOutcome, last_id: &str) -> (plan: DispatchPlan)
    ensures
        plan.actions.deep_view() == cycle_actions(outcome@),
        match plan.new_cursor {
            Some(c) => cycle_cursor(outcome@, last_id@) == Some(c@),
            None => cycle_cursor(outcome@, last_id@) is None,
        },
{
    match outcome {
        FetchOutcome::Failed => {
            let mut actions: Vec<Action> = Vec::new();
            actions.push(search_log("Something goes wrong!!"));
            let plan = DispatchPlan { actions, new_cursor: None };
            assert(plan.actions.deep_view() =~= cycle_actions(outcome@));
            plan
        },
        FetchOutcome::Malformed { raw } => {
            let mut actions: Vec<Action> = Vec::new();
            actions.push(search_log(raw.as_str()));
            let plan = DispatchPlan { actions, new_cursor: None };
            assert(plan.actions.deep_view() =~= cycle_actions(outcome@));
            plan
        },
        FetchOutcome::Received { raw, messages } => {
            let mut actions: Vec<Action> = Vec::new();
            actions.push(search_log(raw.as_str()));
            let mut batch = process_batch(messages, last_id);
            let ghost head = actions.deep_view();
            let ghost tail = batch.actions.deep_view();
            actions.append(&mut batch.actions);
            proof {
                assert(actions.deep_view() =~= head + tail);
                assert(actions.deep_view() =~= cycle_actions(outcome@));
            }
            DispatchPlan { actions, new_cursor: batch.new_cursor }
        },
    }
}

/// The category tag as a string.
pub fn category_tag_str(c: Category) -> (r: &'static str)
    ensures
        r@ == category_tag(c),
{
    match c {
        Category::Idea => "idea",
        Category::Question => "pregunta",
        Category::Comment => "comentario",
        Category::Mention => "mencion",
    }
}

/// Plans the actions for one message: classification, record building, the
/// acknowledgement reply for tagged messages, the chat relay and the log
/// publish.
pub fn plan_message(m: &InboundMessage) -> (acts: Vec<Action>)
    ensures
        acts.deep_view() == message_actions(m@),
{
    let c = classify(m.content.as_str());
    let plain = html_to_text(m.content.as_str());
    let tag = category_tag_str(c.category);
    let reference: String = match c.reference {
        Some(r) => r,
        None => m.id.clone(),
    };
    let record = Feedback::new(
        tag,
        reference.as_str(),
        c.payload.as_str(),
        m.username.as_str(),
        m.nickname.as_str(),
        0,
        "Mastodon",
    );
    let mut acts: Vec<Action> = Vec::new();
    acts.push(Action::SubmitFeedback(record));
    if !(c.category == Category::Mention) {
        let body = String::from_str("Gracias por tu ").concat(tag).concat(" @").concat(
            m.nickname.as_str(),
        );
        acts.push(Action::PostReply { body, in_reply_to: Some(m.id.clone()) });
    }
    let plain_line = String::from_str("Src: Mastodon. From: @")
        .concat(m.nickname.as_str())
        .concat(". Content: ")
        .concat(plain.as_str());
    let html_line = String::from_str("<h6>Src: Mastodon</h6><ul><li>Id: ")
        .concat(m.id.as_str())
        .concat("</li><li>From: @")
        .concat(m.nickname.as_str())
        .concat("</li><li>Content:</li></ul>")
        .concat(m.content.as_str());
    acts.push(Action::RelayChat { category: c.category, plain: plain_line, html: html_line });
    let event = LogEvent {
        src: String::from_str("Mastodon"),
        kind: tag.to_owned(),
        from: Some(String::from_str("@").concat(m.nickname.as_str())),
        message: plain,
    };
    acts.push(Action::PublishLog(event));
    assert(acts.deep_view() =~= message_actions(m@));
    acts
}

/// Plans a whole fetched batch: the messages are processed oldest first
/// (the source returns newest first), and the newest identifier becomes the
/// new cursor unless nothing new was seen.
pub fn process_batch(messages: &Vec<InboundMessage>, last_id: &str) -> (plan: DispatchPlan)
    ensures
        plan.actions.deep_view() == batch_actions(messages.deep_view().reverse()),
        match plan.new_cursor {
            Some(c) => batch_cursor(messages.deep_view(), last_id@) == Some(c@),
            None => batch_cursor(messages.deep_view(), last_id@) is None,
        },
{
    let ghost ms = messages.deep_view();
    let mut actions: Vec<Action> = Vec::new();
    let mut i: usize = messages.len();
    assert(ms.subrange(i as int, ms.len() as int).reverse() =~= Seq::<MessageModel>::empty());
    while i > 0
        invariant
            i <= messages.len(),
            ms == messages.deep_view(),
            ms.len() == messages.len(),
            actions.deep_view() == batch_actions(ms.subrange(i as int, ms.len() as int).reverse()),
        decreases i,
    {
        i = i - 1;
        let mut acts = plan_message(&messages[i]);
        let ghost old_actions = actions.deep_view();
        let ghost acts_view = acts.deep_view();
        actions.append(&mut acts);
        proof {
            let tail = ms.subrange(i as int + 1, ms.len() as int).reverse();
            let cur = ms.subrange(i as int, ms.len() as int).reverse();
            assert(cur =~= tail.push(ms[i as int]));
            assert(cur.drop_last() =~= tail);
            assert(batch_actions(cur) == batch_actions(tail) + message_actions(ms[i as int]));
            assert(actions.deep_view() =~= old_actions + acts_view);
        }
    }
    assert(ms.subrange(0, ms.len() as int) =~= ms);
    let new_cursor: Option<String> = if messages.len() > 0 {
        let newest = &messages[0].id;
        if !newest.as_str().is_empty() && !str_eq(newest.as_str(), last_id) {
            Some(newest.clone())
        } else {
            None
        }
    } else {
        None
    };
    DispatchPlan { actions, new_cursor }
}

} // verus!
