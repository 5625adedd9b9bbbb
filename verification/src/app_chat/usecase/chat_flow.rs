use vstd::prelude::*;

use crate::app_chat::domain::chat_conversation::Conversation;
use crate::app_chat::domain::chat_message::Message;
use crate::app_chat::usecase::types::{CreateChatResponse, GetConversationMessages, GetConversations};
use crate::document_parser::infrastructure::vector_storage::qdrant_upsert::QdrantPayload;
use crate::helper::builder::{
    build_context, build_prompt_v2, context_for, context_snippet, context_snippets, law_context_within_budget,
    prompt_v2_text, PROMPT_V2_HEAD,
};
use crate::helper::text::utf8_len;
use crate::request::pagination::PaginationRequest;
use crate::response::error::{is_not_found, not_found, ResponseError};

verus! {

// ---------------------------------------------------------------------------------------
// Answering a chat message: find the conversation (or open a new one), store the user's
// message, embed the question, search the vector store, ask the model with a prompt built
// from the hits, store the answer, request a summary of the conversation, and reply. The
// caller performs each action and reports its outcome as the next event.
// ---------------------------------------------------------------------------------------

/// The vector collection that the chat searches.
pub const VECTOR_COLLECTION: &'static str = "pdf_chunks";

/// How many hits the chat asks the vector store for.
pub const VECTOR_SEARCH_LIMIT: usize = 5;

/// The byte budget of the retrieval context.
pub const CONTEXT_MAX_CHARS: usize = 5000;

/// The topic on which conversations are sent to be summarised.
pub const SUMMARY_TOPIC: &'static str = "conversation-summary";

/// A freshly drawn id and the current time (microseconds since the Unix epoch), handed in
/// by the caller for the record that the next step creates.
#[derive(Debug, Clone, Copy, PartialEq, Eq)]
pub struct Fresh {
    pub id: u128,
    pub now: i64,
}

/// Who asks and what.
#[derive(Debug, Clone, PartialEq, Eq)]
pub struct ChatInput {
    pub user_id: u128,
    pub message: String,
}

/// Where the answering of a chat message stands.
#[derive(Debug, PartialEq, Eq)]
pub enum ChatStage {
    /// Waiting for the lookup of the conversation the message names.
    AwaitConversation { input: ChatInput },
    /// Waiting for the new conversation to be stored.
    AwaitNewConversation { input: ChatInput },
    AwaitUserMessage { input: ChatInput, conversation: Conversation },
    AwaitEmbedding { input: ChatInput, conversation: Conversation },
    AwaitHits { input: ChatInput, conversation: Conversation },
    AwaitAnswer { conversation: Conversation },
    AwaitAssistantMessage { conversation: Conversation, answer: String },
    AwaitSummaryRequest { conversation_id: u128, answer: String },
    Finished,
}

/// What the caller reports back.
#[derive(Debug)]
pub enum ChatEvent {
    /// The lookup of the given conversation of the user.
    ConversationFound(Result<Option<Conversation>, ()>, Fresh),
    /// The storing of the new conversation; gives back the stored conversation.
    ConversationCreated(Result<Conversation, ()>, Fresh),
    UserMessageStored(Result<(), ()>),
    /// Whether the question could be embedded; the vector itself stays with the caller.
    QuestionEmbedded(Result<(), ()>),
    /// The hits of the vector search, best first, each with its score written with three
    /// decimals.
    HitsFound(Result<Vec<(QdrantPayload, String)>, ()>),
    /// The model's answer.
    Answered(Result<String, ()>, Fresh),
    AssistantMessageStored(Result<(), ()>),
    /// Whether the conversation could be written out for the summary request (sending it is
    /// best effort and does not fail the chat).
    SummaryRequested(Result<(), ()>),
}

/// What the caller is asked to do next.
#[derive(Debug, PartialEq, Eq)]
pub enum ChatAction {
    FindConversation { user_id: u128, id: u128 },
    CreateConversation(Conversation),
    StoreMessage(Message),
    EmbedQuestion(String),
    /// Search the collection with the question's vector, for the user's documents.
    SearchHits { collection: String, limit: usize, user_id: u128 },
    AskLlm(String),
    RequestSummary { topic: String, conversation: Conversation },
    Reply(Result<CreateChatResponse, ResponseError>),
}

/// The conversation a chat opens when none is given: titled and summarised by the message.
pub open spec fn is_new_conversation(c: Conversation, input: ChatInput, f: Fresh) -> bool {
    &&& c.id == f.id
    &&& c.user_id == input.user_id
    &&& c.title matches Some(t) && t@ == input.message@
    &&& c.summary matches Some(s) && s@ == input.message@
    &&& c.created_at == f.now
    &&& c.updated_at == f.now
}

/// A message of the conversation with the given role and content.
pub open spec fn is_message(m: Message, c: Conversation, role: Seq<char>, content: Seq<char>, f: Fresh) -> bool {
    &&& m.id == f.id
    &&& m.conversation_id == c.id
    &&& m.role@ == role
    &&& m.content@ == content
    &&& m.created_at == f.now
}

/// The prompt the model is asked with: the strict prompt, with the context built from the
/// hits within the byte budget and the user's message as the question.
pub open spec fn chat_prompt(hits: Seq<(QdrantPayload, String)>, message: Seq<char>) -> Seq<char> {
    prompt_v2_text(context_for(hits, CONTEXT_MAX_CHARS as nat), message)
}

/// The reply with the given error that ends the chat.
pub open spec fn ends_with(next: ChatStage, action: ChatAction, e: ResponseError) -> bool {
    next is Finished && action == ChatAction::Reply(Err(e))
}

/// One step of answering a chat message: the stage and the event determine the next stage
/// and the action as described here.
pub open spec fn chat_transition(stage: ChatStage, event: ChatEvent, next: ChatStage, action: ChatAction) -> bool {
    match stage {
        ChatStage::AwaitConversation { input } => match event {
            ChatEvent::ConversationFound(Err(_), _) => ends_with(next, action, ResponseError::DatabaseError),
            ChatEvent::ConversationFound(Ok(None), _) => {
                &&& next is Finished
                &&& action matches ChatAction::Reply(Err(e)) && is_not_found(e, "data not found"@)
            },
            ChatEvent::ConversationFound(Ok(Some(c)), f) => {
                &&& next == (ChatStage::AwaitUserMessage { input, conversation: c })
                &&& action matches ChatAction::StoreMessage(m) && is_message(m, c, "user"@, input.message@, f)
            },
            _ => ends_with(next, action, ResponseError::InternalServerError),
        },
        ChatStage::AwaitNewConversation { input } => match event {
            ChatEvent::ConversationCreated(Err(_), _) => ends_with(next, action, ResponseError::DatabaseError),
            ChatEvent::ConversationCreated(Ok(c), f) => {
                &&& next == (ChatStage::AwaitUserMessage { input, conversation: c })
                &&& action matches ChatAction::StoreMessage(m) && is_message(m, c, "user"@, input.message@, f)
            },
            _ => ends_with(next, action, ResponseError::InternalServerError),
        },
        ChatStage::AwaitUserMessage { input, conversation } => match event {
            ChatEvent::UserMessageStored(Err(_)) => ends_with(next, action, ResponseError::DatabaseError),
            ChatEvent::UserMessageStored(Ok(_)) => {
                &&& next == (ChatStage::AwaitEmbedding { input, conversation })
                &&& action matches ChatAction::EmbedQuestion(q) && q@ == input.message@
            },
            _ => ends_with(next, action, ResponseError::InternalServerError),
        },
        ChatStage::AwaitEmbedding { input, conversation } => match event {
            ChatEvent::QuestionEmbedded(Err(_)) => ends_with(next, action, ResponseError::InternalServerError),
            ChatEvent::QuestionEmbedded(Ok(_)) => {
                &&& next == (ChatStage::AwaitHits { input, conversation })
                &&& action matches ChatAction::SearchHits { collection, limit, user_id }
                    && collection@ == VECTOR_COLLECTION@ && limit == VECTOR_SEARCH_LIMIT
                    && user_id == input.user_id
            },
            _ => ends_with(next, action, ResponseError::InternalServerError),
        },
        ChatStage::AwaitHits { input, conversation } => match event {
            ChatEvent::HitsFound(Err(_)) => ends_with(next, action, ResponseError::InternalServerError),
            ChatEvent::HitsFound(Ok(hits)) => {
                &&& next == (ChatStage::AwaitAnswer { conversation })
                &&& action matches ChatAction::AskLlm(p) && p@ == chat_prompt(hits@, input.message@)
            },
            _ => ends_with(next, action, ResponseError::InternalServerError),
        },
        ChatStage::AwaitAnswer { conversation } => match event {
            ChatEvent::Answered(Err(_), _) => ends_with(next, action, ResponseError::InternalServerError),
            ChatEvent::Answered(Ok(a), f) => {
                &&& next == (ChatStage::AwaitAssistantMessage { conversation, answer: a })
                &&& action matches ChatAction::StoreMessage(m)
                    && is_message(m, conversation, "assistant"@, a@, f)
            },
            _ => ends_with(next, action, ResponseError::InternalServerError),
        },
        ChatStage::AwaitAssistantMessage { conversation, answer } => match event {
            ChatEvent::AssistantMessageStored(Err(_)) => ends_with(next, action, ResponseError::DatabaseError),
            ChatEvent::AssistantMessageStored(Ok(_)) => {
                &&& next == (ChatStage::AwaitSummaryRequest { conversation_id: conversation.id, answer })
                &&& action matches ChatAction::RequestSummary { topic, conversation: c }
                    && topic@ == SUMMARY_TOPIC@ && c == conversation
            },
            _ => ends_with(next, action, ResponseError::InternalServerError),
        },
        ChatStage::AwaitSummaryRequest { conversation_id, answer } => match event {
            ChatEvent::SummaryRequested(Err(_)) => ends_with(next, action, ResponseError::InternalServerError),
            ChatEvent::SummaryRequested(Ok(_)) => {
                &&& next is Finished
                &&& action == ChatAction::Reply(Ok(CreateChatResponse { conversation_id, answer }))
            },
            _ => ends_with(next, action, ResponseError::InternalServerError),
        },
        ChatStage::Finished => ends_with(next, action, ResponseError::InternalServerError),
    }
}

/// Starts answering `message` of the user: look the given conversation up, or open a new
/// one titled and summarised by the message.
pub fn chat_start(user_id: u128, conversation_id: Option<u128>, message: &str, fresh: Fresh) -> (r: (
    ChatStage,
    ChatAction,
))
    ensures
        match conversation_id {
            Some(id) => {
                &&& r.0 matches ChatStage::AwaitConversation { input } && input.user_id == user_id
                    && input.message@ == message@
                &&& r.1 == ChatAction::FindConversation { user_id, id }
            },
            None => {
                &&& r.0 matches ChatStage::AwaitNewConversation { input } && input.user_id == user_id
                    && input.message@ == message@ && (r.1 matches ChatAction::CreateConversation(c)
                    && is_new_conversation(c, input, fresh))
            },
        },
{
    let input = ChatInput { user_id, message: String::from_str(message) };
    match conversation_id {
        Some(id) => (ChatStage::AwaitConversation { input }, ChatAction::FindConversation { user_id, id }),
        None => (
            ChatStage::AwaitNewConversation { input },
            ChatAction::CreateConversation(
                Conversation {
                    id: fresh.id,
                    user_id,
                    title: Some(String::from_str(message)),
                    summary: Some(String::from_str(message)),
                    created_at: fresh.now,
                    updated_at: fresh.now,
                },
            ),
        ),
    }
}

fn new_message(conversation_id: u128, role: &str, content: &str, fresh: Fresh) -> (m: Message)
    ensures
        m.id == fresh.id,
        m.conversation_id == conversation_id,
        m.role@ == role@,
        m.content@ == content@,
        m.created_at == fresh.now,
{
    Message {
        id: fresh.id,
        conversation_id,
        role: String::from_str(role),
        content: String::from_str(content),
        created_at: fresh.now,
    }
}

/// Takes the answering of a chat message one step further with the outcome of the last
/// action. Store failures are database errors; failures to embed, search, ask the model or
/// write out the summary request are internal errors; an unknown conversation is "data not
/// found"; an event that the stage does not wait for ends the chat with an internal error.
pub fn chat_step(stage: ChatStage, event: ChatEvent) -> (r: (ChatStage, ChatAction))
    ensures
        chat_transition(stage, event, r.0, r.1),
{
    match stage {
        ChatStage::AwaitConversation { input } => {
            let found = match event {
                ChatEvent::ConversationFound(Err(_), _) => {
                    return (ChatStage::Finished, ChatAction::Reply(Err(ResponseError::DatabaseError)));
                },
                ChatEvent::ConversationFound(Ok(None), _) => {
                    return (ChatStage::Finished, ChatAction::Reply(Err(not_found("data not found"))));
                },
                ChatEvent::ConversationFound(Ok(Some(c)), f) => (c, f),
                _ => {
                    return (ChatStage::Finished, ChatAction::Reply(Err(ResponseError::InternalServerError)));
                },
            };
            let (conversation, fresh) = found;
            let m = new_message(conversation.id, "user", input.message.as_str(), fresh);
            (ChatStage::AwaitUserMessage { input, conversation }, ChatAction::StoreMessage(m))
        },
        ChatStage::AwaitNewConversation { input } => {
            let created = match event {
                ChatEvent::ConversationCreated(Err(_), _) => {
                    return (ChatStage::Finished, ChatAction::Reply(Err(ResponseError::DatabaseError)));
                },
                ChatEvent::ConversationCreated(Ok(c), f) => (c, f),
                _ => {
                    return (ChatStage::Finished, ChatAction::Reply(Err(ResponseError::InternalServerError)));
                },
            };
            let (conversation, fresh) = created;
            let m = new_message(conversation.id, "user", input.message.as_str(), fresh);
            (ChatStage::AwaitUserMessage { input, conversation }, ChatAction::StoreMessage(m))
        },
        ChatStage::AwaitUserMessage { input, conversation } => match event {
            ChatEvent::UserMessageStored(Err(_)) => (
                ChatStage::Finished,
                ChatAction::Reply(Err(ResponseError::DatabaseError)),
            ),
            ChatEvent::UserMessageStored(Ok(_)) => {
                let q = input.message.clone();
                (ChatStage::AwaitEmbedding { input, conversation }, ChatAction::EmbedQuestion(q))
            },
            _ => {
                (ChatStage::Finished, ChatAction::Reply(Err(ResponseError::InternalServerError)))
            },
        },
        ChatStage::AwaitEmbedding { input, conversation } => match event {
            ChatEvent::QuestionEmbedded(Err(_)) => (
                ChatStage::Finished,
                ChatAction::Reply(Err(ResponseError::InternalServerError)),
            ),
            ChatEvent::QuestionEmbedded(Ok(_)) => {
                let user_id = input.user_id;
                (
                    ChatStage::AwaitHits { input, conversation },
                    ChatAction::SearchHits {
                        collection: String::from_str(VECTOR_COLLECTION),
                        limit: VECTOR_SEARCH_LIMIT,
                        user_id,
                    },
                )
            },
            _ => {
                (ChatStage::Finished, ChatAction::Reply(Err(ResponseError::InternalServerError)))
            },
        },
        ChatStage::AwaitHits { input, conversation } => match event {
            ChatEvent::HitsFound(Err(_)) => (
                ChatStage::Finished,
                ChatAction::Reply(Err(ResponseError::InternalServerError)),
            ),
            ChatEvent::HitsFound(Ok(hits)) => {
                let context = build_context(hits.as_slice(), CONTEXT_MAX_CHARS);
                let prompt = build_prompt_v2(context.as_str(), input.message.as_str());
                (ChatStage::AwaitAnswer { conversation }, ChatAction::AskLlm(prompt))
            },
            _ => {
                (ChatStage::Finished, ChatAction::Reply(Err(ResponseError::InternalServerError)))
            },
        },
        ChatStage::AwaitAnswer { conversation } => match event {
            ChatEvent::Answered(Err(_), _) => (
                ChatStage::Finished,
                ChatAction::Reply(Err(ResponseError::InternalServerError)),
            ),
            ChatEvent::Answered(Ok(answer), fresh) => {
                let m = new_message(conversation.id, "assistant", answer.as_str(), fresh);
                (ChatStage::AwaitAssistantMessage { conversation, answer }, ChatAction::StoreMessage(m))
            },
            _ => {
                (ChatStage::Finished, ChatAction::Reply(Err(ResponseError::InternalServerError)))
            },
        },
        ChatStage::AwaitAssistantMessage { conversation, answer } => match event {
            ChatEvent::AssistantMessageStored(Err(_)) => (
                ChatStage::Finished,
                ChatAction::Reply(Err(ResponseError::DatabaseError)),
            ),
            ChatEvent::AssistantMessageStored(Ok(_)) => {
                let conversation_id = conversation.id;
                (
                    ChatStage::AwaitSummaryRequest { conversation_id, answer },
                    ChatAction::RequestSummary { topic: String::from_str(SUMMARY_TOPIC), conversation },
                )
            },
            _ => {
                (ChatStage::Finished, ChatAction::Reply(Err(ResponseError::InternalServerError)))
            },
        },
        ChatStage::AwaitSummaryRequest { conversation_id, answer } => match event {
            ChatEvent::SummaryRequested(Err(_)) => (
                ChatStage::Finished,
                ChatAction::Reply(Err(ResponseError::InternalServerError)),
            ),
            ChatEvent::SummaryRequested(Ok(_)) => (
                ChatStage::Finished,
                ChatAction::Reply(Ok(CreateChatResponse { conversation_id, answer })),
            ),
            _ => {
                (ChatStage::Finished, ChatAction::Reply(Err(ResponseError::InternalServerError)))
            },
        },
        ChatStage::Finished => {
            (ChatStage::Finished, ChatAction::Reply(Err(ResponseError::InternalServerError)))
        },
    }
}

/// How far a chat has come, counting the steps taken.
pub open spec fn chat_rank(stage: ChatStage) -> int {
    match stage {
        ChatStage::AwaitConversation { .. } => 0,
        ChatStage::AwaitNewConversation { .. } => 0,
        ChatStage::AwaitUserMessage { .. } => 1,
        ChatStage::AwaitEmbedding { .. } => 2,
        ChatStage::AwaitHits { .. } => 3,
        ChatStage::AwaitAnswer { .. } => 4,
        ChatStage::AwaitAssistantMessage { .. } => 5,
        ChatStage::AwaitSummaryRequest { .. } => 6,
        ChatStage::Finished => 7,
    }
}

/// A run of the chat: `stages[i]` and `events[i]` lead to `stages[i + 1]` and `actions[i]`.
pub open spec fn chat_run(stages: Seq<ChatStage>, events: Seq<ChatEvent>, actions: Seq<ChatAction>) -> bool {
    &&& stages.len() == events.len() + 1
    &&& actions.len() == events.len()
    &&& forall|i: int|
        #![trigger events[i]]
        0 <= i < events.len() ==> chat_transition(stages[i], events[i], stages[i + 1], actions[i])
}

/// Every step either ends the chat with a reply or moves it one stage on without replying.
pub proof fn lemma_chat_transition_advances(stage: ChatStage, event: ChatEvent, next: ChatStage, action: ChatAction)
    requires
        chat_transition(stage, event, next, action),
    ensures
        action is Reply <==> next is Finished,
        !(next is Finished) ==> chat_rank(next) == chat_rank(stage) + 1,
        action matches ChatAction::Reply(Ok(_)) ==> stage is AwaitSummaryRequest,
{
}

/// Once a run has finished, it stays finished.
proof fn lemma_chat_finished_stays(
    stages: Seq<ChatStage>,
    events: Seq<ChatEvent>,
    actions: Seq<ChatAction>,
    k: int,
    j: int,
)
    requires
        chat_run(stages, events, actions),
        0 <= k <= j <= events.len(),
        stages[k] is Finished,
    ensures
        stages[j] is Finished,
    decreases j - k,
{
    if k < j {
        assert(chat_transition(stages[k], events[k], stages[k + 1], actions[k]));
        lemma_chat_finished_stays(stages, events, actions, k + 1, j);
    }
}

/// In a run whose stages before the last are all unfinished, the `i`-th stage is `i` steps in.
proof fn lemma_chat_run_ranks(stages: Seq<ChatStage>, events: Seq<ChatEvent>, actions: Seq<ChatAction>, i: int)
    requires
        chat_run(stages, events, actions),
        chat_rank(stages[0]) == 0,
        0 <= i < events.len(),
        forall|k: int| 0 <= k < events.len() - 1 ==> !(#[trigger] stages[k + 1] is Finished),
    ensures
        chat_rank(stages[i]) == i,
    decreases i,
{
    if i > 0 {
        lemma_chat_run_ranks(stages, events, actions, i - 1);
        assert(chat_transition(stages[i - 1], events[i - 1], stages[i], actions[i - 1]));
        lemma_chat_transition_advances(stages[i - 1], events[i - 1], stages[i], actions[i - 1]);
    }
}

/// Law: a chat that is answered with success went through every step in order: it stored the
/// user's message in the conversation, asked the model with the prompt built from the hits
/// of the search and the message, stored the model's answer in the same conversation,
/// requested a summary of that conversation, and replies with the model's answer and the
/// conversation's id.
pub proof fn law_chat_reply_follows_the_model(
    stages: Seq<ChatStage>,
    events: Seq<ChatEvent>,
    actions: Seq<ChatAction>,
    input: ChatInput,
    resp: CreateChatResponse,
)
    requires
        chat_run(stages, events, actions),
        stages[0] == (ChatStage::AwaitConversation { input }) || stages[0] == (
            ChatStage::AwaitNewConversation { input }
        ),
        events.len() > 0,
        actions.last() == ChatAction::Reply(Ok(resp)),
    ensures
        events.len() == 7,
        actions[0] matches ChatAction::StoreMessage(m) && m.role@ == "user"@ && m.content@
            == input.message@ && m.conversation_id == resp.conversation_id,
        events[3] matches ChatEvent::HitsFound(Ok(hits)) && actions[3] matches ChatAction::AskLlm(p)
            && p@ == chat_prompt(hits@, input.message@),
        events[4] matches ChatEvent::Answered(Ok(a), _) && a == resp.answer,
        actions[4] matches ChatAction::StoreMessage(m) && m.role@ == "assistant"@ && m.content@
            == resp.answer@ && m.conversation_id == resp.conversation_id,
        actions[5] matches ChatAction::RequestSummary { conversation: c, .. } && c.id
            == resp.conversation_id,
{
    let n = events.len() as int;
    assert(chat_transition(stages[n - 1], events[n - 1], stages[n], actions[n - 1]));
    lemma_chat_transition_advances(stages[n - 1], events[n - 1], stages[n], actions[n - 1]);
    assert forall|i: int| 0 <= i < n - 1 implies !(#[trigger] stages[i + 1] is Finished) by {
        if stages[i + 1] is Finished {
            lemma_chat_finished_stays(stages, events, actions, i + 1, n - 1);
        }
    }
    assert(chat_rank(stages[n - 1]) == n - 1) by {
        lemma_chat_run_ranks(stages, events, actions, n - 1);
    }
    assert(n == 7);
    assert(chat_transition(stages[0], events[0], stages[1], actions[0]));
    assert(chat_transition(stages[1], events[1], stages[2], actions[1]));
    assert(chat_transition(stages[2], events[2], stages[3], actions[2]));
    assert(chat_transition(stages[3], events[3], stages[4], actions[3]));
    assert(chat_transition(stages[4], events[4], stages[5], actions[4]));
    assert(chat_transition(stages[5], events[5], stages[6], actions[5]));
    assert(chat_transition(stages[6], events[6], stages[7], actions[6]));
}

/// Law: the model is asked with the strict prompt over the context built from the hits
/// within the full budget of 5000 bytes; whenever the best hit's block fits in 5000 bytes,
/// the prompt's document section starts with that block.
pub proof fn law_chat_prompt_holds_best_hit(
    input: ChatInput,
    conversation: Conversation,
    hits: Vec<(QdrantPayload, String)>,
    next: ChatStage,
    action: ChatAction,
)
    requires
        chat_transition(
            ChatStage::AwaitHits { input, conversation },
            ChatEvent::HitsFound(Ok(hits)),
            next,
            action,
        ),
    ensures
        action matches ChatAction::AskLlm(p) && p@ == prompt_v2_text(context_for(hits@, 5000), input.message@),
        (hits@.len() > 0 && utf8_len(context_snippet(hits@[0].0, hits@[0].1@)) <= 5000) ==> (
        action matches ChatAction::AskLlm(p) && p@.subrange(
            PROMPT_V2_HEAD@.len() as int,
            (PROMPT_V2_HEAD@.len() + context_snippet(hits@[0].0, hits@[0].1@).len()) as int,
        ) == context_snippet(hits@[0].0, hits@[0].1@)),
{
    let k = law_context_within_budget(hits@, 5000);
    let ss = context_snippets(hits@);
    let ctx = context_for(hits@, 5000);
    if hits@.len() > 0 && utf8_len(context_snippet(hits@[0].0, hits@[0].1@)) <= 5000 {
        let s0 = context_snippet(hits@[0].0, hits@[0].1@);
        assert(ss[0] == s0);
        if k == 0 {
            assert(ss.take(0) =~= Seq::<Seq<char>>::empty());
            assert(ctx =~= Seq::<char>::empty());
            assert(vstd::utf8::encode_utf8(Seq::<char>::empty()) =~= Seq::<u8>::empty());
            assert(false);
        }
        let t = ss.take(k as int);
        assert(t.first() == s0);
        assert(t.flatten() == s0 + t.drop_first().flatten());
        if let ChatAction::AskLlm(p) = action {
            let head = PROMPT_V2_HEAD@;
            assert(p@ == head + (s0 + t.drop_first().flatten()) + crate::helper::builder::PROMPT_V2_AFTER_CONTEXT@
                + input.message@ + crate::helper::builder::PROMPT_V2_TAIL@);
            assert(p@.subrange(head.len() as int, (head.len() + s0.len()) as int) =~= s0);
        }
    }
}

// ---------------------------------------------------------------------------------------
// Listing a user's conversations: count them, then fetch the requested page.
// ---------------------------------------------------------------------------------------

/// Where the listing of conversations stands.
#[derive(Debug, PartialEq, Eq)]
pub enum ChatsStage {
    AwaitCount { user_id: u128, page: PaginationRequest },
    AwaitConversations { total: i64 },
    Finished,
}

/// What the caller reports back.
#[derive(Debug)]
pub enum ChatsEvent {
    Counted(Result<i64, ()>),
    ConversationsFound(Result<Vec<Conversation>, ()>),
}

/// What the caller is asked to do next.
#[derive(Debug, PartialEq, Eq)]
pub enum ChatsAction {
    CountConversations(u128),
    /// Fetch this page of the user's conversations.
    FindConversations { user_id: u128, page: PaginationRequest },
    Reply(Result<GetConversations, ResponseError>),
}

/// One step of listing conversations.
pub open spec fn chats_next(stage: ChatsStage, event: ChatsEvent) -> (ChatsStage, ChatsAction) {
    match (stage, event) {
        (ChatsStage::AwaitCount { user_id, page }, ChatsEvent::Counted(Ok(total))) => (
            ChatsStage::AwaitConversations { total },
            ChatsAction::FindConversations { user_id, page },
        ),
        (ChatsStage::AwaitConversations { total }, ChatsEvent::ConversationsFound(Ok(data))) => (
            ChatsStage::Finished,
            ChatsAction::Reply(Ok(GetConversations { data, total_data: total })),
        ),
        _ => (ChatsStage::Finished, ChatsAction::Reply(Err(ResponseError::DatabaseError))),
    }
}

/// Starts listing the user's conversations, the page `page` of them: count them first.
pub fn chats_start(user_id: u128, page: PaginationRequest) -> (r: (ChatsStage, ChatsAction))
    ensures
        r == (ChatsStage::AwaitCount { user_id, page }, ChatsAction::CountConversations(user_id)),
{
    (ChatsStage::AwaitCount { user_id, page }, ChatsAction::CountConversations(user_id))
}

/// Takes the listing one step further: a store failure (or an event that the stage does not
/// wait for) is a database error; otherwise the answer is the page with the total count.
pub fn chats_step(stage: ChatsStage, event: ChatsEvent) -> (r: (ChatsStage, ChatsAction))
    ensures
        r == chats_next(stage, event),
{
    match (stage, event) {
        (ChatsStage::AwaitCount { user_id, page }, ChatsEvent::Counted(Ok(total))) => (
            ChatsStage::AwaitConversations { total },
            ChatsAction::FindConversations { user_id, page },
        ),
        (ChatsStage::AwaitConversations { total }, ChatsEvent::ConversationsFound(Ok(data))) => (
            ChatsStage::Finished,
            ChatsAction::Reply(Ok(GetConversations { data, total_data: total })),
        ),
        _ => (ChatsStage::Finished, ChatsAction::Reply(Err(ResponseError::DatabaseError))),
    }
}

/// Law: a listing that counted `n` conversations answers the fetched page with the total
/// `n`, whatever the page holds, and asks the store for the page it was started with.
pub proof fn law_chats_total_is_the_count(
    user_id: u128,
    page: PaginationRequest,
    n: i64,
    data: Vec<Conversation>,
)
    ensures
        chats_next(ChatsStage::AwaitCount { user_id, page }, ChatsEvent::Counted(Ok(n))).1
            == (ChatsAction::FindConversations { user_id, page }),
        chats_next(
            chats_next(ChatsStage::AwaitCount { user_id, page }, ChatsEvent::Counted(Ok(n))).0,
            ChatsEvent::ConversationsFound(Ok(data)),
        ).1 matches ChatsAction::Reply(Ok(g)) && g.total_data == n && g.data@ == data@,
{
}

// ---------------------------------------------------------------------------------------
// Listing a conversation's messages: check that the conversation is the user's, count its
// messages, fetch the requested page (newest first) and answer it oldest first.
// ---------------------------------------------------------------------------------------

/// Where the listing of messages stands.
#[derive(Debug, PartialEq, Eq)]
pub enum MessagesStage {
    AwaitConversation { page: PaginationRequest },
    AwaitCount { conversation_id: u128, page: PaginationRequest },
    AwaitMessages { total: i64 },
    Finished,
}

/// What the caller reports back.
#[derive(Debug)]
pub enum MessagesEvent {
    ConversationFound(Result<Option<Conversation>, ()>),
    Counted(Result<i64, ()>),
    MessagesFound(Result<Vec<Message>, ()>),
}

/// What the caller is asked to do next.
#[derive(Debug, PartialEq, Eq)]
pub enum MessagesAction {
    FindConversation { user_id: u128, id: u128 },
    CountMessages(u128),
    /// Fetch this page of the conversation's messages.
    FindMessages { conversation_id: u128, page: PaginationRequest },
    Reply(Result<GetConversationMessages, ResponseError>),
}

/// One step of listing messages: a store failure is a database error, a conversation that
/// is not the user's is "data not found", the page asked of the store is the page the
/// listing was started with, and the page comes back in reverse order.
pub open spec fn messages_transition(
    stage: MessagesStage,
    event: MessagesEvent,
    next: MessagesStage,
    action: MessagesAction,
) -> bool {
    match (stage, event) {
        (MessagesStage::AwaitConversation { page }, MessagesEvent::ConversationFound(Ok(Some(c)))) => {
            &&& next == (MessagesStage::AwaitCount { conversation_id: c.id, page })
            &&& action == MessagesAction::CountMessages(c.id)
        },
        (MessagesStage::AwaitConversation { .. }, MessagesEvent::ConversationFound(Ok(None))) => {
            &&& next is Finished
            &&& action matches MessagesAction::Reply(Err(e)) && is_not_found(e, "data not found"@)
        },
        (MessagesStage::AwaitCount { conversation_id, page }, MessagesEvent::Counted(Ok(total))) => {
            &&& next == (MessagesStage::AwaitMessages { total })
            &&& action == (MessagesAction::FindMessages { conversation_id, page })
        },
        (MessagesStage::AwaitMessages { total }, MessagesEvent::MessagesFound(Ok(found))) => {
            &&& next is Finished
            &&& action matches MessagesAction::Reply(Ok(page)) && page.total_data == total
                && page.data@ == found@.reverse()
        },
        _ => {
            &&& next is Finished
            &&& action == MessagesAction::Reply(Err(ResponseError::DatabaseError))
        },
    }
}

/// Starts listing the page `page` of the messages of the user's conversation `id`.
pub fn messages_start(user_id: u128, id: u128, page: PaginationRequest) -> (r: (MessagesStage, MessagesAction))
    ensures
        r == (MessagesStage::AwaitConversation { page }, MessagesAction::FindConversation { user_id, id }),
{
    (MessagesStage::AwaitConversation { page }, MessagesAction::FindConversation { user_id, id })
}

/// The items of `v` in reverse order.
pub fn reversed<T>(v: Vec<T>) -> (r: Vec<T>)
    ensures
        r@ == v@.reverse(),
{
    let mut v = v;
    let ghost orig = v@;
    let mut r: Vec<T> = Vec::new();
    while v.len() > 0
        invariant
            v@ == orig.take(v@.len() as int),
            r@ == orig.skip(v@.len() as int).reverse(),
            v@.len() <= orig.len(),
        decreases v@.len(),
    {
        let x = v.pop().unwrap();
        r.push(x);
        assert(v@ =~= orig.take(v@.len() as int));
        assert(r@ =~= orig.skip(v@.len() as int).reverse());
    }
    assert(orig.skip(0) =~= orig);
    r
}

/// Takes the listing of messages one step further; an event that the stage does not wait for
/// is answered as a database error.
pub fn messages_step(stage: MessagesStage, event: MessagesEvent) -> (r: (MessagesStage, MessagesAction))
    ensures
        messages_transition(stage, event, r.0, r.1),
{
    match (stage, event) {
        (MessagesStage::AwaitConversation { page }, MessagesEvent::ConversationFound(Ok(Some(c)))) => (
            MessagesStage::AwaitCount { conversation_id: c.id, page },
            MessagesAction::CountMessages(c.id),
        ),
        (MessagesStage::AwaitConversation { .. }, MessagesEvent::ConversationFound(Ok(None))) => (
            MessagesStage::Finished,
            MessagesAction::Reply(Err(not_found("data not found"))),
        ),
        (MessagesStage::AwaitCount { conversation_id, page }, MessagesEvent::Counted(Ok(total))) => (
            MessagesStage::AwaitMessages { total },
            MessagesAction::FindMessages { conversation_id, page },
        ),
        (MessagesStage::AwaitMessages { total }, MessagesEvent::MessagesFound(Ok(found))) => (
            MessagesStage::Finished,
            MessagesAction::Reply(Ok(GetConversationMessages { data: reversed(found), total_data: total })),
        ),
        _ => (MessagesStage::Finished, MessagesAction::Reply(Err(ResponseError::DatabaseError))),
    }
}

/// Law: a listing of messages of the user's conversation `c` that counted `n` messages asks
/// the store for the page it was started with and answers the fetched page oldest first with
/// the total `n`, whatever the page holds.
pub proof fn law_messages_total_is_the_count(
    page: PaginationRequest,
    c: Conversation,
    n: i64,
    found: Vec<Message>,
    s1: MessagesStage,
    a1: MessagesAction,
    s2: MessagesStage,
    a2: MessagesAction,
    s3: MessagesStage,
    a3: MessagesAction,
)
    requires
        messages_transition(MessagesStage::AwaitConversation { page }, MessagesEvent::ConversationFound(Ok(Some(c))), s1, a1),
        messages_transition(s1, MessagesEvent::Counted(Ok(n)), s2, a2),
        messages_transition(s2, MessagesEvent::MessagesFound(Ok(found)), s3, a3),
    ensures
        a2 == (MessagesAction::FindMessages { conversation_id: c.id, page }),
        a3 matches MessagesAction::Reply(Ok(p)) && p.total_data == n && p.data@ == found@.reverse(),
{
}

} // verus!
