use rag::app_chat::domain::chat_conversation::Conversation;
use rag::app_chat::domain::chat_message::Message;
use rag::app_chat::handler::chat_adapter::{stream_pieces, STREAM_PIECE_LEN};
use rag::app_chat::handler::handler_chat::{chat_messages_page_request, chats_page_request, conversation_ids, listing_user_id};
use rag::app_chat::usecase::chat_flow::{
    chat_start, chat_step, chats_start, chats_step, messages_start, messages_step, reversed, ChatAction, ChatEvent,
    ChatStage, ChatsAction, ChatsEvent, Fresh, MessagesAction, MessagesEvent, CONTEXT_MAX_CHARS, SUMMARY_TOPIC,
    VECTOR_COLLECTION, VECTOR_SEARCH_LIMIT,
};
use rag::app_chat::usecase::types::{CreateChatResponse, GetConversationMessages, GetConversations};
use rag::document_parser::infrastructure::vector_storage::qdrant_upsert::QdrantPayload;
use rag::helper::builder::{build_context, build_prompt_v2};
use rag::request::pagination::PaginationRequest;
use rag::response::error::ResponseError;

const USER: &str = "67e55044-10b1-426f-9247-bb680e5fe0c8";
const USER_ID: u128 = 0x67e5504410b1426f9247bb680e5fe0c8;
const CONV: &str = "a1a2a3a4-b1b2-c1c2-d1d2-d3d4d5d6d7d8";
const CONV_ID: u128 = 0xa1a2a3a4b1b2c1c2d1d2d3d4d5d6d7d8;

fn conversation(id: u128) -> Conversation {
    Conversation { id, user_id: USER_ID, title: Some("t".into()), summary: None, created_at: 1, updated_at: 1 }
}

fn message(id: u128, content: &str) -> Message {
    Message { id, conversation_id: CONV_ID, role: "user".into(), content: content.into(), created_at: id as i64 }
}

fn page_one() -> PaginationRequest {
    PaginationRequest { page: Some(2), per_page: Some(15), offset: Some(15), search: Some("".into()), sort: Some("-created_at".into()) }
}

fn query(page: Option<u32>, per_page: Option<u32>, sort: Option<&str>) -> PaginationRequest {
    PaginationRequest { page, per_page, offset: None, search: None, sort: sort.map(|s| s.to_string()) }
}

#[test]
fn chat_in_existing_conversation_runs_every_step() {
    let f = |id: u128| Fresh { id, now: 1_700_000_000_000_000 };
    let (stage, action) = chat_start(USER_ID, Some(CONV_ID), "What is Rust?", f(1));
    assert_eq!(action, ChatAction::FindConversation { user_id: USER_ID, id: CONV_ID });

    let (stage, action) = chat_step(stage, ChatEvent::ConversationFound(Ok(Some(conversation(CONV_ID))), f(2)));
    let user_msg = Message {
        id: 2,
        conversation_id: CONV_ID,
        role: "user".into(),
        content: "What is Rust?".into(),
        created_at: 1_700_000_000_000_000,
    };
    assert_eq!(action, ChatAction::StoreMessage(user_msg));

    let (stage, action) = chat_step(stage, ChatEvent::UserMessageStored(Ok(())));
    assert_eq!(action, ChatAction::EmbedQuestion("What is Rust?".into()));

    let (stage, action) = chat_step(stage, ChatEvent::QuestionEmbedded(Ok(())));
    assert_eq!(
        action,
        ChatAction::SearchHits { collection: VECTOR_COLLECTION.into(), limit: VECTOR_SEARCH_LIMIT, user_id: USER_ID }
    );
    assert_eq!(VECTOR_COLLECTION, "pdf_chunks");
    assert_eq!(VECTOR_SEARCH_LIMIT, 5);

    let hits = vec![(
        QdrantPayload { text: "Rust is a language.".into(), page: 3, source: "doc.pdf".into(), index: 0 },
        "0.875".to_string(),
    )];
    let (stage, action) = chat_step(stage, ChatEvent::HitsFound(Ok(hits.clone())));
    let context = build_context(&hits, CONTEXT_MAX_CHARS);
    assert_eq!(context, "[source: doc.pdf, page: 3, score: 0.875]\nRust is a language.\n\n");
    assert_eq!(action, ChatAction::AskLlm(build_prompt_v2(&context, "What is Rust?")));

    let (stage, action) = chat_step(stage, ChatEvent::Answered(Ok("A language.".into()), f(3)));
    let answer_msg = Message {
        id: 3,
        conversation_id: CONV_ID,
        role: "assistant".into(),
        content: "A language.".into(),
        created_at: 1_700_000_000_000_000,
    };
    assert_eq!(action, ChatAction::StoreMessage(answer_msg));

    let (stage, action) = chat_step(stage, ChatEvent::AssistantMessageStored(Ok(())));
    assert_eq!(action, ChatAction::RequestSummary { topic: SUMMARY_TOPIC.into(), conversation: conversation(CONV_ID) });

    let (stage, action) = chat_step(stage, ChatEvent::SummaryRequested(Ok(())));
    assert_eq!(stage, ChatStage::Finished);
    assert_eq!(
        action,
        ChatAction::Reply(Ok(CreateChatResponse { conversation_id: CONV_ID, answer: "A language.".into() }))
    );
}

#[test]
fn chat_without_conversation_opens_one_named_by_the_message() {
    let (stage, action) = chat_start(USER_ID, None, "Hello", Fresh { id: 9, now: 50 });
    let expected = Conversation {
        id: 9,
        user_id: USER_ID,
        title: Some("Hello".into()),
        summary: Some("Hello".into()),
        created_at: 50,
        updated_at: 50,
    };
    assert_eq!(action, ChatAction::CreateConversation(expected.clone()));
    let (_, action) = chat_step(stage, ChatEvent::ConversationCreated(Ok(expected), Fresh { id: 10, now: 51 }));
    match action {
        ChatAction::StoreMessage(m) => {
            assert_eq!((m.id, m.conversation_id, m.role.as_str(), m.content.as_str(), m.created_at), (10, 9, "user", "Hello", 51));
        }
        other => panic!("unexpected action {:?}", other),
    }
}

#[test]
fn chat_failures_answer_with_errors() {
    let fresh = Fresh { id: 1, now: 1 };
    let start = || chat_start(USER_ID, Some(CONV_ID), "q", fresh).0;
    let (_, a) = chat_step(start(), ChatEvent::ConversationFound(Ok(None), fresh));
    assert_eq!(a, ChatAction::Reply(Err(ResponseError::NotFound("data not found".into()))));
    let (_, a) = chat_step(start(), ChatEvent::ConversationFound(Err(()), fresh));
    assert_eq!(a, ChatAction::Reply(Err(ResponseError::DatabaseError)));
    let (_, a) = chat_step(chat_start(USER_ID, None, "q", fresh).0, ChatEvent::ConversationCreated(Err(()), fresh));
    assert_eq!(a, ChatAction::Reply(Err(ResponseError::DatabaseError)));

    let s = chat_step(start(), ChatEvent::ConversationFound(Ok(Some(conversation(CONV_ID))), fresh)).0;
    let (_, a) = chat_step(s, ChatEvent::UserMessageStored(Err(())));
    assert_eq!(a, ChatAction::Reply(Err(ResponseError::DatabaseError)));

    let s = chat_step(start(), ChatEvent::ConversationFound(Ok(Some(conversation(CONV_ID))), fresh)).0;
    let s = chat_step(s, ChatEvent::UserMessageStored(Ok(()))).0;
    let (_, a) = chat_step(s, ChatEvent::QuestionEmbedded(Err(())));
    assert_eq!(a, ChatAction::Reply(Err(ResponseError::InternalServerError)));

    let s = chat_step(start(), ChatEvent::ConversationFound(Ok(Some(conversation(CONV_ID))), fresh)).0;
    let s = chat_step(s, ChatEvent::UserMessageStored(Ok(()))).0;
    let s = chat_step(s, ChatEvent::QuestionEmbedded(Ok(()))).0;
    let (_, a) = chat_step(s, ChatEvent::HitsFound(Err(())));
    assert_eq!(a, ChatAction::Reply(Err(ResponseError::InternalServerError)));

    let s = chat_step(start(), ChatEvent::ConversationFound(Ok(Some(conversation(CONV_ID))), fresh)).0;
    let s = chat_step(s, ChatEvent::UserMessageStored(Ok(()))).0;
    let s = chat_step(s, ChatEvent::QuestionEmbedded(Ok(()))).0;
    let s = chat_step(s, ChatEvent::HitsFound(Ok(vec![]))).0;
    let (_, a) = chat_step(s, ChatEvent::Answered(Err(()), fresh));
    assert_eq!(a, ChatAction::Reply(Err(ResponseError::InternalServerError)));
}

#[test]
fn chat_with_no_hits_asks_with_empty_context() {
    let fresh = Fresh { id: 1, now: 1 };
    let s = chat_start(USER_ID, Some(CONV_ID), "q?", fresh).0;
    let s = chat_step(s, ChatEvent::ConversationFound(Ok(Some(conversation(CONV_ID))), fresh)).0;
    let s = chat_step(s, ChatEvent::UserMessageStored(Ok(()))).0;
    let s = chat_step(s, ChatEvent::QuestionEmbedded(Ok(()))).0;
    let (_, a) = chat_step(s, ChatEvent::HitsFound(Ok(vec![])));
    assert_eq!(a, ChatAction::AskLlm(build_prompt_v2("", "q?")));
}

#[test]
fn listing_conversations_counts_then_fetches() {
    let (s, a) = chats_start(USER_ID, page_one());
    assert_eq!(a, ChatsAction::CountConversations(USER_ID));
    let (s, a) = chats_step(s, ChatsEvent::Counted(Ok(2)));
    assert_eq!(a, ChatsAction::FindConversations { user_id: USER_ID, page: page_one() });
    let data = vec![conversation(1), conversation(2)];
    let (_, a) = chats_step(s, ChatsEvent::ConversationsFound(Ok(data.clone())));
    assert_eq!(a, ChatsAction::Reply(Ok(GetConversations { data, total_data: 2 })));

    let (_, a) = chats_step(chats_start(USER_ID, page_one()).0, ChatsEvent::Counted(Err(())));
    assert_eq!(a, ChatsAction::Reply(Err(ResponseError::DatabaseError)));
    let s = chats_step(chats_start(USER_ID, page_one()).0, ChatsEvent::Counted(Ok(0))).0;
    let (_, a) = chats_step(s, ChatsEvent::ConversationsFound(Err(())));
    assert_eq!(a, ChatsAction::Reply(Err(ResponseError::DatabaseError)));
}

#[test]
fn listing_messages_answers_oldest_first() {
    let (s, a) = messages_start(USER_ID, CONV_ID, page_one());
    assert_eq!(a, MessagesAction::FindConversation { user_id: USER_ID, id: CONV_ID });
    let (s, a) = messages_step(s, MessagesEvent::ConversationFound(Ok(Some(conversation(CONV_ID)))));
    assert_eq!(a, MessagesAction::CountMessages(CONV_ID));
    let (s, a) = messages_step(s, MessagesEvent::Counted(Ok(3)));
    assert_eq!(a, MessagesAction::FindMessages { conversation_id: CONV_ID, page: page_one() });
    let newest_first = vec![message(3, "c"), message(2, "b"), message(1, "a")];
    let (_, a) = messages_step(s, MessagesEvent::MessagesFound(Ok(newest_first)));
    let expected = GetConversationMessages { data: vec![message(1, "a"), message(2, "b"), message(3, "c")], total_data: 3 };
    assert_eq!(a, MessagesAction::Reply(Ok(expected)));
}

#[test]
fn listing_messages_of_unknown_conversation_is_not_found() {
    let (s, _) = messages_start(USER_ID, CONV_ID, page_one());
    let (_, a) = messages_step(s, MessagesEvent::ConversationFound(Ok(None)));
    assert_eq!(a, MessagesAction::Reply(Err(ResponseError::NotFound("data not found".into()))));
    let (s, _) = messages_start(USER_ID, CONV_ID, page_one());
    let (_, a) = messages_step(s, MessagesEvent::ConversationFound(Err(())));
    assert_eq!(a, MessagesAction::Reply(Err(ResponseError::DatabaseError)));
}

#[test]
fn reversed_reverses() {
    assert_eq!(reversed(vec![1, 2, 3, 4]), vec![4, 3, 2, 1]);
    assert_eq!(reversed(Vec::<u8>::new()), Vec::<u8>::new());
    assert_eq!(reversed(vec!["x"]), vec!["x"]);
}

#[test]
fn stream_pieces_rejoin_to_the_answer() {
    let text = "The answer is 42, and it streams in pieces.";
    let pieces = stream_pieces(text.as_bytes());
    assert_eq!(pieces.len(), (text.len() + STREAM_PIECE_LEN - 1) / STREAM_PIECE_LEN);
    assert_eq!(pieces[0], b"The answer".to_vec());
    assert!(pieces.iter().all(|p| !p.is_empty() && p.len() <= STREAM_PIECE_LEN));
    assert_eq!(pieces.concat(), text.as_bytes().to_vec());
    let expected: Vec<Vec<u8>> = text.as_bytes().chunks(10).map(|c| c.to_vec()).collect();
    assert_eq!(pieces, expected);
    assert!(stream_pieces(b"").is_empty());
    assert_eq!(stream_pieces(b"0123456789"), vec![b"0123456789".to_vec()]);
}

#[test]
fn chats_paging_defaults() {
    let r = chats_page_request(query(None, None, None));
    assert_eq!(r, PaginationRequest { page: Some(1), per_page: None, offset: None, search: Some("".into()), sort: Some("-created_at".into()) });
    let r = chats_page_request(query(Some(0), None, None));
    assert_eq!((r.page, r.per_page, r.offset), (Some(0), None, None));
    let r = chats_page_request(query(Some(3), Some(20), Some("title")));
    assert_eq!(r, PaginationRequest { page: Some(3), per_page: Some(20), offset: Some(40), search: Some("".into()), sort: Some("title".into()) });
}

#[test]
fn messages_paging_defaults() {
    let r = chat_messages_page_request(query(None, None, None));
    assert_eq!(r, PaginationRequest { page: Some(1), per_page: Some(15), offset: Some(0), search: Some("".into()), sort: Some("-created_at".into()) });
    let r = chat_messages_page_request(query(Some(2), None, None));
    assert_eq!(r.offset, Some(15));
}

#[test]
fn chat_ids_from_token_and_path() {
    assert_eq!(listing_user_id(USER), Ok(USER_ID));
    assert_eq!(listing_user_id("nope"), Err(ResponseError::InternalServerError));
    assert_eq!(conversation_ids(USER, CONV), Ok((USER_ID, CONV_ID)));
    assert_eq!(conversation_ids(USER, "bad"), Err(ResponseError::InternalServerError));
    assert_eq!(conversation_ids("bad", CONV), Err(ResponseError::InternalServerError));
}

#[test]
fn chat_event_out_of_order_ends_with_internal_error() {
    let fresh = Fresh { id: 1, now: 1 };
    let s = chat_start(USER_ID, Some(CONV_ID), "q", fresh).0;
    let (s, a) = chat_step(s, ChatEvent::Answered(Ok("x".into()), fresh));
    assert_eq!(s, ChatStage::Finished);
    assert_eq!(a, ChatAction::Reply(Err(ResponseError::InternalServerError)));
    let (_, a) = chats_step(chats_start(USER_ID, page_one()).0, ChatsEvent::ConversationsFound(Ok(vec![])));
    assert_eq!(a, ChatsAction::Reply(Err(ResponseError::DatabaseError)));
    let (_, a) = messages_step(messages_start(USER_ID, CONV_ID, page_one()).0, MessagesEvent::Counted(Ok(1)));
    assert_eq!(a, MessagesAction::Reply(Err(ResponseError::DatabaseError)));
}

#[test]
fn conversation_outcome_must_answer_the_issued_action() {
    let fresh = Fresh { id: 1, now: 1 };
    let (s, _) = chat_start(USER_ID, Some(CONV_ID), "q", fresh);
    assert!(matches!(s, ChatStage::AwaitConversation { .. }));
    let (s, a) = chat_step(s, ChatEvent::ConversationCreated(Ok(conversation(CONV_ID)), fresh));
    assert_eq!(s, ChatStage::Finished);
    assert_eq!(a, ChatAction::Reply(Err(ResponseError::InternalServerError)));
    let (s, _) = chat_start(USER_ID, None, "q", fresh);
    assert!(matches!(s, ChatStage::AwaitNewConversation { .. }));
    let (_, a) = chat_step(s, ChatEvent::ConversationFound(Ok(Some(conversation(CONV_ID))), fresh));
    assert_eq!(a, ChatAction::Reply(Err(ResponseError::InternalServerError)));
}
