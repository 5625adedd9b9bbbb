use vstd::prelude::*;

use crate::error::pdf_parser::PdfParserError;

verus! {

/// One message of a chat-completion request.
#[derive(Debug, Clone, PartialEq, Eq)]
pub struct ChatMessage {
    pub role: String,
    pub content: String,
}

/// A chat-completion answer: the model's choices.
#[derive(Debug, Clone, PartialEq, Eq)]
pub struct ChatResponse {
    pub choices: Vec<ChatChoice>,
}

/// One choice of a chat-completion answer.
#[derive(Debug, Clone, PartialEq, Eq)]
pub struct ChatChoice {
    pub message: ChatMessageResponse,
}

/// The message of a choice.
#[derive(Debug, Clone, PartialEq, Eq)]
pub struct ChatMessageResponse {
    pub content: String,
}

/// The chat-completions endpoint of a model server.
pub fn chat_completions_url(base_url: &str) -> (r: String)
    ensures
        r@ == base_url@ + "/v1/chat/completions"@,
{
    let mut s = String::from_str(base_url);
    s.append("/v1/chat/completions");
    s
}

/// The messages of a request that asks `prompt`: one message from the user.
pub fn prompt_messages(prompt: &str) -> (r: Vec<ChatMessage>)
    ensures
        r@.len() == 1,
        r@[0].role@ == "user"@,
        r@[0].content@ == prompt@,
{
    let mut v: Vec<ChatMessage> = Vec::new();
    v.push(ChatMessage { role: String::from_str("user"), content: String::from_str(prompt) });
    v
}

fn unknown(prefix: &str, detail: &str) -> (r: PdfParserError)
    ensures
        r matches PdfParserError::UnknownError(m) && m@ == prefix@ + detail@,
{
    let mut s = String::from_str(prefix);
    s.append(detail);
    PdfParserError::UnknownError(s)
}

/// The error for a request that could not be sent.
pub fn llm_send_error(detail: &str) -> (r: PdfParserError)
    ensures
        r matches PdfParserError::UnknownError(m) && m@ == "send request: "@ + detail@,
{
    unknown("send request: ", detail)
}

/// The error for a response that is not a success: the status line and the body.
pub fn llm_status_error(status: &str, body: &str) -> (r: PdfParserError)
    ensures
        r matches PdfParserError::UnknownError(m) && m@ == "after sending: "@ + status@ + ": "@ + body@,
{
    let mut s = String::from_str(status);
    s.append(": ");
    s.append(body);
    unknown("after sending: ", s.as_str())
}

/// The error for a response body that is not a chat-completion answer.
pub fn llm_format_error(detail: &str) -> (r: PdfParserError)
    ensures
        r matches PdfParserError::UnknownError(m) && m@ == "formating response: "@ + detail@,
{
    unknown("formating response: ", detail)
}

/// The model's answer: the content of the first choice; an answer without choices is
/// "empty LLM response".
pub fn first_choice_content(response: &ChatResponse) -> (r: Result<String, PdfParserError>)
    ensures
        response.choices@.len() > 0 ==> (r matches Ok(c) && c@ == response.choices@[0].message.content@),
        response.choices@.len() == 0 ==> (r matches Err(PdfParserError::UnknownError(m)) && m@
            == "empty LLM response"@),
{
    if response.choices.len() == 0 {
        return Err(PdfParserError::UnknownError(String::from_str("empty LLM response")));
    }
    Ok(response.choices[0].message.content.clone())
}

} // verus!
