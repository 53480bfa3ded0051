use llm_proxy::bedrock::{
    message_to_backend, openai_tools_to_bedrock_tool_config, parsed_arguments_to_document,
    process_chat_completions_request_to_bedrock_chat_completion, system_blocks_of_message,
    tool_input_document,
};
use llm_proxy::converse::{
    BackendMessage, ContentBlock, ConversationRole, SpecificToolChoice, SystemContentBlock, Tool,
    ToolChoice, ToolInputSchema, ToolResultBlock, ToolResultContentBlock, ToolSpecification,
    ToolUseBlock,
};
use llm_proxy::document::{Document, DocumentNumber};
use llm_proxy::error::TranslationError;
use llm_proxy::json::{JsonNumber, JsonValue};
use llm_proxy::providers::{BedrockChatCompletionsProvider, ProcessChatCompletionsRequest};
use llm_proxy::request::{
    ChatCompletionsRequest, Content, Contents, Message, OpenAIFunctionCall, OpenAITool,
    OpenAIToolCall, OpenAIToolChoice, OpenAIToolChoiceFunction, OpenAIToolFunction, Role,
};

fn text(s: &str) -> Option<Contents> {
    Some(Contents::String(s.to_string()))
}

fn blocks(texts: &[&str]) -> Option<Contents> {
    Some(Contents::Array(
        texts.iter().map(|t| Content::Text { text: t.to_string() }).collect(),
    ))
}

fn message(role: Role, contents: Option<Contents>) -> Message {
    Message { contents, role, tool_calls: None, tool_call_id: None }
}

fn call(id: &str, name: &str, arguments: &str) -> OpenAIToolCall {
    OpenAIToolCall {
        id: id.to_string(),
        tool_type: "function".to_string(),
        function: OpenAIFunctionCall { name: name.to_string(), arguments: arguments.to_string() },
    }
}

fn request(messages: Vec<Message>) -> ChatCompletionsRequest {
    ChatCompletionsRequest {
        frequency_penalty: None,
        logit_bias: None,
        messages,
        max_tokens: None,
        model: "amazon.nova-lite-v1:0".to_string(),
        n: None,
        presence_penalty: None,
        stop: None,
        stream: None,
        stream_options: None,
        temperature: None,
        top_p: None,
        user: None,
        tools: None,
        tool_choice: None,
    }
}

fn tool(name: &str, description: Option<&str>, parameters: JsonValue) -> OpenAITool {
    OpenAITool {
        tool_type: "function".to_string(),
        function: OpenAIToolFunction {
            name: name.to_string(),
            description: description.map(|d| d.to_string()),
            parameters,
        },
    }
}

fn empty_object() -> Document {
    Document::Object(vec![])
}

#[test]
fn system_messages_become_the_system_prompt_only() {
    let r = request(vec![
        message(Role::System, text("be brief")),
        message(Role::User, text("hello")),
        message(Role::System, blocks(&["one", "two"])),
        message(Role::Assistant, text("hi")),
        message(Role::System, None),
    ]);
    let made = process_chat_completions_request_to_bedrock_chat_completion(&r).unwrap();
    assert_eq!(made.model_id, "amazon.nova-lite-v1:0");
    assert_eq!(
        made.system_content_blocks,
        vec![
            SystemContentBlock::Text("be brief".to_string()),
            SystemContentBlock::Text("one".to_string()),
            SystemContentBlock::Text("two".to_string()),
        ]
    );
    assert_eq!(
        made.messages,
        vec![
            BackendMessage {
                role: ConversationRole::User,
                content: vec![ContentBlock::Text("hello".to_string())],
            },
            BackendMessage {
                role: ConversationRole::Assistant,
                content: vec![ContentBlock::Text("hi".to_string())],
            },
        ]
    );
    assert_eq!(made.tool_config, None);
}

#[test]
fn empty_request_translates_to_an_empty_conversation() {
    let made = process_chat_completions_request_to_bedrock_chat_completion(&request(vec![])).unwrap();
    assert_eq!(made.system_content_blocks, vec![]);
    assert_eq!(made.messages, vec![]);
    assert_eq!(made.tool_config, None);
}

#[test]
fn assistant_tool_calls_become_tool_use_blocks_in_order() {
    let mut m = message(Role::Assistant, text("let me check"));
    m.tool_calls = Some(vec![
        call("call_1", "get_weather", "{\"city\":\"Paris\",\"days\":3}"),
        call("call_2", "get_time", "{}"),
    ]);
    let made = message_to_backend(&m).unwrap().unwrap();
    assert_eq!(made.role, ConversationRole::Assistant);
    assert_eq!(
        made.content,
        vec![
            ContentBlock::Text("let me check".to_string()),
            ContentBlock::ToolUse(ToolUseBlock {
                tool_use_id: "call_1".to_string(),
                name: "get_weather".to_string(),
                input: Document::Object(vec![
                    ("city".to_string(), Document::String("Paris".to_string())),
                    ("days".to_string(), Document::Number(DocumentNumber::PosInt(3))),
                ]),
            }),
            ContentBlock::ToolUse(ToolUseBlock {
                tool_use_id: "call_2".to_string(),
                name: "get_time".to_string(),
                input: empty_object(),
            }),
        ]
    );
}

#[test]
fn assistant_tool_calls_without_text_have_no_leading_text_block() {
    for contents in [None, text(""), blocks(&[]), blocks(&["", ""])] {
        let mut m = message(Role::Assistant, contents);
        m.tool_calls = Some(vec![call("c", "f", "{}")]);
        let made = message_to_backend(&m).unwrap().unwrap();
        assert_eq!(
            made.content,
            vec![ContentBlock::ToolUse(ToolUseBlock {
                tool_use_id: "c".to_string(),
                name: "f".to_string(),
                input: empty_object(),
            })]
        );
    }
}

#[test]
fn assistant_tool_calls_keep_only_the_texts_that_are_not_empty() {
    let mut m = message(Role::Assistant, blocks(&["", "a", "", "b"]));
    m.tool_calls = Some(vec![call("c", "f", "")]);
    let made = message_to_backend(&m).unwrap().unwrap();
    assert_eq!(
        made.content,
        vec![
            ContentBlock::Text("a".to_string()),
            ContentBlock::Text("b".to_string()),
            ContentBlock::ToolUse(ToolUseBlock {
                tool_use_id: "c".to_string(),
                name: "f".to_string(),
                input: empty_object(),
            }),
        ]
    );
}

#[test]
fn unparseable_arguments_become_the_empty_object() {
    assert_eq!(tool_input_document("not json"), empty_object());
    assert_eq!(tool_input_document(""), empty_object());
    assert_eq!(tool_input_document("{\"a\":"), empty_object());
    assert_eq!(
        tool_input_document("[1]"),
        Document::Array(vec![Document::Number(DocumentNumber::PosInt(1))])
    );
    assert_eq!(tool_input_document("null"), Document::Null);
    assert_eq!(parsed_arguments_to_document(Err("bad".to_string())), empty_object());
    assert_eq!(
        parsed_arguments_to_document(Ok(JsonValue::Number(JsonNumber::NegInt(-1)))),
        Document::Number(DocumentNumber::NegInt(-1))
    );
    let mut m = message(Role::Assistant, None);
    m.tool_calls = Some(vec![call("c", "f", "{broken")]);
    let r = request(vec![m]);
    let made = process_chat_completions_request_to_bedrock_chat_completion(&r).unwrap();
    assert_eq!(
        made.messages[0].content,
        vec![ContentBlock::ToolUse(ToolUseBlock {
            tool_use_id: "c".to_string(),
            name: "f".to_string(),
            input: empty_object(),
        })]
    );
}

#[test]
fn assistant_with_an_empty_list_of_tool_calls() {
    let mut m = message(Role::Assistant, blocks(&["", "a"]));
    m.tool_calls = Some(vec![]);
    let made = message_to_backend(&m).unwrap().unwrap();
    assert_eq!(made.content, vec![ContentBlock::Text("a".to_string())]);
}

#[test]
fn assistant_without_tool_calls_keeps_every_text() {
    let made = message_to_backend(&message(Role::Assistant, blocks(&["", "a"]))).unwrap().unwrap();
    assert_eq!(
        made,
        BackendMessage {
            role: ConversationRole::Assistant,
            content: vec![
                ContentBlock::Text("".to_string()),
                ContentBlock::Text("a".to_string()),
            ],
        }
    );
    let made = message_to_backend(&message(Role::Assistant, None)).unwrap().unwrap();
    assert_eq!(made, BackendMessage { role: ConversationRole::Assistant, content: vec![] });
}

#[test]
fn tool_message_becomes_a_tool_result_of_the_user() {
    let mut m = message(Role::Tool, text("22 degrees"));
    m.tool_call_id = Some("call_1".to_string());
    let made = message_to_backend(&m).unwrap().unwrap();
    assert_eq!(
        made,
        BackendMessage {
            role: ConversationRole::User,
            content: vec![ContentBlock::ToolResult(ToolResultBlock {
                tool_use_id: "call_1".to_string(),
                content: vec![ToolResultContentBlock::Text("22 degrees".to_string())],
            })],
        }
    );
}

#[test]
fn tool_message_blocks_are_joined_with_a_space() {
    let mut m = message(Role::Tool, blocks(&["a", "b", "", "c"]));
    m.tool_call_id = Some("id".to_string());
    let made = message_to_backend(&m).unwrap().unwrap();
    assert_eq!(
        made.content,
        vec![ContentBlock::ToolResult(ToolResultBlock {
            tool_use_id: "id".to_string(),
            content: vec![ToolResultContentBlock::Text("a b  c".to_string())],
        })]
    );
    let mut m = message(Role::Tool, blocks(&[]));
    m.tool_call_id = Some("id".to_string());
    let made = message_to_backend(&m).unwrap().unwrap();
    assert_eq!(
        made.content,
        vec![ContentBlock::ToolResult(ToolResultBlock {
            tool_use_id: "id".to_string(),
            content: vec![ToolResultContentBlock::Text("".to_string())],
        })]
    );
    assert_eq!(blocks(&["x"]).unwrap().joined_text(), "x");
    assert_eq!(text("whole").unwrap().joined_text(), "whole");
}

#[test]
fn tool_message_without_call_id_fails_the_request() {
    let r = request(vec![
        message(Role::User, text("hi")),
        message(Role::Tool, text("result")),
        message(Role::User, text("more")),
    ]);
    assert_eq!(
        process_chat_completions_request_to_bedrock_chat_completion(&r),
        Err(TranslationError::MissingToolCallId)
    );
    assert_eq!(
        BedrockChatCompletionsProvider::new().process_chat_completions_request(&r),
        Err(TranslationError::MissingToolCallId)
    );
}

#[test]
fn tool_message_without_contents_fails_the_request() {
    let mut m = message(Role::Tool, None);
    m.tool_call_id = Some("id".to_string());
    assert_eq!(
        process_chat_completions_request_to_bedrock_chat_completion(&request(vec![m])),
        Err(TranslationError::MissingContents)
    );
    assert_eq!(
        message_to_backend(&message(Role::Tool, None)),
        Err(TranslationError::MissingContents)
    );
}

#[test]
fn user_message_without_contents_fails_the_request() {
    let r = request(vec![message(Role::User, None)]);
    assert_eq!(
        process_chat_completions_request_to_bedrock_chat_completion(&r),
        Err(TranslationError::MissingContents)
    );
}

#[test]
fn first_refusal_decides() {
    let r = request(vec![
        message(Role::User, None),
        message(Role::Tool, text("x")),
    ]);
    assert_eq!(
        process_chat_completions_request_to_bedrock_chat_completion(&r),
        Err(TranslationError::MissingContents)
    );
    let r = request(vec![
        message(Role::Tool, text("x")),
        message(Role::User, None),
    ]);
    assert_eq!(
        process_chat_completions_request_to_bedrock_chat_completion(&r),
        Err(TranslationError::MissingToolCallId)
    );
}

#[test]
fn tools_become_tool_specifications() {
    let schema = JsonValue::Object(vec![(
        "type".to_string(),
        JsonValue::String("object".to_string()),
    )]);
    let mut r = request(vec![message(Role::User, text("hi"))]);
    r.tools = Some(vec![
        tool("get_weather", Some("Look up the weather"), schema),
        tool("get_time", None, JsonValue::Null),
    ]);
    let made = process_chat_completions_request_to_bedrock_chat_completion(&r).unwrap();
    let config = made.tool_config.unwrap();
    assert_eq!(
        config.tools,
        vec![
            Tool::ToolSpec(ToolSpecification {
                name: "get_weather".to_string(),
                description: Some("Look up the weather".to_string()),
                input_schema: Some(ToolInputSchema::Json(Document::Object(vec![(
                    "type".to_string(),
                    Document::String("object".to_string()),
                )]))),
            }),
            Tool::ToolSpec(ToolSpecification {
                name: "get_time".to_string(),
                description: None,
                input_schema: Some(ToolInputSchema::Json(Document::Null)),
            }),
        ]
    );
    assert_eq!(config.tool_choice, Some(ToolChoice::Auto));
}

#[test]
fn tool_choice_modes() {
    let tools = vec![tool("f", None, JsonValue::Null)];
    let choice = |c: Option<OpenAIToolChoice>| {
        openai_tools_to_bedrock_tool_config(&tools, &c).unwrap().tool_choice
    };
    assert_eq!(choice(None), Some(ToolChoice::Auto));
    assert_eq!(choice(Some(OpenAIToolChoice::String("none".to_string()))), None);
    assert_eq!(
        choice(Some(OpenAIToolChoice::String("required".to_string()))),
        Some(ToolChoice::Any)
    );
    assert_eq!(
        choice(Some(OpenAIToolChoice::String("auto".to_string()))),
        Some(ToolChoice::Auto)
    );
    assert_eq!(
        choice(Some(OpenAIToolChoice::String("None".to_string()))),
        Some(ToolChoice::Auto)
    );
    assert_eq!(
        choice(Some(OpenAIToolChoice::String("".to_string()))),
        Some(ToolChoice::Auto)
    );
    assert_eq!(
        choice(Some(OpenAIToolChoice::Object {
            tool_type: "function".to_string(),
            function: OpenAIToolChoiceFunction { name: "f".to_string() },
        })),
        Some(ToolChoice::Tool(SpecificToolChoice { name: "f".to_string() }))
    );
}

#[test]
fn empty_list_of_tools_fails_the_request() {
    let mut r = request(vec![message(Role::User, text("hi"))]);
    r.tools = Some(vec![]);
    assert_eq!(
        process_chat_completions_request_to_bedrock_chat_completion(&r),
        Err(TranslationError::MissingTools)
    );
    assert_eq!(
        openai_tools_to_bedrock_tool_config(&vec![], &None),
        Err(TranslationError::MissingTools)
    );
}

#[test]
fn messages_are_refused_before_tools() {
    let mut r = request(vec![message(Role::Tool, text("x"))]);
    r.tools = Some(vec![]);
    assert_eq!(
        process_chat_completions_request_to_bedrock_chat_completion(&r),
        Err(TranslationError::MissingToolCallId)
    );
}

#[test]
fn contents_emptiness() {
    assert!(Contents::String(String::new()).is_empty());
    assert!(Contents::Array(vec![]).is_empty());
    assert!(!Contents::String(" ".to_string()).is_empty());
    assert!(!Contents::Array(vec![Content::Text { text: String::new() }]).is_empty());
}

#[test]
fn contents_conversions() {
    let c = blocks(&["a", ""]).unwrap();
    assert_eq!(
        c.content_blocks(),
        vec![ContentBlock::Text("a".to_string()), ContentBlock::Text("".to_string())]
    );
    assert_eq!(
        c.system_content_blocks(),
        vec![
            SystemContentBlock::Text("a".to_string()),
            SystemContentBlock::Text("".to_string()),
        ]
    );
    assert_eq!(
        c.tool_result_content_blocks(),
        Ok(vec![
            ToolResultContentBlock::Text("a".to_string()),
            ToolResultContentBlock::Text("".to_string()),
        ])
    );
    assert_eq!(
        text("").unwrap().tool_result_content_blocks(),
        Err(TranslationError::EmptyToolContents)
    );
    assert_eq!(
        blocks(&[]).unwrap().tool_result_content_blocks(),
        Err(TranslationError::EmptyToolContents)
    );
    assert_eq!(
        text("t").unwrap().content_blocks(),
        vec![ContentBlock::Text("t".to_string())]
    );
}

#[test]
fn message_on_its_own() {
    let mut m = message(Role::Tool, blocks(&["a", "b"]));
    m.tool_call_id = Some("id".to_string());
    assert_eq!(
        BackendMessage::try_from(&m),
        Ok(BackendMessage {
            role: ConversationRole::User,
            content: vec![ContentBlock::ToolResult(ToolResultBlock {
                tool_use_id: "id".to_string(),
                content: vec![
                    ToolResultContentBlock::Text("a".to_string()),
                    ToolResultContentBlock::Text("b".to_string()),
                ],
            })],
        })
    );
    let mut m = message(Role::Tool, text(""));
    m.tool_call_id = Some("id".to_string());
    assert_eq!(ToolResultBlock::try_from(&m), Err(TranslationError::EmptyToolContents));
    assert_eq!(BackendMessage::try_from(&m), Err(TranslationError::EmptyToolContents));
    assert_eq!(
        ToolResultBlock::try_from(&message(Role::Tool, text("x"))),
        Err(TranslationError::MissingToolCallId)
    );
    assert_eq!(
        ToolResultBlock::try_from(&message(Role::Tool, None)),
        Err(TranslationError::MissingContents)
    );
    assert_eq!(
        BackendMessage::try_from(&message(Role::System, text("s"))),
        Ok(BackendMessage {
            role: ConversationRole::User,
            content: vec![ContentBlock::Text("s".to_string())],
        })
    );
    assert_eq!(
        BackendMessage::try_from(&message(Role::System, None)),
        Err(TranslationError::MissingContents)
    );
    let mut m = message(Role::Assistant, text(""));
    m.tool_calls = Some(vec![call("c", "f", "7")]);
    assert_eq!(
        BackendMessage::try_from(&m),
        Ok(BackendMessage {
            role: ConversationRole::Assistant,
            content: vec![
                ContentBlock::Text("".to_string()),
                ContentBlock::ToolUse(ToolUseBlock {
                    tool_use_id: "c".to_string(),
                    name: "f".to_string(),
                    input: Document::Number(DocumentNumber::PosInt(7)),
                }),
            ],
        })
    );
    assert_eq!(
        ToolUseBlock::try_from(&call("c", "f", "oops")),
        Ok(ToolUseBlock {
            tool_use_id: "c".to_string(),
            name: "f".to_string(),
            input: empty_object(),
        })
    );
}

#[test]
fn system_group_of_a_message() {
    assert_eq!(
        system_blocks_of_message(&message(Role::System, blocks(&["a", "b"]))),
        vec![
            SystemContentBlock::Text("a".to_string()),
            SystemContentBlock::Text("b".to_string()),
        ]
    );
    assert_eq!(system_blocks_of_message(&message(Role::System, None)), vec![]);
    assert_eq!(system_blocks_of_message(&message(Role::User, text("u"))), vec![]);
    assert_eq!(message_to_backend(&message(Role::System, text("s"))), Ok(None));
}
