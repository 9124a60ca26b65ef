use llama_link::{CompletionError, CompletionStreamError, FunctionCallError, ToolBoxError};

#[test]
fn a_completion_error_presents_itself() {
    assert_eq!(
        CompletionError::Api { issue: "HTTP Error: 500 Internal Server Error".to_owned() }.to_string(),
        "ApiError: An error occurred related to calling llama.cpp: HTTP Error: 500 Internal Server Error"
    );
    assert_eq!(
        CompletionError::Parsing { issue: "expected value at line 1 column 1".to_owned() }.to_string(),
        "ParsingError: expected value at line 1 column 1"
    );
    assert_eq!(CompletionError::Parsing { issue: String::new() }.to_string(), "ParsingError: ");
}

#[test]
fn a_function_call_error_presents_itself() {
    assert_eq!(
        FunctionCallError::FunctionNotFound { function_name: "greet".to_owned() }.to_string(),
        "The function with name `greet` was not found in the toolbox"
    );
    assert_eq!(
        FunctionCallError::Api { issue: "down".to_owned() }.to_string(),
        "ApiError: An error occurred related to calling llama.cpp: down"
    );
    assert_eq!(FunctionCallError::Parsing { issue: "bad".to_owned() }.to_string(), "ParsingError: bad");
}

#[test]
fn a_stream_error_presents_itself() {
    assert_eq!(CompletionStreamError::Deserialization("bad frame".to_owned()).to_string(), "bad frame");
    assert_eq!(CompletionStreamError::SSE("reset by peer".to_owned()).to_string(), "reset by peer");
}

#[test]
fn a_completion_error_becomes_a_function_call_error() {
    assert_eq!(
        FunctionCallError::from(CompletionError::Api { issue: "a".to_owned() }),
        FunctionCallError::Api { issue: "a".to_owned() }
    );
    assert_eq!(
        FunctionCallError::from(CompletionError::Parsing { issue: "p".to_owned() }),
        FunctionCallError::Parsing { issue: "p".to_owned() }
    );
}

#[test]
fn a_tool_box_error_becomes_a_function_call_error() {
    assert_eq!(
        FunctionCallError::from(ToolBoxError::FunctionNotFound { function_name: "greet".to_owned() }),
        FunctionCallError::FunctionNotFound { function_name: "greet".to_owned() }
    );
    assert_eq!(
        FunctionCallError::from(ToolBoxError::Parsing { issue: "no `parameters`".to_owned() }),
        FunctionCallError::Parsing { issue: "no `parameters`".to_owned() }
    );
}
