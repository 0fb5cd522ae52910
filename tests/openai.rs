use shai::config::{
    ArgModelKind, AskArgs, AskConfig, ConfigKind, ExplainConfig, ModelKind, OpenAIGPTModel,
    ShaiArgs, Task,
};
use shai::context::{build_context_request, join_with_commas, Context};
use shai::openai::{authorization_header, bearer_value, completion_answer, decode_frame, request_body, ChunkDelta, OpenAIError};
use shai::prompts::{ASK_MODEL_TASK, EXPLAIN_MODEL_TASK};

fn context() -> Context {
    Context::from_config(&ConfigKind::Ask(AskConfig::default()), None, None)
}

#[test]
fn api_names() {
    assert_eq!(OpenAIGPTModel::GPT35Turbo.api_name(), "gpt-3.5-turbo");
    assert_eq!(OpenAIGPTModel::GPT35Turbo_16k.api_name(), "gpt-3.5-turbo-16k");
    assert_eq!(OpenAIGPTModel::GPT4.api_name(), "gpt-4");
    assert_eq!(OpenAIGPTModel::GPT4_32k.api_name(), "gpt-4-32k");
}

#[test]
fn context_text_lists_what_was_asked() {
    let config = ConfigKind::Ask(AskConfig {
        operating_system: "Arch".to_string(),
        shell: "fish".to_string(),
        cwd: true,
        depth: None,
        environment: Some(vec!["HOME".to_string(), "PATH".to_string()]),
        programs: Some(vec!["rg".to_string()]),
        model: ModelKind::OpenAIGPT(OpenAIGPTModel::GPT4),
    });
    let c = Context::from_config(&config, Some("/srv".to_string()), Some("tree".to_string()));
    assert!(c.tree.is_none());
    assert_eq!(
        c.into_string(),
        "The system you are running is a Arch machine.\n\
         The shell you are running is fish. You are allowed to use fish specific features. \
         You are currently in folder: /srv\n\
         The following environment variables are defined: HOME,PATH\n\
         You have the following programs installed in the system, you should only use these programs to accomplish the <task>: rg\n"
    );
}

#[test]
fn explain_context_has_no_programs() {
    let config = ConfigKind::Explain(ExplainConfig {
        operating_system: "Linux".to_string(),
        shell: "bash".to_string(),
        cwd: false,
        depth: Some(2),
        environment: None,
        model: ModelKind::OpenAIGPT(OpenAIGPTModel::GPT4),
    });
    let c = Context::from_config(&config, Some("/srv".to_string()), Some(".\n└── a".to_string()));
    assert!(c.pwd.is_none());
    assert!(c.programs.is_none());
    assert_eq!(c.tree.as_deref(), Some(".\n└── a"));
}

#[test]
fn join_names() {
    assert_eq!(join_with_commas(&vec![]), "");
    assert_eq!(join_with_commas(&vec!["a".to_string()]), "a");
    assert_eq!(join_with_commas(&vec!["a".to_string(), "b".to_string(), "c".to_string()]), "a,b,c");
}

#[test]
fn context_request_wraps_task() {
    let r = build_context_request("list files", context());
    assert!(r.starts_with("The system you are running is a Linux machine.\n"));
    assert!(r.ends_with("Here is your <task>: \n <task>list files</task>"));
}

#[test]
fn body_is_the_chat_request() {
    let body = request_body(OpenAIGPTModel::GPT4, "say \"hi\"", context(), Task::GenerateCommand, true);
    let v: serde_json::Value = serde_json::from_str(&body).unwrap();
    assert_eq!(v["model"], "gpt-4");
    assert_eq!(v["temperature"], 0);
    assert_eq!(v["stream"], true);
    assert_eq!(v["messages"][0]["role"], "system");
    assert_eq!(v["messages"][0]["content"], ASK_MODEL_TASK);
    assert_eq!(v["messages"][1]["role"], "user");
    assert_eq!(
        v["messages"][1]["content"].as_str().unwrap(),
        build_context_request("say \"hi\"", context())
    );
    let body = request_body(OpenAIGPTModel::GPT35Turbo, "ls", context(), Task::Explain, false);
    let v: serde_json::Value = serde_json::from_str(&body).unwrap();
    assert_eq!(v["stream"], false);
    assert_eq!(v["messages"][0]["content"], EXPLAIN_MODEL_TASK);
}

#[test]
fn bearer_needs_a_key() {
    assert_eq!(bearer_value(Some("k1".to_string())), Ok("Bearer k1".to_string()));
    let e = bearer_value(None).unwrap_err();
    assert_eq!(
        e,
        OpenAIError::Authentication(
            "You need to set OPENAI_API_KEY env variable to use this model".to_string()
        )
    );
}

#[test]
fn frames_decode_to_fragments() {
    let data = |s: &str| Ok::<String, String>(s.to_string());
    assert_eq!(
        decode_frame(data("{..}"), Ok(vec![ChunkDelta::Content("ls".to_string())])),
        Ok(Some("ls".to_string()))
    );
    assert_eq!(
        decode_frame(data("{..}"), Ok(vec![ChunkDelta::Role("assistant".to_string())])),
        Ok(Some(String::new()))
    );
    assert_eq!(decode_frame(data("{..}"), Ok(vec![ChunkDelta::Stop])), Ok(Some(String::new())));
    assert_eq!(decode_frame(data("[DONE]"), Err("not json".to_string())), Ok(None));
    assert_eq!(
        decode_frame(data("{"), Err("EOF".to_string())),
        Err(OpenAIError::Deserialization("EOF".to_string()))
    );
    assert_eq!(
        decode_frame(data("{}"), Ok(vec![])),
        Err(OpenAIError::Deserialization("no choice in chunk".to_string()))
    );
    assert_eq!(
        decode_frame(Err("reset".to_string()), Ok(vec![])),
        Err(OpenAIError::Stream("reset".to_string()))
    );
}

#[test]
fn completion_takes_first_choice() {
    assert_eq!(completion_answer(Ok(vec!["a".to_string(), "b".to_string()])), Ok("a".to_string()));
    assert_eq!(
        completion_answer(Ok(vec![])),
        Err(OpenAIError::Unknown("no choice in response".to_string()))
    );
    assert_eq!(completion_answer(Err("bad".to_string())), Err(OpenAIError::Unknown("bad".to_string())));
}

#[test]
fn error_messages() {
    assert_eq!(OpenAIError::Stream("x".to_string()).to_string(), "Stream was interrupted: x");
    assert_eq!(OpenAIError::Authentication("y".to_string()).to_string(), "y");
    assert_eq!(OpenAIError::Client("z".to_string()).to_string(), "Client failed to initialize: z");
}

#[test]
fn config_from_args() {
    let args = ShaiArgs::Ask(AskArgs {
        operating_system: "Linux".to_string(),
        shell: "bash".to_string(),
        environment: None,
        program: Some(vec!["fd".to_string()]),
        cwd: true,
        depth: Some(1),
        model: ArgModelKind::OpenAIGPT4_32k,
        write_stdout: true,
        edit_file: Some("f".to_string()),
    });
    assert_eq!(args.edit_file().as_deref(), Some("f"));
    assert!(args.write_stdout());
    let config = ConfigKind::from(args);
    assert_eq!(*config.model(), ModelKind::OpenAIGPT(OpenAIGPTModel::GPT4_32k));
    assert_eq!(config.depth(), Some(1));
    assert!(config.cwd());
    match config {
        ConfigKind::Ask(c) => assert_eq!(c.programs, Some(vec!["fd".to_string()])),
        ConfigKind::Explain(_) => panic!("expected the command mode"),
    }
}

#[test]
fn authorization_header_checks_the_key() {
    let v = authorization_header(Some("sk-abc".to_string())).unwrap();
    assert_eq!(v.to_str().unwrap(), "Bearer sk-abc");
    assert_eq!(
        authorization_header(Some("bad\nkey".to_string())).unwrap_err(),
        OpenAIError::Authentication(
            "Failed to create authentication header: failed to parse header value".to_string()
        )
    );
    assert!(authorization_header(Some("tab\tok".to_string())).is_ok());
    assert!(matches!(authorization_header(None), Err(OpenAIError::Authentication(_))));
}
