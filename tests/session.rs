use shai::config::{ArgModelKind, AskArgs, ExplainArgs, ShaiArgs, Task};
use shai::keys::{KeyCode, KeyInput, CONTROL, SHIFT};
use shai::openai::OpenAIError;
use shai::progress::ShaiRequestProgress;
use shai::session::{
    render_for_write, Focus, Layout, MainAction, RequestExit, RequestStep, RequestType,
    ShaiState, ShaiUI, UiIntent, WriteBuffer,
};
use tui_input::InputRequest;

fn ask_args(edit_file: Option<&str>, write_stdout: bool) -> ShaiArgs {
    ShaiArgs::Ask(AskArgs {
        operating_system: "Linux".to_string(),
        shell: "bash".to_string(),
        environment: None,
        program: None,
        cwd: false,
        depth: None,
        model: ArgModelKind::OpenAIGPT35Turbo,
        write_stdout,
        edit_file: edit_file.map(|s| s.to_string()),
    })
}

fn explain_args() -> ShaiArgs {
    ShaiArgs::Explain(ExplainArgs {
        operating_system: "Linux".to_string(),
        shell: "zsh".to_string(),
        environment: None,
        cwd: false,
        depth: None,
        model: ArgModelKind::OpenAIGPT4,
        write_stdout: false,
        edit_file: None,
    })
}

fn key(code: KeyCode, modifiers: u8) -> KeyInput {
    KeyInput { code, modifiers }
}

fn ctrl(c: char) -> KeyInput {
    key(KeyCode::Char(c), CONTROL)
}

fn plain(c: char) -> KeyInput {
    key(KeyCode::Char(c), 0)
}

/// Runs a request for `rt` to its end with the given fragments.
fn answer(ui: &mut ShaiUI, rt: RequestType, fragments: &[&str]) {
    assert_eq!(ui.wait_tick(rt, None, Some(Ok(()))), RequestStep::Streaming);
    for f in fragments {
        assert_eq!(ui.stream_item(rt, Some(Ok(f.to_string()))), RequestStep::Streaming);
        assert_eq!(ui.stream_key(rt, None), RequestStep::Streaming);
    }
    assert_eq!(ui.stream_item(rt, None), RequestStep::Done(RequestExit::Finished));
}

#[test]
fn new_session_trims_seed_and_starts() {
    let ui = ShaiUI::new(ask_args(None, false), "  list files \n");
    assert_eq!(ui.input_text, "list files");
    assert_eq!(ui.input_cursor, 10);
    assert_eq!(ui.state(), ShaiState::Started);
    assert_eq!(ui.layout, Layout::InputResponse);
    assert_eq!(ui.main_response_size, 3);
}

#[test]
fn fragments_accumulate_and_spinner_stops() {
    let mut ui = ShaiUI::new(ask_args(None, false), "");
    assert_eq!(ui.wait_tick(RequestType::Normal, None, None), RequestStep::Waiting);
    assert_eq!(ui.state(), ShaiState::Processing);
    answer(&mut ui, RequestType::Normal, &["Hel", "lo"]);
    assert_eq!(ui.main_response.text, "Hello");
    assert_eq!(ui.main_response.request_state, ShaiRequestProgress::Idle);
    assert_eq!(ui.state(), ShaiState::CommandGenerated);
}

#[test]
fn stream_error_keeps_partial_text() {
    let mut ui = ShaiUI::new(ask_args(None, false), "");
    assert_eq!(
        ui.wait_tick(RequestType::Normal, None, Some(Ok(()))),
        RequestStep::Streaming
    );
    for f in ["Par", "tial"] {
        assert_eq!(
            ui.stream_item(RequestType::Normal, Some(Ok(f.to_string()))),
            RequestStep::Streaming
        );
    }
    let step = ui.stream_item(
        RequestType::Normal,
        Some(Err(OpenAIError::Stream("connection reset".to_string()))),
    );
    assert_eq!(step, RequestStep::Done(RequestExit::Failed));
    assert_eq!(ui.main_response.text, "Partial");
    assert_eq!(ui.main_response.request_state, ShaiRequestProgress::Idle);
    assert_eq!(ui.state(), ShaiState::CommandGenerated);
}

#[test]
fn state_derivation() {
    let mut ui = ShaiUI::new(ask_args(None, false), "");
    assert_eq!(ui.state(), ShaiState::Started);
    ui.main_response.text = "ls".to_string();
    assert_eq!(ui.state(), ShaiState::CommandGenerated);
    ui.auxiliary_response.text = "lists".to_string();
    assert_eq!(ui.state(), ShaiState::AuxExplanationGenerated);
    ui.auxiliary_response.request_state = ShaiRequestProgress::S2;
    assert_eq!(ui.state(), ShaiState::Processing);
    ui.auxiliary_response.request_state = ShaiRequestProgress::Idle;
    ui.main_response.request_state = ShaiRequestProgress::S0;
    ui.main_response.text = String::new();
    assert_eq!(ui.state(), ShaiState::Processing);

    let mut ex = ShaiUI::new(explain_args(), "ls -la");
    assert_eq!(ex.state(), ShaiState::Started);
    ex.main_response.text = "lists all files".to_string();
    assert_eq!(ex.state(), ShaiState::ExplanationGenerated);
}

#[test]
fn scroll_stays_within_bounds() {
    let mut ui = ShaiUI::new(explain_args(), "");
    answer(&mut ui, RequestType::Normal, &["a\nb\nc\nd\ne\nf\ng\nh\ni\nj"]);
    assert_eq!(ui.state(), ShaiState::ExplanationGenerated);
    // ten lines: half a page is five, the last offset nine
    assert_eq!(ui.on_key(ctrl('d'), None), MainAction::Continue);
    assert_eq!(ui.main_response.scroll, 5);
    ui.on_key(ctrl('d'), None);
    assert_eq!(ui.main_response.scroll, 9);
    ui.on_key(ctrl('d'), None);
    assert_eq!(ui.main_response.scroll, 9);
    ui.on_key(ctrl('u'), None);
    assert_eq!(ui.main_response.scroll, 4);
    ui.on_key(ctrl('u'), None);
    ui.on_key(ctrl('u'), None);
    assert_eq!(ui.main_response.scroll, 0);
}

#[test]
fn scroll_of_single_line_text() {
    let mut ui = ShaiUI::new(explain_args(), "");
    answer(&mut ui, RequestType::Normal, &["one line"]);
    for _ in 0..4 {
        ui.on_key(ctrl('d'), None);
        assert!(ui.main_response.scroll <= 1);
    }
    assert_eq!(ui.main_response.scroll, 1);
}

#[test]
fn cancel_while_waiting_clears_the_pane() {
    let mut ui = ShaiUI::new(ask_args(None, false), "ls");
    answer(&mut ui, RequestType::Normal, &["old answer"]);
    assert_eq!(ui.on_key(key(KeyCode::Enter, 0), None), MainAction::Request(RequestType::Normal));
    assert_eq!(ui.wait_tick(RequestType::Normal, None, None), RequestStep::Waiting);
    assert_eq!(ui.wait_tick(RequestType::Normal, None, None), RequestStep::Waiting);
    let step = ui.wait_tick(RequestType::Normal, Some(key(KeyCode::Esc, 0)), Some(Ok(())));
    assert_eq!(step, RequestStep::Done(RequestExit::Cancel));
    assert_eq!(ui.main_response.text, "");
    assert_eq!(ui.main_response.request_state, ShaiRequestProgress::Idle);
    assert_eq!(ui.state(), ShaiState::Started);
}

#[test]
fn exit_while_waiting_ends_session() {
    let mut ui = ShaiUI::new(ask_args(None, false), "ls");
    let step = ui.wait_tick(RequestType::Normal, Some(ctrl('c')), None);
    assert_eq!(step, RequestStep::Done(RequestExit::Exit));
    assert_eq!(ui.main_response.request_state, ShaiRequestProgress::Idle);
}

#[test]
fn failed_setup_keeps_previous_answer() {
    let mut ui = ShaiUI::new(ask_args(None, false), "ls");
    answer(&mut ui, RequestType::Normal, &["ls -la"]);
    ui.wait_tick(RequestType::Normal, None, None);
    let step = ui.wait_tick(
        RequestType::Normal,
        None,
        Some(Err(OpenAIError::Authentication("no key".to_string()))),
    );
    assert_eq!(step, RequestStep::Done(RequestExit::Failed));
    assert_eq!(ui.main_response.text, "ls -la");
    assert_eq!(ui.state(), ShaiState::CommandGenerated);
}

#[test]
fn cancel_while_streaming_keeps_text() {
    let mut ui = ShaiUI::new(ask_args(None, false), "ls");
    ui.wait_tick(RequestType::Normal, None, Some(Ok(())));
    ui.stream_item(RequestType::Normal, Some(Ok("ls ".to_string())));
    let step = ui.stream_key(RequestType::Normal, Some(key(KeyCode::Esc, 0)));
    assert_eq!(step, RequestStep::Done(RequestExit::Cancel));
    assert_eq!(ui.main_response.text, "ls ");
    assert_eq!(ui.state(), ShaiState::CommandGenerated);
}

#[test]
fn accept_and_accept_raw_differ() {
    let text = "Run this:\n```bash\nls -la\n```\nIt lists files.";
    let mut ui = ShaiUI::new(ask_args(Some("/tmp/buffer"), false), "ls");
    answer(&mut ui, RequestType::Normal, &[text]);
    assert_eq!(ui.on_key(ctrl('a'), None), MainAction::Quit(WriteBuffer::Yes));
    assert_eq!(ui.on_key(ctrl('r'), None), MainAction::Quit(WriteBuffer::Raw));
    assert_eq!(ui.written_text(WriteBuffer::Yes), Some("ls -la".to_string()));
    assert_eq!(ui.written_text(WriteBuffer::Raw), Some(text.to_string()));
    assert_eq!(ui.written_text(WriteBuffer::No), None);
}

#[test]
fn nothing_written_without_edit_file_or_in_explain_mode() {
    let mut ui = ShaiUI::new(ask_args(None, true), "");
    answer(&mut ui, RequestType::Normal, &["ls"]);
    assert_eq!(ui.written_text(WriteBuffer::Yes), None);
    assert_eq!(ui.echoed_text(), Some("ls".to_string()));
    let ex = ShaiUI::new(explain_args(), "");
    assert_eq!(ex.written_text(WriteBuffer::Raw), None);
    assert_eq!(ex.echoed_text(), None);
}

#[test]
fn render_joins_blocks_or_keeps_text() {
    assert_eq!(render_for_write("ls -la"), "ls -la");
    assert_eq!(render_for_write("```\na\n```\n```sh\nb\n```"), "a\nb");
}

#[test]
fn text_edits_build_the_input_line() {
    let mut ui = ShaiUI::new(ask_args(None, false), "");
    for c in ['l', 's'] {
        assert_eq!(
            ui.on_key(plain(c), Some(InputRequest::InsertChar(c))),
            MainAction::Continue
        );
    }
    // moving the cursor keeps the text, and the next character goes there
    ui.on_key(key(KeyCode::Left, 0), Some(InputRequest::GoToPrevChar));
    assert_eq!(ui.input_text, "ls");
    ui.on_key(plain('x'), Some(InputRequest::InsertChar('x')));
    assert_eq!(ui.input_text, "lxs");
    ui.on_key(key(KeyCode::Backspace, 0), Some(InputRequest::DeletePrevChar));
    assert_eq!(ui.input_text, "ls");
    // keys the editor has no request for leave the line alone
    ui.on_key(key(KeyCode::Tab, 0), None);
    assert_eq!(ui.input_text, "ls");
    assert_eq!(ui.request_prompt(RequestType::Normal), "ls");
}

#[test]
fn accept_is_an_edit_before_an_answer() {
    let mut ui = ShaiUI::new(ask_args(None, false), "abc");
    assert_eq!(ui.handle_key(ctrl('a')), Some(UiIntent::TextEdit));
    ui.on_key(ctrl('a'), Some(InputRequest::GoToStart));
    assert_eq!(ui.input_cursor, 0);
    assert_eq!(ui.input_text, "abc");
}

#[test]
fn intent_keys_do_not_reach_the_line() {
    let mut ui = ShaiUI::new(explain_args(), "ls");
    answer(&mut ui, RequestType::Normal, &["a\nb\nc"]);
    ui.on_key(ctrl('d'), Some(InputRequest::DeleteLine));
    assert_eq!(ui.input_text, "ls");
    assert_eq!(ui.main_response.scroll, 1);
}

#[test]
fn explain_resize_and_focus() {
    let mut ui = ShaiUI::new(ask_args(None, false), "ls");
    answer(&mut ui, RequestType::Normal, &["ls -la"]);
    assert_eq!(ui.handle_key(key(KeyCode::Tab, 0)), Some(UiIntent::TextEdit));
    assert_eq!(ui.on_key(ctrl('e'), None), MainAction::Request(RequestType::Auxiliary));
    assert_eq!(ui.layout, Layout::InputResponseExplanation);
    assert_eq!(ui.response_focus, Focus::AuxiliaryResponse);
    assert_eq!(ui.request_task(RequestType::Auxiliary), Task::Explain);
    assert_eq!(ui.request_prompt(RequestType::Auxiliary), "ls -la");
    answer(&mut ui, RequestType::Auxiliary, &["lists ", "files"]);
    assert_eq!(ui.auxiliary_response.text, "lists files");
    assert_eq!(ui.main_response.text, "ls -la");
    assert_eq!(ui.state(), ShaiState::AuxExplanationGenerated);
    ui.on_key(key(KeyCode::Down, SHIFT), None);
    assert_eq!(ui.main_response_size, 4);
    ui.on_key(key(KeyCode::Up, SHIFT), None);
    ui.on_key(key(KeyCode::Up, SHIFT), None);
    assert_eq!(ui.main_response_size, 3);
    ui.on_key(key(KeyCode::Tab, 0), None);
    assert_eq!(ui.response_focus, Focus::MainResponse);
    assert_eq!(ui.on_key(ctrl('c'), None), MainAction::Quit(WriteBuffer::No));
}

#[test]
fn new_main_request_drops_explanation() {
    let mut ui = ShaiUI::new(ask_args(None, false), "ls");
    answer(&mut ui, RequestType::Normal, &["ls -la"]);
    ui.on_key(ctrl('e'), None);
    answer(&mut ui, RequestType::Auxiliary, &["lists"]);
    answer(&mut ui, RequestType::Normal, &["ls"]);
    assert_eq!(ui.auxiliary_response.text, "");
    assert_eq!(ui.layout, Layout::InputResponse);
    assert_eq!(ui.response_focus, Focus::MainResponse);
    assert_eq!(ui.state(), ShaiState::CommandGenerated);
}

#[test]
fn processing_keys() {
    let mut ui = ShaiUI::new(ask_args(None, false), "ls");
    ui.wait_tick(RequestType::Normal, None, None);
    assert_eq!(ui.handle_key(key(KeyCode::Esc, 0)), Some(UiIntent::Cancel));
    assert_eq!(ui.handle_key(ctrl('c')), Some(UiIntent::ForceExit));
    assert_eq!(ui.handle_key(plain('x')), None);
}

#[test]
fn request_tasks_by_mode() {
    let ui = ShaiUI::new(ask_args(None, false), "");
    assert_eq!(ui.request_task(RequestType::Normal), Task::GenerateCommand);
    let ex = ShaiUI::new(explain_args(), "");
    assert_eq!(ex.request_task(RequestType::Normal), Task::Explain);
    assert_eq!(ui.title(), "What should shai's command do?");
    assert_eq!(ex.title(), "What command should shai explain?");
}
