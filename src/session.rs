use vstd::prelude::*;
use vstd::string::StrSliceExecFns;
use vstd::string::StringExecFns;

use crate::code_blocks::{code_blocks, extract_code_blocks};
use crate::config::{
    AskArgs, AskConfig, ConfigKind, ExplainArgs, ExplainConfig, ModelKind, ShaiArgs, Task,
    config_of,
};
use crate::context::joined;
use crate::keys::{edit_input, input_after, moves_cursor_only, KeyCode, KeyInput, SHIFT};
use crate::openai::OpenAIError;
use crate::progress::ShaiRequestProgress;
use crate::response::{scrolled, Response};
use crate::text::line_count;

verus! {

/// Which panes are on screen.
#[derive(Clone, Copy, Debug, PartialEq, Eq, Structural)]
pub enum Layout {
    /// The input line and the main answer.
    InputResponse,
    /// The input line, the main answer and its explanation.
    InputResponseExplanation,
}

/// The answer pane that scroll keys act on.
#[derive(Clone, Copy, Debug, PartialEq, Eq, Structural)]
pub enum Focus {
    MainResponse,
    AuxiliaryResponse,
}

/// What the user currently sees, which decides the keys that are live.
#[derive(Clone, Copy, Debug, PartialEq, Eq, Structural)]
pub enum ShaiState {
    Started,
    Processing,
    ExplanationGenerated,
    CommandGenerated,
    AuxExplanationGenerated,
}

/// The pane a request fills: the main answer from the input line, or the
/// explanation of the main answer.
#[derive(Clone, Copy, Debug, PartialEq, Eq, Structural)]
pub enum RequestType {
    Normal,
    Auxiliary,
}

/// How a request ended.
#[derive(Clone, Copy, Debug, PartialEq, Eq, Structural)]
pub enum RequestExit {
    /// The user cancelled it; the session goes on.
    Cancel,
    /// The user ended the session.
    Exit,
    /// The whole answer arrived.
    Finished,
    /// The request could not be sent or its answer broke off; what arrived
    /// stays.
    Failed,
}

/// What the session writes to the edit file when it ends.
#[derive(Clone, Copy, Debug, PartialEq, Eq, Structural)]
pub enum WriteBuffer {
    /// The code blocks of the answer, or the whole answer if it has none.
    Yes,
    /// The whole answer as it came.
    Raw,
    /// Nothing.
    No,
}

/// What a key press asks for.
#[derive(Clone, Copy, Debug, PartialEq, Eq, Structural)]
pub enum UiIntent {
    Submit,
    ForceExit,
    Cancel,
    Accept,
    AcceptRaw,
    Explain,
    ScrollUp,
    ScrollDown,
    ShrinkMain,
    GrowMain,
    ToggleFocus,
    TextEdit,
}

/// What the main loop does after a key press.
#[derive(Clone, Copy, Debug, PartialEq, Eq, Structural)]
pub enum MainAction {
    /// Wait for the next key.
    Continue,
    /// End the session, writing as given.
    Quit(WriteBuffer),
    /// Send a request for the given pane.
    Request(RequestType),
}

/// Where a request stands after one step.
#[derive(Clone, Copy, Debug, PartialEq, Eq, Structural)]
pub enum RequestStep {
    /// Still waiting for the answer to start.
    Waiting,
    /// The answer is arriving.
    Streaming,
    /// The request is over.
    Done(RequestExit),
}

/// The state of an interactive session: its settings, the input line, the
/// two answer panes and how they are laid out.
#[derive(Debug)]
pub struct ShaiUI {
    pub config: ConfigKind,
    pub write_stdout: bool,
    pub edit_file: Option<String>,
    pub layout: Layout,
    pub input_text: String,
    pub input_cursor: usize,
    pub main_response: Response,
    pub auxiliary_response: Response,
    pub main_response_size: u16,
    pub response_focus: Focus,
}

/// The state shown for a session in the given mode with the given pane texts
/// and spinners.
pub open spec fn derived_state(
    ask: bool,
    main_text: Seq<char>,
    aux_text: Seq<char>,
    main_progress: ShaiRequestProgress,
    aux_progress: ShaiRequestProgress,
) -> ShaiState {
    if main_progress != ShaiRequestProgress::Idle || aux_progress != ShaiRequestProgress::Idle {
        ShaiState::Processing
    } else if main_text.len() == 0 {
        ShaiState::Started
    } else if !ask {
        ShaiState::ExplanationGenerated
    } else if aux_text.len() == 0 {
        ShaiState::CommandGenerated
    } else {
        ShaiState::AuxExplanationGenerated
    }
}

/// How a key press ends a request, if it does: Escape cancels, Control-C
/// ends the session.
pub open spec fn request_key(key: KeyInput) -> Option<RequestExit> {
    if key.code == KeyCode::Esc {
        Some(RequestExit::Cancel)
    } else if key.is_ctrl('c') {
        Some(RequestExit::Exit)
    } else {
        None
    }
}

/// The intent of a key press in a state, with the given panes on screen.
pub open spec fn intent_of(state: ShaiState, layout: Layout, key: KeyInput) -> Option<UiIntent> {
    let answered = state == ShaiState::CommandGenerated || state
        == ShaiState::AuxExplanationGenerated;
    let explained = state == ShaiState::ExplanationGenerated || state
        == ShaiState::AuxExplanationGenerated;
    if state == ShaiState::Processing {
        match request_key(key) {
            Some(RequestExit::Cancel) => Some(UiIntent::Cancel),
            Some(_) => Some(UiIntent::ForceExit),
            None => None,
        }
    } else if key.is_ctrl('c') {
        Some(UiIntent::ForceExit)
    } else if key.is_ctrl('r') && answered {
        Some(UiIntent::AcceptRaw)
    } else if key.is_ctrl('a') && answered {
        Some(UiIntent::Accept)
    } else if key.code == KeyCode::Enter {
        Some(UiIntent::Submit)
    } else if key.is_ctrl('e') && state == ShaiState::CommandGenerated {
        Some(UiIntent::Explain)
    } else if key.is_ctrl('d') && explained {
        Some(UiIntent::ScrollDown)
    } else if key.is_ctrl('u') && explained {
        Some(UiIntent::ScrollUp)
    } else if key.code == KeyCode::Up && key.modifiers == SHIFT && state
        == ShaiState::AuxExplanationGenerated {
        Some(UiIntent::ShrinkMain)
    } else if key.code == KeyCode::Down && key.modifiers == SHIFT && state
        == ShaiState::AuxExplanationGenerated {
        Some(UiIntent::GrowMain)
    } else if key.code == KeyCode::Tab && layout == Layout::InputResponseExplanation {
        Some(UiIntent::ToggleFocus)
    } else {
        Some(UiIntent::TextEdit)
    }
}

/// What the main loop does for an intent.
pub open spec fn action_of(intent: Option<UiIntent>) -> MainAction {
    match intent {
        Some(UiIntent::ForceExit) => MainAction::Quit(WriteBuffer::No),
        Some(UiIntent::AcceptRaw) => MainAction::Quit(WriteBuffer::Raw),
        Some(UiIntent::Accept) => MainAction::Quit(WriteBuffer::Yes),
        Some(UiIntent::Submit) => MainAction::Request(RequestType::Normal),
        Some(UiIntent::Explain) => MainAction::Request(RequestType::Auxiliary),
        _ => MainAction::Continue,
    }
}

/// The smallest height of the main pane.
pub const MIN_MAIN_SIZE: u16 = 3;

/// The main pane one line smaller, but not below the smallest height.
pub open spec fn shrunk(size: u16) -> u16 {
    if size > MIN_MAIN_SIZE + 1 {
        (size - 1) as u16
    } else {
        MIN_MAIN_SIZE
    }
}

/// The main pane one line larger, as far as the counter goes.
pub open spec fn grown(size: u16) -> u16 {
    if size < u16::MAX {
        (size + 1) as u16
    } else {
        size
    }
}

/// The other pane.
pub open spec fn toggled(f: Focus) -> Focus {
    match f {
        Focus::MainResponse => Focus::AuxiliaryResponse,
        Focus::AuxiliaryResponse => Focus::MainResponse,
    }
}

/// `r` scrolled half a page, down or up.
pub open spec fn scrolled_pane(r: Response, down: bool) -> Response {
    Response {
        scroll: scrolled(r.scroll as int, line_count(r.text@) as int, down) as usize,
        ..r
    }
}

/// The pane `p` after an intent, where `focused` says whether scroll keys act
/// on it.
pub open spec fn pane_after(p: Response, intent: Option<UiIntent>, focused: bool) -> Response {
    if focused && intent == Some(UiIntent::ScrollDown) {
        scrolled_pane(p, true)
    } else if focused && intent == Some(UiIntent::ScrollUp) {
        scrolled_pane(p, false)
    } else {
        p
    }
}

/// The input line after an intent: a text edit applies the line editor's
/// request for the key, if it has one; nothing else touches the line.
pub open spec fn input_follows(
    o: ShaiUI,
    intent: Option<UiIntent>,
    edit: Option<tui_input::InputRequest>,
    n: ShaiUI,
) -> bool {
    if intent == Some(UiIntent::TextEdit) && edit is Some {
        &&& (n.input_text@, n.input_cursor as nat) == input_after(
            o.input_text@,
            o.input_cursor as nat,
            edit->Some_0,
        )
        &&& moves_cursor_only(edit->Some_0) ==> n.input_text@ == o.input_text@
    } else {
        n.input_text == o.input_text && n.input_cursor == o.input_cursor
    }
}

/// One key press in the main loop takes the session from `o` to `n` with
/// action `a`. `edit` is the line editor's request for the same key.
#[verifier::opaque]
pub open spec fn key_transition(
    o: ShaiUI,
    key: KeyInput,
    edit: Option<tui_input::InputRequest>,
    n: ShaiUI,
    a: MainAction,
) -> bool {
    let intent = intent_of(o.spec_state(), o.layout, key);
    &&& a == action_of(intent)
    &&& n.config == o.config
    &&& n.write_stdout == o.write_stdout
    &&& n.edit_file == o.edit_file
    &&& n.layout == if intent == Some(UiIntent::Explain) {
        Layout::InputResponseExplanation
    } else {
        o.layout
    }
    &&& n.response_focus == if intent == Some(UiIntent::Explain) {
        Focus::AuxiliaryResponse
    } else if intent == Some(UiIntent::ToggleFocus) {
        toggled(o.response_focus)
    } else {
        o.response_focus
    }
    &&& n.main_response_size == if intent == Some(UiIntent::ShrinkMain) {
        shrunk(o.main_response_size)
    } else if intent == Some(UiIntent::GrowMain) {
        grown(o.main_response_size)
    } else {
        o.main_response_size
    }
    &&& n.main_response == pane_after(
        o.main_response,
        intent,
        o.response_focus == Focus::MainResponse,
    )
    &&& n.auxiliary_response == pane_after(
        o.auxiliary_response,
        intent,
        o.response_focus == Focus::AuxiliaryResponse,
    )
    &&& input_follows(o, intent, edit, n)
}

/// A pane that holds no text and is at the top.
pub open spec fn blank(p: Response) -> bool {
    p.text@.len() == 0 && p.scroll == 0
}

/// `n` is `o` with the pane of `rt` cleared for a new answer, with spinner
/// `progress`. A new main answer also clears the explanation and its pane.
pub open spec fn cleared_for(o: ShaiUI, rt: RequestType, n: ShaiUI, progress: ShaiRequestProgress) -> bool {
    &&& n.config == o.config
    &&& n.write_stdout == o.write_stdout
    &&& n.edit_file == o.edit_file
    &&& n.input_text == o.input_text
    &&& n.input_cursor == o.input_cursor
    &&& n.main_response_size == o.main_response_size
    &&& match rt {
        RequestType::Normal => {
            &&& blank(n.main_response)
            &&& n.main_response.request_state == progress
            &&& n.auxiliary_response.is_empty_pane()
            &&& n.layout == Layout::InputResponse
            &&& n.response_focus == Focus::MainResponse
        },
        RequestType::Auxiliary => {
            &&& blank(n.auxiliary_response)
            &&& n.auxiliary_response.request_state == progress
            &&& n.main_response == o.main_response
            &&& n.layout == o.layout
            &&& n.response_focus == o.response_focus
        },
    }
}

/// `n` is `o` with the spinner of the pane of `rt` set to `progress` and the
/// text of that pane extended by `added`; all else is kept.
pub open spec fn slot_updated(
    o: ShaiUI,
    rt: RequestType,
    n: ShaiUI,
    added: Seq<char>,
    progress: ShaiRequestProgress,
) -> bool {
    &&& n.config == o.config
    &&& n.write_stdout == o.write_stdout
    &&& n.edit_file == o.edit_file
    &&& n.input_text == o.input_text
    &&& n.input_cursor == o.input_cursor
    &&& n.main_response_size == o.main_response_size
    &&& n.layout == o.layout
    &&& n.response_focus == o.response_focus
    &&& n.slot(rt).text@ == o.slot(rt).text@ + added
    &&& n.slot(rt).scroll == o.slot(rt).scroll
    &&& n.slot(rt).request_state == progress
    &&& n.other_slot(rt) == o.other_slot(rt)
}

/// One tick of waiting for an answer for pane `rt` to start takes the
/// session from `o` to `n` with step `r` (see `ShaiUI::wait_tick`).
pub open spec fn wait_transition(
    o: ShaiUI,
    rt: RequestType,
    key: Option<KeyInput>,
    setup: Option<Result<(), OpenAIError>>,
    n: ShaiUI,
    r: RequestStep,
) -> bool {
    match (if key is Some { request_key(key->Some_0) } else { None }) {
        Some(RequestExit::Cancel) => r == RequestStep::Done(RequestExit::Cancel)
            && cleared_for(o, rt, n, ShaiRequestProgress::Idle),
        Some(_) => r == RequestStep::Done(RequestExit::Exit) && slot_updated(
            o,
            rt,
            n,
            seq![],
            ShaiRequestProgress::Idle,
        ),
        None => match setup {
            Some(Ok(_)) => r == RequestStep::Streaming && cleared_for(
                o,
                rt,
                n,
                ShaiRequestProgress::S0,
            ),
            Some(Err(_)) => r == RequestStep::Done(RequestExit::Failed) && slot_updated(
                o,
                rt,
                n,
                seq![],
                ShaiRequestProgress::Idle,
            ),
            None => r == RequestStep::Waiting && slot_updated(
                o,
                rt,
                n,
                seq![],
                o.slot(rt).request_state.spec_next_state(),
            ),
        },
    }
}

/// One item of the answer stream for pane `rt` takes the session from `o` to
/// `n` with step `r` (see `ShaiUI::stream_item`).
pub open spec fn item_transition(
    o: ShaiUI,
    rt: RequestType,
    item: Option<Result<String, OpenAIError>>,
    n: ShaiUI,
    r: RequestStep,
) -> bool {
    match item {
        None => r == RequestStep::Done(RequestExit::Finished) && slot_updated(
            o,
            rt,
            n,
            seq![],
            ShaiRequestProgress::Idle,
        ),
        Some(Err(_)) => r == RequestStep::Done(RequestExit::Failed) && slot_updated(
            o,
            rt,
            n,
            seq![],
            ShaiRequestProgress::Idle,
        ),
        Some(Ok(f)) => r == RequestStep::Streaming && slot_updated(
            o,
            rt,
            n,
            f@,
            o.slot(rt).request_state,
        ),
    }
}

/// A key press touches the input line only as `input_follows` says.
pub proof fn lemma_key_transition_input(
    o: ShaiUI,
    key: KeyInput,
    edit: Option<tui_input::InputRequest>,
    n: ShaiUI,
    a: MainAction,
)
    requires
        key_transition(o, key, edit, n, a),
    ensures
        input_follows(o, intent_of(o.spec_state(), o.layout, key), edit, n),
{
    reveal(key_transition);
}

/// The request that the session sends for a pane.
pub open spec fn task_of(config: ConfigKind, rt: RequestType) -> Task {
    match config {
        ConfigKind::Ask(_) => match rt {
            RequestType::Normal => Task::GenerateCommand,
            RequestType::Auxiliary => Task::Explain,
        },
        ConfigKind::Explain(_) => Task::Explain,
    }
}

/// What is written for an accepted answer: its code blocks joined by line
/// feeds, or the whole answer where it has none.
pub open spec fn rendered(t: Seq<char>) -> Seq<char> {
    if code_blocks(t).len() == 0 {
        t
    } else {
        joined(code_blocks(t), "\n"@)
    }
}

/// The text without leading and trailing whitespace.
pub uninterp spec fn trimmed(s: Seq<char>) -> Seq<char>;

/// Relies on `str::trim`: `s` without leading and trailing Unicode
/// whitespace.
#[verifier::external_body]
fn trim_text(s: &str) -> (r: String)
    ensures
        r@ == trimmed(s@),
{
    s.trim().to_string()
}


fn join_lines(items: &Vec<String>) -> (r: String)
    ensures
        r@ == joined(items@.map_values(|s: String| s@), "\n"@),
{
    let ghost views = items@.map_values(|s: String| s@);
    let mut r = String::new();
    let mut i: usize = 0;
    while i < items.len()
        invariant
            i <= items.len(),
            views == items@.map_values(|s: String| s@),
            r@ == joined(views.subrange(0, i as int), "\n"@),
        decreases items.len() - i,
    {
        proof {
            let p = views.subrange(0, i as int + 1);
            assert(p.drop_last() =~= views.subrange(0, i as int));
        }
        if i > 0 {
            r.append("\n");
        }
        r.append(items[i].as_str());
        i = i + 1;
    }
    assert(views.subrange(0, i as int) =~= views);
    r
}

/// The text written for an accepted answer (see `rendered`).
pub fn render_for_write(text: &str) -> (r: String)
    ensures
        r@ == rendered(text@),
{
    let blocks = extract_code_blocks(text);
    if blocks.len() == 0 {
        String::from_str(text)
    } else {
        join_lines(&blocks)
    }
}

impl ShaiUI {
    pub open spec fn spec_is_ask(&self) -> bool {
        self.config is Ask
    }

    pub open spec fn spec_state(&self) -> ShaiState {
        derived_state(
            self.spec_is_ask(),
            self.main_response.text@,
            self.auxiliary_response.text@,
            self.main_response.request_state,
            self.auxiliary_response.request_state,
        )
    }

    /// The pane a request of type `rt` fills.
    pub open spec fn slot(&self, rt: RequestType) -> Response {
        match rt {
            RequestType::Normal => self.main_response,
            RequestType::Auxiliary => self.auxiliary_response,
        }
    }

    /// The pane a request of type `rt` leaves alone.
    pub open spec fn other_slot(&self, rt: RequestType) -> Response {
        match rt {
            RequestType::Normal => self.auxiliary_response,
            RequestType::Auxiliary => self.main_response,
        }
    }

    /// The main pane is never smaller than its smallest height.
    pub open spec fn wf(&self) -> bool {
        self.main_response_size >= MIN_MAIN_SIZE
    }

    /// A new session with the given options, its input line seeded with
    /// `seed` without surrounding whitespace and the cursor at its end.
    pub fn new(args: ShaiArgs, seed: &str) -> (r: ShaiUI)
        ensures
            r.wf(),
            r.config == config_of(args),
            r.write_stdout == args.spec_write_stdout(),
            r.edit_file == args.spec_edit_file(),
            r.input_text@ == trimmed(seed@),
            r.input_cursor == r.input_text@.len(),
            r.layout == Layout::InputResponse,
            r.response_focus == Focus::MainResponse,
            r.main_response.is_empty_pane(),
            r.auxiliary_response.is_empty_pane(),
            r.main_response_size == MIN_MAIN_SIZE,
    {
        let write_stdout = args.write_stdout();
        let (config, edit_file) = match args {
            ShaiArgs::Ask(a) => {
                let AskArgs {
                    operating_system,
                    shell,
                    environment,
                    program,
                    cwd,
                    depth,
                    model,
                    write_stdout: _,
                    edit_file,
                } = a;
                (
                    ConfigKind::Ask(
                        AskConfig {
                            operating_system,
                            shell,
                            cwd,
                            depth,
                            environment,
                            programs: program,
                            model: ModelKind::from(model),
                        },
                    ),
                    edit_file,
                )
            },
            ShaiArgs::Explain(a) => {
                let ExplainArgs {
                    operating_system,
                    shell,
                    environment,
                    cwd,
                    depth,
                    model,
                    write_stdout: _,
                    edit_file,
                } = a;
                (
                    ConfigKind::Explain(
                        ExplainConfig {
                            operating_system,
                            shell,
                            cwd,
                            depth,
                            environment,
                            model: ModelKind::from(model),
                        },
                    ),
                    edit_file,
                )
            },
        };
        let input_text = trim_text(seed);
        let input_cursor = input_text.as_str().unicode_len();
        ShaiUI {
            config,
            write_stdout,
            edit_file,
            layout: Layout::InputResponse,
            input_text,
            input_cursor,
            main_response: Response::default(),
            auxiliary_response: Response::default(),
            main_response_size: MIN_MAIN_SIZE,
            response_focus: Focus::MainResponse,
        }
    }

    /// Whether the session generates commands (rather than explaining them).
    pub fn is_ask(&self) -> (r: bool)
        ensures
            r == self.spec_is_ask(),
    {
        match self.config {
            ConfigKind::Ask(_) => true,
            ConfigKind::Explain(_) => false,
        }
    }

    /// What the user sees: a request in flight for either pane, nothing
    /// answered yet, or which answers are there.
    pub fn state(&self) -> (r: ShaiState)
        ensures
            r == self.spec_state(),
    {
        if self.main_response.request_state != ShaiRequestProgress::Idle
            || self.auxiliary_response.request_state != ShaiRequestProgress::Idle {
            ShaiState::Processing
        } else if self.main_response.text.as_str().is_empty() {
            ShaiState::Started
        } else if !self.is_ask() {
            ShaiState::ExplanationGenerated
        } else if self.auxiliary_response.text.as_str().is_empty() {
            ShaiState::CommandGenerated
        } else {
            ShaiState::AuxExplanationGenerated
        }
    }

    /// The intent of a key press in the current state.
    pub fn handle_key(&self, key: KeyInput) -> (r: Option<UiIntent>)
        ensures
            r == intent_of(self.spec_state(), self.layout, key),
    {
        let state = self.state();
        let answered = state == ShaiState::CommandGenerated || state
            == ShaiState::AuxExplanationGenerated;
        let explained = state == ShaiState::ExplanationGenerated || state
            == ShaiState::AuxExplanationGenerated;
        if state == ShaiState::Processing {
            match key_ends_request(key) {
                Some(RequestExit::Cancel) => Some(UiIntent::Cancel),
                Some(_) => Some(UiIntent::ForceExit),
                None => None,
            }
        } else if key.ctrl('c') {
            Some(UiIntent::ForceExit)
        } else if key.ctrl('r') && answered {
            Some(UiIntent::AcceptRaw)
        } else if key.ctrl('a') && answered {
            Some(UiIntent::Accept)
        } else if key.code == KeyCode::Enter {
            Some(UiIntent::Submit)
        } else if key.ctrl('e') && state == ShaiState::CommandGenerated {
            Some(UiIntent::Explain)
        } else if key.ctrl('d') && explained {
            Some(UiIntent::ScrollDown)
        } else if key.ctrl('u') && explained {
            Some(UiIntent::ScrollUp)
        } else if key.code == KeyCode::Up && key.modifiers == SHIFT && state
            == ShaiState::AuxExplanationGenerated {
            Some(UiIntent::ShrinkMain)
        } else if key.code == KeyCode::Down && key.modifiers == SHIFT && state
            == ShaiState::AuxExplanationGenerated {
            Some(UiIntent::GrowMain)
        } else if key.code == KeyCode::Tab && self.layout == Layout::InputResponseExplanation {
            Some(UiIntent::ToggleFocus)
        } else {
            Some(UiIntent::TextEdit)
        }
    }

    /// Handles one key press of the main loop. `edit` is the line editor's
    /// request for the same key, applied where the key edits the input line.
    pub fn on_key(&mut self, key: KeyInput, edit: Option<tui_input::InputRequest>) -> (r:
        MainAction)
        requires
            old(self).wf(),
        ensures
            final(self).wf(),
            key_transition(*old(self), key, edit, *final(self), r),
    {
        proof {
            reveal(key_transition);
        }
        let intent = self.handle_key(key);
        match intent {
            Some(UiIntent::ForceExit) => MainAction::Quit(WriteBuffer::No),
            Some(UiIntent::AcceptRaw) => MainAction::Quit(WriteBuffer::Raw),
            Some(UiIntent::Accept) => MainAction::Quit(WriteBuffer::Yes),
            Some(UiIntent::Submit) => MainAction::Request(RequestType::Normal),
            Some(UiIntent::Explain) => {
                self.layout = Layout::InputResponseExplanation;
                self.response_focus = Focus::AuxiliaryResponse;
                MainAction::Request(RequestType::Auxiliary)
            },
            Some(UiIntent::ScrollDown) => {
                match self.response_focus {
                    Focus::MainResponse => self.main_response.scroll_by(true),
                    Focus::AuxiliaryResponse => self.auxiliary_response.scroll_by(true),
                }
                MainAction::Continue
            },
            Some(UiIntent::ScrollUp) => {
                match self.response_focus {
                    Focus::MainResponse => self.main_response.scroll_by(false),
                    Focus::AuxiliaryResponse => self.auxiliary_response.scroll_by(false),
                }
                MainAction::Continue
            },
            Some(UiIntent::ShrinkMain) => {
                if self.main_response_size > MIN_MAIN_SIZE + 1 {
                    self.main_response_size = self.main_response_size - 1;
                } else {
                    self.main_response_size = MIN_MAIN_SIZE;
                }
                MainAction::Continue
            },
            Some(UiIntent::GrowMain) => {
                if self.main_response_size < u16::MAX {
                    self.main_response_size = self.main_response_size + 1;
                }
                MainAction::Continue
            },
            Some(UiIntent::ToggleFocus) => {
                self.response_focus = match self.response_focus {
                    Focus::MainResponse => Focus::AuxiliaryResponse,
                    Focus::AuxiliaryResponse => Focus::MainResponse,
                };
                MainAction::Continue
            },
            Some(UiIntent::TextEdit) => {
                match edit {
                    Some(req) => {
                        let (text, cursor) = edit_input(
                            self.input_text.as_str(),
                            self.input_cursor,
                            req,
                        );
                        self.input_text = text;
                        self.input_cursor = cursor;
                    },
                    None => {},
                }
                MainAction::Continue
            },
            _ => MainAction::Continue,
        }
    }
}

impl ShaiUI {
    /// The task a request for pane `rt` asks of the model.
    pub fn request_task(&self, rt: RequestType) -> (r: Task)
        ensures
            r == task_of(self.config, rt),
    {
        match self.config {
            ConfigKind::Ask(_) => match rt {
                RequestType::Normal => Task::GenerateCommand,
                RequestType::Auxiliary => Task::Explain,
            },
            ConfigKind::Explain(_) => Task::Explain,
        }
    }

    /// The user message of a request for pane `rt`: the input line for the
    /// main answer, the main answer for its explanation.
    pub fn request_prompt(&self, rt: RequestType) -> (r: String)
        ensures
            r@ == match rt {
                RequestType::Normal => self.input_text@,
                RequestType::Auxiliary => self.main_response.text@,
            },
    {
        match rt {
            RequestType::Normal => self.input_text.clone(),
            RequestType::Auxiliary => self.main_response.text.clone(),
        }
    }

    /// Clears the pane of `rt` for a new answer; a new main answer also
    /// drops the explanation and its pane.
    pub fn clear_response(&mut self, rt: RequestType)
        ensures
            cleared_for(*old(self), rt, *final(self), ShaiRequestProgress::Idle),
            final(self).wf() == old(self).wf(),
    {
        match rt {
            RequestType::Normal => {
                self.layout = Layout::InputResponse;
                self.response_focus = Focus::MainResponse;
                self.main_response.reset();
                self.auxiliary_response.reset();
            },
            RequestType::Auxiliary => {
                self.auxiliary_response.reset();
            },
        }
    }

    /// Appends a fragment of the answer to the pane of `rt`.
    pub fn append_message_response(&mut self, fragment: &str, rt: RequestType)
        ensures
            slot_updated(
                *old(self),
                rt,
                *final(self),
                fragment@,
                old(self).slot(rt).request_state,
            ),
            final(self).wf() == old(self).wf(),
    {
        match rt {
            RequestType::Normal => self.main_response.append(fragment),
            RequestType::Auxiliary => self.auxiliary_response.append(fragment),
        }
    }

    /// Moves the spinner of the pane of `rt` on, or stops it when the request
    /// has `finished`.
    pub fn update_request_state(&mut self, rt: RequestType, finished: bool)
        ensures
            slot_updated(
                *old(self),
                rt,
                *final(self),
                seq![],
                if finished {
                    ShaiRequestProgress::Idle
                } else {
                    old(self).slot(rt).request_state.spec_next_state()
                },
            ),
            final(self).wf() == old(self).wf(),
    {
        match rt {
            RequestType::Normal => {
                if finished {
                    self.main_response.settle();
                } else {
                    self.main_response.tick();
                }
                assert(self.main_response.text@ =~= old(self).main_response.text@ + seq![]);
            },
            RequestType::Auxiliary => {
                if finished {
                    self.auxiliary_response.settle();
                } else {
                    self.auxiliary_response.tick();
                }
                assert(self.auxiliary_response.text@ =~= old(self).auxiliary_response.text@
                    + seq![]);
            },
        }
    }

    /// One tick while waiting for the answer to a request for pane `rt` to
    /// start. `key` is the key pressed during the tick, if any; `setup` is
    /// how sending the request ended, once it has. Escape cancels: the pane
    /// is cleared and no text of the request ever reaches it. Control-C ends
    /// the session. A request that could not be sent leaves the pane as it
    /// was. Once the answer starts, the pane is cleared for it.
    pub fn wait_tick(
        &mut self,
        rt: RequestType,
        key: Option<KeyInput>,
        setup: Option<Result<(), OpenAIError>>,
    ) -> (r: RequestStep)
        requires
            old(self).wf(),
        ensures
            final(self).wf(),
            wait_transition(*old(self), rt, key, setup, *final(self), r),
    {
        let ends = match key {
            Some(k) => key_ends_request(k),
            None => None,
        };
        match ends {
            Some(RequestExit::Cancel) => {
                self.clear_response(rt);
                RequestStep::Done(RequestExit::Cancel)
            },
            Some(_) => {
                self.update_request_state(rt, true);
                RequestStep::Done(RequestExit::Exit)
            },
            None => match setup {
                Some(Ok(_)) => {
                    self.clear_response(rt);
                    self.update_request_state(rt, false);
                    RequestStep::Streaming
                },
                Some(Err(_)) => {
                    self.update_request_state(rt, true);
                    RequestStep::Done(RequestExit::Failed)
                },
                None => {
                    self.update_request_state(rt, false);
                    RequestStep::Waiting
                },
            },
        }
    }

    /// Takes the next item of the answer stream for pane `rt`: `None` when
    /// the stream has ended. A fragment is appended; the end of the stream or
    /// an error ends the request, and the text received so far stays.
    pub fn stream_item(&mut self, rt: RequestType, item: Option<Result<String, OpenAIError>>) -> (r:
        RequestStep)
        requires
            old(self).wf(),
        ensures
            final(self).wf(),
            item_transition(*old(self), rt, item, *final(self), r),
    {
        match item {
            None => {
                self.update_request_state(rt, true);
                RequestStep::Done(RequestExit::Finished)
            },
            Some(Err(_)) => {
                self.update_request_state(rt, true);
                RequestStep::Done(RequestExit::Failed)
            },
            Some(Ok(f)) => {
                self.append_message_response(f.as_str(), rt);
                RequestStep::Streaming
            },
        }
    }

    /// The key check after a fragment of the answer for pane `rt` was shown:
    /// Escape cancels and Control-C ends the session, keeping the text
    /// received so far; otherwise the spinner moves on.
    pub fn stream_key(&mut self, rt: RequestType, key: Option<KeyInput>) -> (r: RequestStep)
        requires
            old(self).wf(),
        ensures
            final(self).wf(),
            match (if key is Some { request_key(key->Some_0) } else { None }) {
                Some(e) => r == RequestStep::Done(e) && slot_updated(
                    *old(self),
                    rt,
                    *final(self),
                    seq![],
                    ShaiRequestProgress::Idle,
                ),
                None => r == RequestStep::Streaming && slot_updated(
                    *old(self),
                    rt,
                    *final(self),
                    seq![],
                    old(self).slot(rt).request_state.spec_next_state(),
                ),
            },
    {
        let ends = match key {
            Some(k) => key_ends_request(k),
            None => None,
        };
        match ends {
            Some(e) => {
                self.update_request_state(rt, true);
                RequestStep::Done(e)
            },
            None => {
                self.update_request_state(rt, false);
                RequestStep::Streaming
            },
        }
    }

    /// What goes into the edit file when the session ends with `wb`: only in
    /// command mode with an edit file, the rendered answer for an accept, the
    /// whole answer for a raw accept, nothing otherwise.
    pub fn written_text(&self, wb: WriteBuffer) -> (r: Option<String>)
        ensures
            match r {
                Some(t) => self.spec_is_ask() && self.edit_file is Some && match wb {
                    WriteBuffer::Yes => t@ == rendered(self.main_response.text@),
                    WriteBuffer::Raw => t@ == self.main_response.text@,
                    WriteBuffer::No => false,
                },
                None => !self.spec_is_ask() || self.edit_file is None || wb == WriteBuffer::No,
            },
    {
        if !self.is_ask() || self.edit_file.is_none() {
            return None;
        }
        match wb {
            WriteBuffer::Yes => Some(render_for_write(self.main_response.text.as_str())),
            WriteBuffer::Raw => Some(self.main_response.text.clone()),
            WriteBuffer::No => None,
        }
    }

    /// What is echoed to standard output when the session ends: the main
    /// answer, where the options ask for it.
    pub fn echoed_text(&self) -> (r: Option<String>)
        ensures
            match r {
                Some(t) => self.write_stdout && t@ == self.main_response.text@,
                None => !self.write_stdout,
            },
    {
        if self.write_stdout {
            Some(self.main_response.text.clone())
        } else {
            None
        }
    }

    /// The title of the input line, by mode.
    pub fn title(&self) -> (r: String)
        ensures
            r@ == if self.spec_is_ask() {
                "What should shai's command do?"@
            } else {
                "What command should shai explain?"@
            },
    {
        if self.is_ask() {
            String::from_str("What should shai's command do?")
        } else {
            String::from_str("What command should shai explain?")
        }
    }
}

/// How a key press ends a request (see `request_key`).
pub fn key_ends_request(key: KeyInput) -> (r: Option<RequestExit>)
    ensures
        r == request_key(key),
{
    if key.code == KeyCode::Esc {
        Some(RequestExit::Cancel)
    } else if key.ctrl('c') {
        Some(RequestExit::Exit)
    } else {
        None
    }
}

} // verus!
