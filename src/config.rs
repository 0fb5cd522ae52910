use vstd::prelude::*;
use vstd::string::StringExecFns;

verus! {

/// The chat models that can answer a request.
#[allow(non_camel_case_types)]
#[derive(Clone, Copy, Debug, PartialEq, Eq, Structural)]
pub enum OpenAIGPTModel {
    GPT35Turbo,
    GPT35Turbo_16k,
    GPT4,
    GPT4_32k,
}

impl OpenAIGPTModel {
    /// The identifier the chat endpoint knows the model by.
    pub open spec fn spec_api_name(self) -> Seq<char> {
        match self {
            OpenAIGPTModel::GPT35Turbo => "gpt-3.5-turbo"@,
            OpenAIGPTModel::GPT35Turbo_16k => "gpt-3.5-turbo-16k"@,
            OpenAIGPTModel::GPT4 => "gpt-4"@,
            OpenAIGPTModel::GPT4_32k => "gpt-4-32k"@,
        }
    }

    pub fn api_name(&self) -> (r: String)
        ensures
            r@ == self.spec_api_name(),
    {
        match self {
            OpenAIGPTModel::GPT35Turbo => String::from_str("gpt-3.5-turbo"),
            OpenAIGPTModel::GPT35Turbo_16k => String::from_str("gpt-3.5-turbo-16k"),
            OpenAIGPTModel::GPT4 => String::from_str("gpt-4"),
            OpenAIGPTModel::GPT4_32k => String::from_str("gpt-4-32k"),
        }
    }
}

/// The provider and model that answers requests.
#[derive(Clone, Copy, Debug, PartialEq, Eq, Structural)]
pub enum ModelKind {
    OpenAIGPT(OpenAIGPTModel),
}

/// What a request asks of the model.
#[derive(Clone, Copy, Debug, PartialEq, Eq, Structural)]
pub enum Task {
    GenerateCommand,
    Explain,
}

/// The model choices offered on the command line.
#[allow(non_camel_case_types)]
#[derive(Clone, Copy, Debug, PartialEq, Eq, Structural)]
pub enum ArgModelKind {
    OpenAIGPT35Turbo,
    OpenAIGPT35Turbo_16k,
    OpenAIGPT4,
    OpenAIGPT4_32k,
}

/// The shells an integration script can be generated for.
#[derive(Clone, Copy, Debug, PartialEq, Eq, Structural)]
pub enum Shell {
    Bash,
    Zsh,
    Fish,
    Nushell,
    PowerShell,
}

/// Options of the command-generation mode.
#[derive(Clone, Debug)]
pub struct AskArgs {
    pub operating_system: String,
    pub shell: String,
    pub environment: Option<Vec<String>>,
    pub program: Option<Vec<String>>,
    pub cwd: bool,
    pub depth: Option<u32>,
    pub model: ArgModelKind,
    pub write_stdout: bool,
    pub edit_file: Option<String>,
}

/// Options of the explanation mode.
#[derive(Clone, Debug)]
pub struct ExplainArgs {
    pub operating_system: String,
    pub shell: String,
    pub environment: Option<Vec<String>>,
    pub cwd: bool,
    pub depth: Option<u32>,
    pub model: ArgModelKind,
    pub write_stdout: bool,
    pub edit_file: Option<String>,
}

/// Options of the integration script generator.
#[derive(Clone, Copy, Debug)]
pub struct IntegrationScriptArgs {
    pub shell: Shell,
}

/// The subcommands of the program.
#[derive(Clone, Debug)]
pub enum ShaiCLIArgs {
    Ask(AskArgs),
    Explain(ExplainArgs),
    GenerateScript(IntegrationScriptArgs),
}

/// The options of an interactive session, by mode.
#[derive(Clone, Debug)]
pub enum ShaiArgs {
    Ask(AskArgs),
    Explain(ExplainArgs),
}

impl ShaiArgs {
    pub open spec fn spec_edit_file(&self) -> Option<String> {
        match self {
            ShaiArgs::Ask(args) => args.edit_file,
            ShaiArgs::Explain(args) => args.edit_file,
        }
    }

    pub open spec fn spec_write_stdout(&self) -> bool {
        match self {
            ShaiArgs::Ask(args) => args.write_stdout,
            ShaiArgs::Explain(args) => args.write_stdout,
        }
    }

    /// The file the input is seeded from and, in command mode, the answer is
    /// written to.
    pub fn edit_file(&self) -> (r: &Option<String>)
        ensures
            *r == self.spec_edit_file(),
    {
        match self {
            ShaiArgs::Ask(args) => &args.edit_file,
            ShaiArgs::Explain(args) => &args.edit_file,
        }
    }

    /// Whether the main answer is echoed to standard output at the end.
    pub fn write_stdout(&self) -> (r: bool)
        ensures
            r == self.spec_write_stdout(),
    {
        match self {
            ShaiArgs::Ask(args) => args.write_stdout,
            ShaiArgs::Explain(args) => args.write_stdout,
        }
    }
}

/// Settings of the command-generation mode, as the request side reads them.
#[derive(Clone, Debug)]
pub struct AskConfig {
    pub operating_system: String,
    pub shell: String,
    pub cwd: bool,
    pub depth: Option<u32>,
    pub environment: Option<Vec<String>>,
    pub programs: Option<Vec<String>>,
    pub model: ModelKind,
}

/// Settings of the explanation mode, as the request side reads them.
#[derive(Clone, Debug)]
pub struct ExplainConfig {
    pub operating_system: String,
    pub shell: String,
    pub cwd: bool,
    pub depth: Option<u32>,
    pub environment: Option<Vec<String>>,
    pub model: ModelKind,
}

/// The settings of one mode; only command generation carries a program list.
#[derive(Clone, Debug)]
pub enum ConfigKind {
    Ask(AskConfig),
    Explain(ExplainConfig),
}

/// The model a command-line choice stands for.
pub open spec fn model_of_arg(a: ArgModelKind) -> ModelKind {
    match a {
        ArgModelKind::OpenAIGPT35Turbo => ModelKind::OpenAIGPT(OpenAIGPTModel::GPT35Turbo),
        ArgModelKind::OpenAIGPT35Turbo_16k => ModelKind::OpenAIGPT(OpenAIGPTModel::GPT35Turbo_16k),
        ArgModelKind::OpenAIGPT4 => ModelKind::OpenAIGPT(OpenAIGPTModel::GPT4),
        ArgModelKind::OpenAIGPT4_32k => ModelKind::OpenAIGPT(OpenAIGPTModel::GPT4_32k),
    }
}

impl From<ArgModelKind> for ModelKind {
    fn from(value: ArgModelKind) -> (r: ModelKind) {
        match value {
            ArgModelKind::OpenAIGPT35Turbo => ModelKind::OpenAIGPT(OpenAIGPTModel::GPT35Turbo),
            ArgModelKind::OpenAIGPT35Turbo_16k => ModelKind::OpenAIGPT(
                OpenAIGPTModel::GPT35Turbo_16k,
            ),
            ArgModelKind::OpenAIGPT4 => ModelKind::OpenAIGPT(OpenAIGPTModel::GPT4),
            ArgModelKind::OpenAIGPT4_32k => ModelKind::OpenAIGPT(OpenAIGPTModel::GPT4_32k),
        }
    }
}

impl vstd::std_specs::convert::FromSpecImpl<ArgModelKind> for ModelKind {
    open spec fn obeys_from_spec() -> bool {
        true
    }

    open spec fn from_spec(v: ArgModelKind) -> ModelKind {
        model_of_arg(v)
    }
}

/// The settings that command-generation options give.
pub open spec fn ask_config_of(a: AskArgs) -> AskConfig {
    AskConfig {
        operating_system: a.operating_system,
        shell: a.shell,
        cwd: a.cwd,
        depth: a.depth,
        environment: a.environment,
        programs: a.program,
        model: model_of_arg(a.model),
    }
}

impl From<AskArgs> for AskConfig {
    fn from(value: AskArgs) -> (r: AskConfig) {
        AskConfig {
            operating_system: value.operating_system,
            shell: value.shell,
            cwd: value.cwd,
            depth: value.depth,
            environment: value.environment,
            programs: value.program,
            model: ModelKind::from(value.model),
        }
    }
}

impl vstd::std_specs::convert::FromSpecImpl<AskArgs> for AskConfig {
    open spec fn obeys_from_spec() -> bool {
        true
    }

    open spec fn from_spec(v: AskArgs) -> AskConfig {
        ask_config_of(v)
    }
}

/// The settings that explanation options give.
pub open spec fn explain_config_of(a: ExplainArgs) -> ExplainConfig {
    ExplainConfig {
        operating_system: a.operating_system,
        shell: a.shell,
        cwd: a.cwd,
        depth: a.depth,
        environment: a.environment,
        model: model_of_arg(a.model),
    }
}

impl From<ExplainArgs> for ExplainConfig {
    fn from(value: ExplainArgs) -> (r: ExplainConfig) {
        ExplainConfig {
            operating_system: value.operating_system,
            shell: value.shell,
            cwd: value.cwd,
            depth: value.depth,
            environment: value.environment,
            model: ModelKind::from(value.model),
        }
    }
}

impl vstd::std_specs::convert::FromSpecImpl<ExplainArgs> for ExplainConfig {
    open spec fn obeys_from_spec() -> bool {
        true
    }

    open spec fn from_spec(v: ExplainArgs) -> ExplainConfig {
        explain_config_of(v)
    }
}

/// The settings that session options give.
pub open spec fn config_of(a: ShaiArgs) -> ConfigKind {
    match a {
        ShaiArgs::Ask(args) => ConfigKind::Ask(ask_config_of(args)),
        ShaiArgs::Explain(args) => ConfigKind::Explain(explain_config_of(args)),
    }
}

impl From<ShaiArgs> for ConfigKind {
    fn from(value: ShaiArgs) -> (r: ConfigKind) {
        match value {
            ShaiArgs::Ask(args) => ConfigKind::Ask(AskConfig::from(args)),
            ShaiArgs::Explain(args) => ConfigKind::Explain(ExplainConfig::from(args)),
        }
    }
}

impl vstd::std_specs::convert::FromSpecImpl<ShaiArgs> for ConfigKind {
    open spec fn obeys_from_spec() -> bool {
        true
    }

    open spec fn from_spec(v: ShaiArgs) -> ConfigKind {
        config_of(v)
    }
}

impl ConfigKind {
    pub open spec fn spec_model(&self) -> ModelKind {
        match self {
            ConfigKind::Ask(config) => config.model,
            ConfigKind::Explain(config) => config.model,
        }
    }

    /// The model this mode's requests go to.
    pub fn model(&self) -> (r: &ModelKind)
        ensures
            *r == self.spec_model(),
    {
        match self {
            ConfigKind::Ask(config) => &config.model,
            ConfigKind::Explain(config) => &config.model,
        }
    }

    /// The tree depth, when the directory tree is to be described.
    pub fn depth(&self) -> (r: Option<u32>)
        ensures
            r == (match self {
                ConfigKind::Ask(config) => config.depth,
                ConfigKind::Explain(config) => config.depth,
            }),
    {
        match self {
            ConfigKind::Ask(config) => config.depth,
            ConfigKind::Explain(config) => config.depth,
        }
    }

    /// Whether the working directory is to be described.
    pub fn cwd(&self) -> (r: bool)
        ensures
            r == (match self {
                ConfigKind::Ask(config) => config.cwd,
                ConfigKind::Explain(config) => config.cwd,
            }),
    {
        match self {
            ConfigKind::Ask(config) => config.cwd,
            ConfigKind::Explain(config) => config.cwd,
        }
    }
}

impl Default for AskConfig {
    fn default() -> (r: AskConfig)
        ensures
            r.operating_system@ == "Linux"@,
            r.shell@ == "bash"@,
            !r.cwd,
            r.depth is None,
            r.environment is None,
            r.programs is None,
            r.model == ModelKind::OpenAIGPT(OpenAIGPTModel::GPT35Turbo),
    {
        AskConfig {
            operating_system: String::from_str("Linux"),
            shell: String::from_str("bash"),
            cwd: false,
            depth: None,
            environment: None,
            programs: None,
            model: ModelKind::OpenAIGPT(OpenAIGPTModel::GPT35Turbo),
        }
    }
}

impl Default for ExplainConfig {
    fn default() -> (r: ExplainConfig)
        ensures
            r.operating_system@ == "Linux"@,
            r.shell@ == "bash"@,
            !r.cwd,
            r.depth is None,
            r.environment is None,
            r.model == ModelKind::OpenAIGPT(OpenAIGPTModel::GPT35Turbo),
    {
        ExplainConfig {
            operating_system: String::from_str("Linux"),
            shell: String::from_str("bash"),
            cwd: false,
            depth: None,
            environment: None,
            model: ModelKind::OpenAIGPT(OpenAIGPTModel::GPT35Turbo),
        }
    }
}

} // verus!
