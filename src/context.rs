use vstd::prelude::*;
use vstd::string::StringExecFns;

use crate::config::ConfigKind;

verus! {

/// What the model is told about the machine it writes commands for.
#[derive(Clone, Debug)]
pub struct Context {
    pub pwd: Option<String>,
    pub tree: Option<String>,
    pub operating_system: String,
    pub shell: String,
    pub environment: Option<String>,
    pub programs: Option<String>,
}

/// `items` with `sep` between each two of them.
pub open spec fn joined(items: Seq<Seq<char>>, sep: Seq<char>) -> Seq<char>
    decreases items.len(),
{
    if items.len() == 0 {
        seq![]
    } else if items.len() == 1 {
        items[0]
    } else {
        joined(items.drop_last(), sep) + sep + items.last()
    }
}

/// The names of `items`, separated by commas.
pub fn join_with_commas(items: &Vec<String>) -> (r: String)
    ensures
        r@ == joined(items@.map_values(|s: String| s@), ","@),
{
    let ghost views = items@.map_values(|s: String| s@);
    let mut r = String::new();
    let mut i: usize = 0;
    while i < items.len()
        invariant
            i <= items.len(),
            views == items@.map_values(|s: String| s@),
            r@ == joined(views.subrange(0, i as int), ","@),
        decreases items.len() - i,
    {
        proof {
            let p = views.subrange(0, i as int + 1);
            assert(p.drop_last() =~= views.subrange(0, i as int));
        }
        if i > 0 {
            r.append(",");
        }
        r.append(items[i].as_str());
        i = i + 1;
    }
    assert(views.subrange(0, i as int) =~= views);
    r
}

/// The list joined by commas, when there is a list.
pub open spec fn joined_option(items: Option<Vec<String>>) -> Option<Seq<char>> {
    match items {
        Some(v) => Some(joined(v@.map_values(|s: String| s@), ","@)),
        None => None,
    }
}

fn join_option(items: &Option<Vec<String>>) -> (r: Option<String>)
    ensures
        r matches Some(s) ==> joined_option(*items) == Some(s@),
        r is None ==> items is None,
{
    match items {
        Some(v) => Some(join_with_commas(v)),
        None => None,
    }
}

/// `text` when `keep` holds.
pub open spec fn kept(keep: bool, text: Option<String>) -> Option<Seq<char>> {
    if keep {
        match text {
            Some(s) => Some(s@),
            None => None,
        }
    } else {
        None
    }
}

/// A view of an optional text.
pub open spec fn opt_view(text: Option<String>) -> Option<Seq<char>> {
    match text {
        Some(s) => Some(s@),
        None => None,
    }
}

impl Context {
    /// The context a mode's settings ask for. `pwd` is the working directory
    /// and `tree` the directory listing, as far as they could be read; each is
    /// kept only where the settings ask for it. Program lists belong to
    /// command generation alone.
    pub fn from_config(config: &ConfigKind, pwd: Option<String>, tree: Option<String>) -> (r:
        Context)
        ensures
            match config {
                ConfigKind::Ask(c) => {
                    &&& opt_view(r.pwd) == kept(c.cwd, pwd)
                    &&& opt_view(r.tree) == kept(c.depth is Some, tree)
                    &&& r.operating_system@ == c.operating_system@
                    &&& r.shell@ == c.shell@
                    &&& opt_view(r.environment) == joined_option(c.environment)
                    &&& opt_view(r.programs) == joined_option(c.programs)
                },
                ConfigKind::Explain(c) => {
                    &&& opt_view(r.pwd) == kept(c.cwd, pwd)
                    &&& opt_view(r.tree) == kept(c.depth is Some, tree)
                    &&& r.operating_system@ == c.operating_system@
                    &&& r.shell@ == c.shell@
                    &&& opt_view(r.environment) == joined_option(c.environment)
                    &&& r.programs is None
                },
            },
    {
        match config {
            ConfigKind::Ask(c) => Context {
                pwd: if c.cwd {
                    pwd
                } else {
                    None
                },
                tree: if c.depth.is_some() {
                    tree
                } else {
                    None
                },
                operating_system: c.operating_system.clone(),
                shell: c.shell.clone(),
                environment: join_option(&c.environment),
                programs: join_option(&c.programs),
            },
            ConfigKind::Explain(c) => Context {
                pwd: if c.cwd {
                    pwd
                } else {
                    None
                },
                tree: if c.depth.is_some() {
                    tree
                } else {
                    None
                },
                operating_system: c.operating_system.clone(),
                shell: c.shell.clone(),
                environment: join_option(&c.environment),
                programs: None,
            },
        }
    }
}

/// `prefix + text + suffix` when there is a text, else nothing.
pub open spec fn framed(prefix: Seq<char>, text: Option<String>, suffix: Seq<char>) -> Seq<char> {
    match text {
        Some(t) => prefix + t@ + suffix,
        None => seq![],
    }
}

/// Builds the message the model receives: the description of the machine,
/// then the user's request inside task tags.
pub fn build_context_request(request: &str, context: Context) -> (r: String)
    ensures
        r@ == context_text(context) + "Here is your <task>: \n <task>"@ + request@ + "</task>"@,
{
    let mut r = context.into_string();
    r.append("Here is your <task>: \n <task>");
    r.append(request);
    r.append("</task>");
    r
}

/// The description of the machine that opens each request.
pub open spec fn context_text(c: Context) -> Seq<char> {
    "The system you are running is a "@ + c.operating_system@ + " machine.\n"@
        + "The shell you are running is "@ + c.shell@ + ". You are allowed to use "@ + c.shell@
        + " specific features. "@ + framed("You are currently in folder: "@, c.pwd, "\n"@)
        + framed("The tree command run in the current folder gave this output: "@, c.tree, "\n"@)
        + framed("The following environment variables are defined: "@, c.environment, "\n"@)
        + framed(
        "You have the following programs installed in the system, you should only use these programs to accomplish the <task>: "@,
        c.programs,
        "\n"@,
    )
}

fn append_framed(r: &mut String, prefix: &str, text: &Option<String>, suffix: &str)
    ensures
        final(r)@ == old(r)@ + framed(prefix@, *text, suffix@),
{
    match text {
        Some(t) => {
            r.append(prefix);
            r.append(t.as_str());
            r.append(suffix);
        },
        None => {},
    }
}

impl Context {
    /// The description of the machine as the model reads it.
    pub fn into_string(self) -> (r: String)
        ensures
            r@ == context_text(self),
    {
        let value = self;
        let mut r = String::from_str("The system you are running is a ");
        r.append(value.operating_system.as_str());
        r.append(" machine.\n");
        r.append("The shell you are running is ");
        r.append(value.shell.as_str());
        r.append(". You are allowed to use ");
        r.append(value.shell.as_str());
        r.append(" specific features. ");
        append_framed(&mut r, "You are currently in folder: ", &value.pwd, "\n");
        append_framed(
            &mut r,
            "The tree command run in the current folder gave this output: ",
            &value.tree,
            "\n",
        );
        append_framed(
            &mut r,
            "The following environment variables are defined: ",
            &value.environment,
            "\n",
        );
        append_framed(
            &mut r,
            "You have the following programs installed in the system, you should only use these programs to accomplish the <task>: ",
            &value.programs,
            "\n",
        );
        r
    }
}

} // verus!
