//! What a run is configured with, the menu offered to the user, and the
//! commit commands that follow from the choice made on it.
use vstd::prelude::*;

verus! {

/// The label of the first menu entry, which asks for a message typed by hand.
pub open spec fn custom_label() -> Seq<char> {
    "Enter a custom message..."@
}

/// The prompt used when none is given.
pub open spec fn default_prompt() -> Seq<char> {
    "Given the following git diff, suggest a commit message that can be passed to `git commit`."@
}

/// The model used when none is given.
pub open spec fn default_model() -> Seq<char> {
    "gpt-3.5-turbo"@
}

/// Why a run could not be configured.
#[derive(Clone, Copy, Debug, PartialEq, Eq, Structural)]
pub enum ConfigError {
    /// No credential for the suggestion service was supplied.
    MissingApiKey,
}

/// Everything a run needs to ask for suggestions.
#[derive(Debug)]
pub struct Config {
    pub api_key: String,
    pub prompt: String,
    pub model: String,
}

/// The given value, or the default where none was given.
pub open spec fn or_default(given: Option<String>, default: Seq<char>) -> Seq<char> {
    match given {
        Some(s) => s@,
        None => default,
    }
}

impl Config {
    /// Builds the configuration; a missing credential is refused, a missing
    /// prompt or model falls back to its default.
    pub fn new(api_key: Option<String>, prompt: Option<String>, model: Option<String>) -> (r: Result<
        Config,
        ConfigError,
    >)
        ensures
            api_key is None <==> r is Err,
            r matches Err(e) ==> e == ConfigError::MissingApiKey,
            r matches Ok(c) ==> {
                &&& api_key == Some(c.api_key)
                &&& c.prompt@ == or_default(prompt, default_prompt())
                &&& c.model@ == or_default(model, default_model())
            },
    {
        let api_key = match api_key {
            Some(k) => k,
            None => return Err(ConfigError::MissingApiKey),
        };
        let prompt = match prompt {
            Some(p) => p,
            None => String::from_str(
                "Given the following git diff, suggest a commit message that can be passed to `git commit`.",
            ),
        };
        let model = match model {
            Some(m) => m,
            None => String::from_str("gpt-3.5-turbo"),
        };
        Ok(Config { api_key, prompt, model })
    }
}

/// What the user chose on the menu.
#[derive(Debug, PartialEq, Eq)]
pub enum Choice {
    /// Write the message by hand in the commit editor.
    EnterCustom,
    /// Commit with this suggested message.
    UseCandidate(String),
}

/// The menu shown to the user: the custom-message entry, then the
/// suggestions in their order.
pub fn menu_options(suggestions: &Vec<String>) -> (r: Vec<String>)
    ensures
        r@.len() == suggestions@.len() + 1,
        r@[0]@ == custom_label(),
        forall|i: int| 0 <= i < suggestions@.len() ==> #[trigger] r@[i + 1] == suggestions@[i],
{
    let mut out: Vec<String> = Vec::new();
    out.push(String::from_str("Enter a custom message..."));
    let mut i: usize = 0;
    while i < suggestions.len()
        invariant
            i <= suggestions@.len(),
            out@.len() == i + 1,
            out@[0]@ == custom_label(),
            forall|j: int| 0 <= j < i ==> #[trigger] out@[j + 1] == suggestions@[j],
        decreases suggestions@.len() - i,
    {
        out.push(suggestions[i].clone());
        i = i + 1;
    }
    out
}

/// The choice behind a menu position: the first entry asks for a custom
/// message, entry `i + 1` is suggestion `i`.
pub open spec fn choice_of(suggestions: Seq<String>, cursor: nat) -> Choice {
    if cursor == 0 {
        Choice::EnterCustom
    } else {
        Choice::UseCandidate(suggestions[cursor - 1])
    }
}

/// The choice behind the menu position `cursor` of `menu_options(suggestions)`.
pub fn choice_at(suggestions: &Vec<String>, cursor: usize) -> (r: Choice)
    requires
        cursor <= suggestions@.len(),
    ensures
        r == choice_of(suggestions@, cursor as nat),
{
    if cursor == 0 {
        Choice::EnterCustom
    } else {
        Choice::UseCandidate(suggestions[cursor - 1].clone())
    }
}

/// The argument lists of the version-control commands run for a choice: a
/// plain commit that opens the editor for a custom message; otherwise a
/// commit with the message, followed by an amend when `amend` is set.
pub open spec fn commit_args_of(choice: Choice, amend: bool) -> Seq<Seq<Seq<char>>> {
    match choice {
        Choice::EnterCustom => seq![seq!["commit"@]],
        Choice::UseCandidate(m) => {
            let first = seq![seq!["commit"@, "-m"@, m@]];
            if amend {
                first.push(seq!["commit"@, "--amend"@])
            } else {
                first
            }
        },
    }
}

/// The commands to run, each as its argument list, for a choice.
pub fn commit_commands(choice: &Choice, amend: bool) -> (r: Vec<Vec<String>>)
    ensures
        r.deep_view() == commit_args_of(*choice, amend),
{
    let mut out: Vec<Vec<String>> = Vec::new();
    match choice {
        Choice::EnterCustom => {
            let mut args: Vec<String> = Vec::new();
            args.push(String::from_str("commit"));
            out.push(args);
        },
        Choice::UseCandidate(m) => {
            let mut args: Vec<String> = Vec::new();
            args.push(String::from_str("commit"));
            args.push(String::from_str("-m"));
            args.push(m.clone());
            out.push(args);
            if amend {
                let mut amend_args: Vec<String> = Vec::new();
                amend_args.push(String::from_str("commit"));
                amend_args.push(String::from_str("--amend"));
                out.push(amend_args);
            }
        },
    }
    assert(out.deep_view() =~~= commit_args_of(*choice, amend));
    out
}

} // verus!
