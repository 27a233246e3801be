//! The subcommands and what each of them sets in motion.

use crate::generate::GenerateRequest;
use crate::text::texts;
use vstd::prelude::*;
use vstd::string::*;

verus! {

/// The instructions a model answers under when the user gives none.
pub const DEFAULT_SYSTEM_PROMPT: &'static str = "You are a helpful assistant.";

/// What the user asked for on the command line.
#[derive(Debug, Clone, PartialEq, Eq)]
pub enum Commands {
    /// Show the models the public catalogue offers.
    List,
    /// Show the models that are installed.
    Installed,
    /// Download a model.
    Pull { model: String },
    /// Talk to a model. The binary takes no system prompt on its command
    /// line, so one given here is accepted and not passed on.
    Run { model: String, system: Option<String> },
    /// Delete a model.
    Remove { model: String },
    /// Ask a model one question and print its answer.
    Generate { model: String, prompt: String, system: Option<String> },
}

/// The one thing a subcommand has the program do.
#[derive(Debug, Clone, PartialEq, Eq)]
pub enum Action {
    /// Fetch the catalogue page and list the models on it.
    FetchCatalog,
    /// Start the `ollama` binary with these arguments.
    RunOllama(Vec<String>),
    /// Send this request to the generation endpoint.
    Generate(GenerateRequest),
}

/// The system prompt in force: the given one, else [`DEFAULT_SYSTEM_PROMPT`].
pub open spec fn system_prompt_of(system: Option<String>) -> Seq<char> {
    match system {
        Some(text) => text@,
        None => DEFAULT_SYSTEM_PROMPT@,
    }
}

impl Commands {
    /// The line printed before the subcommand's work starts.
    pub open spec fn announcement_text(self) -> Seq<char> {
        match self {
            Commands::List => "Fetching available models..."@,
            Commands::Installed => "Listing installed models..."@,
            Commands::Pull { model } => "Pulling model: "@ + model@,
            Commands::Run { model, system } => "Running model: "@ + model@,
            Commands::Remove { model } => "Removing model: "@ + model@,
            Commands::Generate { model, prompt, system } => "Generating response with model: "@
                + model@,
        }
    }

    /// The line printed once the subcommand's work has succeeded, for the
    /// subcommands that have one.
    pub open spec fn completion_text(self) -> Option<Seq<char>> {
        match self {
            Commands::Pull { model } => Some("Model "@ + model@ + " pulled successfully."@),
            Commands::Remove { model } => Some("Model "@ + model@ + " removed."@),
            _ => None,
        }
    }

    /// Whether `action` is what the subcommand sets in motion: the catalogue
    /// for `list`; the binary with `list`, `pull <model>`, `run <model>` or
    /// `rm <model>` for the four that manage models; and for `generate` an
    /// unstreamed request with the system prompt in force.
    pub open spec fn sets_off(self, action: Action) -> bool {
        match (self, action) {
            (Commands::List, Action::FetchCatalog) => true,
            (Commands::Installed, Action::RunOllama(args)) => texts(args@) == seq!["list"@],
            (Commands::Pull { model }, Action::RunOllama(args)) => texts(args@) == seq![
                "pull"@,
                model@,
            ],
            (Commands::Run { model, system }, Action::RunOllama(args)) => texts(args@) == seq![
                "run"@,
                model@,
            ],
            (Commands::Remove { model }, Action::RunOllama(args)) => texts(args@) == seq![
                "rm"@,
                model@,
            ],
            (Commands::Generate { model, prompt, system }, Action::Generate(request)) => {
                &&& request.model@ == model@
                &&& request.prompt@ == prompt@
                &&& request.system@ == system_prompt_of(system)
                &&& !request.stream
            },
            _ => false,
        }
    }

    /// The line to print before the subcommand's work starts.
    pub fn announcement(&self) -> (r: String)
        ensures
            r@ == self.announcement_text(),
    {
        match self {
            Commands::List => String::from_str("Fetching available models..."),
            Commands::Installed => String::from_str("Listing installed models..."),
            Commands::Pull { model } => String::from_str("Pulling model: ").concat(model.as_str()),
            Commands::Run { model, system: _ } => String::from_str("Running model: ").concat(
                model.as_str(),
            ),
            Commands::Remove { model } => String::from_str("Removing model: ").concat(
                model.as_str(),
            ),
            Commands::Generate { model, prompt: _, system: _ } => String::from_str(
                "Generating response with model: ",
            ).concat(model.as_str()),
        }
    }

    /// The line to print once the subcommand's work has succeeded, if it has one.
    pub fn completion(&self) -> (r: Option<String>)
        ensures
            match (r, self.completion_text()) {
                (Some(line), Some(text)) => line@ == text,
                (None, None) => true,
                _ => false,
            },
    {
        match self {
            Commands::Pull { model } => Some(
                String::from_str("Model ").concat(model.as_str()).concat(" pulled successfully."),
            ),
            Commands::Remove { model } => Some(
                String::from_str("Model ").concat(model.as_str()).concat(" removed."),
            ),
            _ => None,
        }
    }

    /// What the subcommand sets in motion.
    pub fn action(&self) -> (r: Action)
        ensures
            self.sets_off(r),
    {
        match self {
            Commands::List => Action::FetchCatalog,
            Commands::Installed => Action::RunOllama(arguments("list", None)),
            Commands::Pull { model } => Action::RunOllama(arguments("pull", Some(model.as_str()))),
            Commands::Run { model, system: _ } => Action::RunOllama(
                arguments("run", Some(model.as_str())),
            ),
            Commands::Remove { model } => Action::RunOllama(arguments("rm", Some(model.as_str()))),
            Commands::Generate { model, prompt, system } => {
                let chosen = match system {
                    Some(text) => text.as_str(),
                    None => DEFAULT_SYSTEM_PROMPT,
                };
                Action::Generate(GenerateRequest::new(model.as_str(), prompt.as_str(), chosen))
            },
        }
    }
}

/// The argument list of one run of the binary: the verb, then the model if
/// the verb takes one.
fn arguments(verb: &str, model: Option<&str>) -> (r: Vec<String>)
    ensures
        texts(r@) == match model {
            Some(name) => seq![verb@, name@],
            None => seq![verb@],
        },
{
    let mut args: Vec<String> = Vec::new();
    args.push(String::from_str(verb));
    match model {
        Some(name) => {
            args.push(String::from_str(name));
            assert(texts(args@) =~= seq![verb@, name@]);
        },
        None => {
            assert(texts(args@) =~= seq![verb@]);
        },
    }
    args
}

/// The lines that present a catalogue: a heading, then one line per model.
pub open spec fn catalog_lines(models: Seq<Seq<char>>) -> Seq<Seq<char>> {
    Seq::new(
        models.len() + 1,
        |i: int|
            if i == 0 {
                "Available models:"@
            } else {
                "- "@ + models[i - 1]
            },
    )
}

/// The lines to print for a catalogue.
pub fn catalog_report(models: &Vec<String>) -> (r: Vec<String>)
    ensures
        texts(r@) == catalog_lines(texts(models@)),
{
    let mut lines: Vec<String> = Vec::new();
    lines.push(String::from_str("Available models:"));
    let mut i: usize = 0;
    while i < models.len()
        invariant
            i <= models.len(),
            lines.len() == i + 1,
            texts(lines@)[0] == "Available models:"@,
            forall|k: int| 1 <= k <= i ==> (#[trigger] texts(lines@)[k]) == "- "@ + models[k - 1]@,
        decreases models.len() - i,
    {
        let ghost before = texts(lines@);
        lines.push(String::from_str("- ").concat(models[i].as_str()));
        assert forall|k: int| 0 <= k <= i implies (#[trigger] texts(lines@)[k]) == before.push(
            "- "@ + models[i as int]@,
        )[k] by {}
        i += 1;
    }
    assert(texts(lines@) =~= catalog_lines(texts(models@)));
    lines
}

} // verus!
