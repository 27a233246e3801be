use ollama_tool::cli::{catalog_report, Action, Commands, DEFAULT_SYSTEM_PROMPT};
use ollama_tool::error::Error;
use ollama_tool::generate::GenerateRequest;
use ollama_tool::ollama::{command_outcome, OLLAMA_BINARY};
use ollama_tool::text::decimal_string;

fn texts(list: &[&str]) -> Vec<String> {
    list.iter().map(|text| String::from(*text)).collect()
}

#[test]
fn successful_run_passes() {
    assert_eq!(command_outcome(true, Some(0)), Ok(()));
    assert_eq!(command_outcome(true, None), Ok(()));
    assert_eq!(command_outcome(true, Some(3)), Ok(()));
}

#[test]
fn nonzero_exit_is_a_command_failure() {
    assert_eq!(
        command_outcome(false, Some(1)),
        Err(Error::Command(String::from("Ollama command failed with exit code 1")))
    );
    assert_eq!(
        command_outcome(false, Some(127)),
        Err(Error::Command(String::from("Ollama command failed with exit code 127")))
    );
    assert_eq!(
        command_outcome(false, Some(-9)),
        Err(Error::Command(String::from("Ollama command failed with exit code -9")))
    );
}

#[test]
fn run_ended_by_a_signal_is_reported_as_minus_one() {
    assert_eq!(
        command_outcome(false, None),
        Err(Error::Command(String::from("Ollama command failed with exit code -1")))
    );
}

#[test]
fn failure_is_judged_by_the_status_alone() {
    assert_eq!(
        command_outcome(false, Some(0)),
        Err(Error::Command(String::from("Ollama command failed with exit code 0")))
    );
}

#[test]
fn binary_name() {
    assert_eq!(OLLAMA_BINARY, "ollama");
}

#[test]
fn decimal_of_small_numbers() {
    assert_eq!(decimal_string(0), "0");
    assert_eq!(decimal_string(7), "7");
    assert_eq!(decimal_string(10), "10");
    assert_eq!(decimal_string(-1), "-1");
    assert_eq!(decimal_string(-10), "-10");
    assert_eq!(decimal_string(1002003), "1002003");
}

#[test]
fn decimal_of_the_extremes() {
    assert_eq!(decimal_string(i32::MAX), "2147483647");
    assert_eq!(decimal_string(i32::MIN), "-2147483648");
    assert_eq!(decimal_string(i32::MIN + 1), "-2147483647");
}

#[test]
fn decimal_agrees_with_display() {
    let mut n: i32 = -1000;
    while n <= 1000 {
        assert_eq!(decimal_string(n), format!("{}", n));
        n += 1;
    }
    for n in [9, 99, 100, 999_999_999, 1_000_000_000, -999_999_999, -1_000_000_000, 123_456_789] {
        assert_eq!(decimal_string(n), format!("{}", n));
    }
}

#[test]
fn error_messages() {
    assert_eq!(Error::Reqwest(String::from("refused")).message(), "HTTP request failed: refused");
    assert_eq!(Error::Io(String::from("not found")).message(), "IO error: not found");
    assert_eq!(Error::Serde(String::from("eof")).message(), "JSON parsing error: eof");
    assert_eq!(
        Error::Command(String::from("Ollama command failed with exit code 2")).message(),
        "Ollama command failed: Ollama command failed with exit code 2"
    );
    assert_eq!(Error::Command(String::new()).message(), "Ollama command failed: ");
}

#[test]
fn command_failure_message_as_shown() {
    let failure = command_outcome(false, Some(2)).unwrap_err();
    assert_eq!(failure.message(), "Ollama command failed: Ollama command failed with exit code 2");
}

#[test]
fn announcements() {
    let model = String::from("llama3");
    assert_eq!(Commands::List.announcement(), "Fetching available models...");
    assert_eq!(Commands::Installed.announcement(), "Listing installed models...");
    assert_eq!(Commands::Pull { model: model.clone() }.announcement(), "Pulling model: llama3");
    assert_eq!(
        Commands::Run { model: model.clone(), system: None }.announcement(),
        "Running model: llama3"
    );
    assert_eq!(Commands::Remove { model: model.clone() }.announcement(), "Removing model: llama3");
    assert_eq!(
        Commands::Generate { model, prompt: String::from("Hello"), system: None }.announcement(),
        "Generating response with model: llama3"
    );
}

#[test]
fn completions() {
    let model = String::from("llama3");
    assert_eq!(
        Commands::Pull { model: model.clone() }.completion(),
        Some(String::from("Model llama3 pulled successfully."))
    );
    assert_eq!(
        Commands::Remove { model: model.clone() }.completion(),
        Some(String::from("Model llama3 removed."))
    );
    assert_eq!(Commands::List.completion(), None);
    assert_eq!(Commands::Installed.completion(), None);
    assert_eq!(Commands::Run { model: model.clone(), system: None }.completion(), None);
    assert_eq!(
        Commands::Generate { model, prompt: String::from("Hello"), system: None }.completion(),
        None
    );
}

#[test]
fn list_fetches_the_catalogue() {
    assert_eq!(Commands::List.action(), Action::FetchCatalog);
}

#[test]
fn model_management_runs_the_binary() {
    let model = String::from("tinyllama:latest");
    assert_eq!(Commands::Installed.action(), Action::RunOllama(texts(&["list"])));
    assert_eq!(
        Commands::Pull { model: model.clone() }.action(),
        Action::RunOllama(texts(&["pull", "tinyllama:latest"]))
    );
    assert_eq!(
        Commands::Run { model: model.clone(), system: None }.action(),
        Action::RunOllama(texts(&["run", "tinyllama:latest"]))
    );
    assert_eq!(
        Commands::Remove { model }.action(),
        Action::RunOllama(texts(&["rm", "tinyllama:latest"]))
    );
}

#[test]
fn run_does_not_pass_a_system_prompt_on() {
    let command =
        Commands::Run { model: String::from("llama3"), system: Some(String::from("Be brief")) };
    assert_eq!(command.action(), Action::RunOllama(texts(&["run", "llama3"])));
}

#[test]
fn generate_sends_an_unstreamed_request() {
    let command = Commands::Generate {
        model: String::from("tinyllama:latest"),
        prompt: String::from("Hello"),
        system: Some(String::from("You are helpful")),
    };
    assert_eq!(
        command.action(),
        Action::Generate(GenerateRequest {
            model: String::from("tinyllama:latest"),
            prompt: String::from("Hello"),
            system: String::from("You are helpful"),
            stream: false,
        })
    );
}

#[test]
fn generate_falls_back_on_the_default_system_prompt() {
    let command = Commands::Generate {
        model: String::from("m"),
        prompt: String::from("Hello"),
        system: None,
    };
    assert_eq!(
        command.action(),
        Action::Generate(GenerateRequest::new("m", "Hello", DEFAULT_SYSTEM_PROMPT))
    );
    assert_eq!(DEFAULT_SYSTEM_PROMPT, "You are a helpful assistant.");
}

#[test]
fn generate_keeps_an_empty_system_prompt() {
    let command = Commands::Generate {
        model: String::from("m"),
        prompt: String::from("Hello"),
        system: Some(String::new()),
    };
    assert_eq!(command.action(), Action::Generate(GenerateRequest::new("m", "Hello", "")));
}

#[test]
fn catalogue_report_lines() {
    assert_eq!(
        catalog_report(&texts(&["gemma", "llama3"])),
        texts(&["Available models:", "- gemma", "- llama3"])
    );
    assert_eq!(catalog_report(&Vec::new()), texts(&["Available models:"]));
}
