use binup::cli::{described_name, get_names, verbosity, CliError, Verbosity};
use binup::download::user_agent;
use binup::file_types::{is_executable, BinaryFormat, FileInfo};
use binup::install::{attribute, single_file_mode, tool_name};
use binup::project::ProjectError;
use binup::util::{parse_answer, sentence};

fn strings(items: &[&str]) -> Vec<String> {
    items.iter().map(|item| item.to_string()).collect()
}

#[test]
fn verbosity_levels() {
    assert_eq!(verbosity(0), Ok(Verbosity::Info));
    assert_eq!(verbosity(1), Ok(Verbosity::Debug));
    assert_eq!(verbosity(2), Ok(Verbosity::Trace));
    assert_eq!(verbosity(3), Err(CliError::InvalidVerbosity));
    assert_eq!(verbosity(255), Err(CliError::InvalidVerbosity));
    assert_eq!(CliError::InvalidVerbosity.message(), "Invalid verbosity level");
}

#[test]
fn names_are_given_once() {
    assert_eq!(get_names(&strings(&["a", "b", "a"])), strings(&["a", "b"]));
}

#[test]
fn a_described_tool_has_one_name() {
    assert_eq!(described_name(&strings(&[])), Ok(None));
    assert_eq!(described_name(&strings(&["tool"])), Ok(Some("tool".to_owned())));
    assert_eq!(described_name(&strings(&["a", "b"])), Err(CliError::SeveralNames));
    assert_eq!(
        CliError::SeveralNames.message(),
        "A single tool name must be specified when project is specified"
    );
}

#[test]
fn a_described_tool_is_named_after_its_project() {
    assert_eq!(tool_name(Some("mine".to_owned()), "owner/tool"), Ok("mine".to_owned()));
    assert_eq!(tool_name(Some("mine".to_owned()), "no project"), Ok("mine".to_owned()));
    assert_eq!(tool_name(None, "owner/tool"), Ok("tool".to_owned()));
    assert_eq!(tool_name(None, "tool"), Err(ProjectError::InvalidName));
}

#[test]
fn errors_are_attributed_to_their_tool() {
    assert_eq!(attribute("tool", "no assets"), "tool: no assets");
}

#[test]
fn single_files_get_a_mode() {
    assert_eq!(single_file_mode(true), 0o755);
    assert_eq!(single_file_mode(false), 0o644);
}

#[test]
fn answers() {
    for answer in ["y", "yes", " y\n", "\tyes \r\n"] {
        assert_eq!(parse_answer(answer), Some(true), "{answer:?}");
    }
    for answer in ["n", "no", "no\n", "  n"] {
        assert_eq!(parse_answer(answer), Some(false), "{answer:?}");
    }
    for answer in ["", "\n", "Y", "Yes", "yes!", "y es", "nope", "0"] {
        assert_eq!(parse_answer(answer), None, "{answer:?}");
    }
}

#[test]
fn sentences_end_with_a_full_stop() {
    assert_eq!(sentence("It failed"), "It failed.");
    assert_eq!(sentence("It failed."), "It failed.");
    assert_eq!(sentence("It failed:\n* a\n* b"), "It failed:\n* a\n* b");
    assert_eq!(sentence(""), ".");
}

#[test]
fn user_agent_names_the_program() {
    assert_eq!(
        user_agent("binup", "1.6.1", "https://github.com/KonishchevDmitry/binup"),
        "binup/1.6.1 (https://github.com/KonishchevDmitry/binup)"
    );
}

fn info(format: BinaryFormat, name: &str, short_name: Option<&str>, kind: &str) -> FileInfo {
    FileInfo {
        format,
        name: name.to_owned(),
        short_name: short_name.map(str::to_owned),
        kind: kind.to_owned(),
        media_type: "application/octet-stream".to_owned(),
    }
}

#[test]
fn native_programs_run_on_their_system() {
    let elf = info(BinaryFormat::Elf, "Executable and Linkable Format", Some("ELF"), "Executable");
    assert_eq!(
        is_executable("linux", &elf),
        (
            "Executable and Linkable Format / ELF (Executable, application/octet-stream)".to_owned(),
            true
        )
    );
    assert!(!is_executable("macos", &elf).1);
    assert!(!is_executable("windows", &elf).1);
    let mach_o = info(BinaryFormat::MachO, "Mach-O", None, "Executable");
    assert_eq!(
        is_executable("macos", &mach_o),
        ("Mach-O (Executable, application/octet-stream)".to_owned(), true)
    );
    assert!(!is_executable("linux", &mach_o).1);
}

#[test]
fn scripts_run_anywhere() {
    let script = info(BinaryFormat::Other, "Shell Script", Some("SH"), "Other");
    for os in ["linux", "macos", "freebsd"] {
        assert!(is_executable(os, &script).1);
    }
    assert!(!is_executable("linux", &info(BinaryFormat::Other, "Shell Script", None, "Document")).1);
    assert!(!is_executable("linux", &info(BinaryFormat::Other, "Script", None, "Other")).1);
    assert!(!is_executable("linux", &info(BinaryFormat::Other, "Plain Text", None, "Other")).1);
    assert!(!is_executable("linux", &info(BinaryFormat::Other, "Shell Scripts", None, "Other")).1);
}

#[test]
fn os_support() {
    for (os, format) in [("linux", BinaryFormat::Elf), ("macos", BinaryFormat::MachO)] {
        let program = info(format, "Program", None, "Executable");
        assert!(is_executable(os, &program).1, "Unsupported OS: {}", os);
    }
}
