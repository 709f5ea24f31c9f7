use rancher_cli::invocation::{Command, Invocation, ParseError, Reason, ResourceKind};
use rancher_cli::parser::parse;
use rancher_cli::report::{
    decimal, dispatch, names_line, run, summary, verbosity_line, Transcript, EXIT_OK, EXIT_USAGE,
};

const USAGE: &str =
    "usage: [-n|--name <string>]... [-v|--verbose]... <get <name> | delete <prtb|crtb>>";

fn argv(words: &[&str]) -> Vec<String> {
    words.iter().map(|w| w.to_string()).collect()
}

fn message(words: &[&str]) -> String {
    parse(&argv(words)).unwrap_err().message()
}

#[test]
fn dispatch_get_prints_names_verbosity_and_the_name() {
    let invocation = Invocation {
        names: argv(&["a", "b"]),
        verbosity: 2,
        command: Command::Get { name: "foo".to_string() },
    };
    assert_eq!(dispatch(&invocation), argv(&["name: [\"a\", \"b\"]", "verbose: 2", "Get foo"]));
}

#[test]
fn dispatch_delete_prints_the_tag() {
    let prtb = Invocation {
        names: vec![],
        verbosity: 0,
        command: Command::Delete { resource: ResourceKind::PRTB },
    };
    assert_eq!(dispatch(&prtb), argv(&["name: []", "verbose: 0", "PRTB"]));
    let crtb = Invocation {
        names: argv(&["x"]),
        verbosity: 1,
        command: Command::Delete { resource: ResourceKind::CRTB },
    };
    assert_eq!(dispatch(&crtb), argv(&["name: [\"x\"]", "verbose: 1", "CRTB"]));
}

#[test]
fn dispatch_quotes_names_as_debug_does() {
    let names = argv(&["plain", "", "with \"quotes\"", "tab\there", "back\\slash", "r\u{e9}sum\u{e9}", "\u{7f}"]);
    let invocation = Invocation {
        names: names.clone(),
        verbosity: 0,
        command: Command::Get { name: "a \"b\"".to_string() },
    };
    let lines = dispatch(&invocation);
    assert_eq!(lines.len(), 3);
    assert_eq!(lines[0], format!("name: {:?}", names));
    assert_eq!(
        lines[0],
        "name: [\"plain\", \"\", \"with \\\"quotes\\\"\", \"tab\\there\", \"back\\\\slash\", \"r\u{e9}sum\u{e9}\", \"\\u{7f}\"]"
    );
    assert_eq!(lines[2], "Get a \"b\"");
}

#[test]
fn names_line_joins_with_comma_and_space() {
    assert_eq!(names_line(&vec![]), "name: []");
    assert_eq!(names_line(&argv(&["x"])), "name: [x]");
    assert_eq!(names_line(&argv(&["x", "y", "z"])), "name: [x, y, z]");
    assert_eq!(names_line(&argv(&["", ""])), "name: [, ]");
}

#[test]
fn decimal_writes_numerals() {
    assert_eq!(decimal(0), "0");
    assert_eq!(decimal(7), "7");
    assert_eq!(decimal(10), "10");
    assert_eq!(decimal(255), "255");
    assert_eq!(decimal(1_000_000), "1000000");
    assert_eq!(decimal(9_876_543_210), "9876543210");
    assert_eq!(decimal(u128::MAX), "340282366920938463463374607431768211455");
    assert_eq!(verbosity_line(12), "verbose: 12");
}

#[test]
fn summary_of_each_command() {
    assert_eq!(summary(&Command::Get { name: "n1".to_string() }), "Get n1");
    assert_eq!(summary(&Command::Get { name: String::new() }), "Get ");
    assert_eq!(summary(&Command::Delete { resource: ResourceKind::PRTB }), "PRTB");
    assert_eq!(summary(&Command::Delete { resource: ResourceKind::CRTB }), "CRTB");
    assert_eq!(ResourceKind::PRTB.tag(), "PRTB");
    assert_eq!(ResourceKind::CRTB.tag(), "CRTB");
}

#[test]
fn get_reports_no_resource_kind() {
    let lines = run(&argv(&["get", "PRTB"])).output;
    assert_eq!(lines, argv(&["name: []", "verbose: 0", "Get PRTB"]));
    assert!(lines.iter().all(|line| line != "PRTB" && line != "CRTB"));
}

#[test]
fn unknown_kind_names_the_allowed_set() {
    let text = message(&["delete", "foo"]);
    assert_eq!(
        text,
        format!("error: unrecognized resource kind 'foo': expected prtb or crtb\n{}", USAGE)
    );
    assert!(text.contains("prtb") && text.contains("crtb"));
}

#[test]
fn each_reason_has_its_message() {
    let cases: [(&[&str], Reason, &str); 9] = [
        (&[], Reason::MissingSubcommand, "a subcommand is required: get or delete"),
        (&["list"], Reason::UnknownSubcommand, "unrecognized subcommand 'list': expected get or delete"),
        (&["--bogus"], Reason::UnknownOption, "unexpected option '--bogus'"),
        (&["-vn"], Reason::MissingValue, "a value is required after '-vn'"),
        (&["--verbose=3"], Reason::UnexpectedValue, "unexpected value in '--verbose=3': --verbose takes none"),
        (&["get"], Reason::MissingName, "get requires a resource name"),
        (&["delete"], Reason::MissingResource, "delete requires a resource kind: prtb or crtb"),
        (&["delete", "x"], Reason::UnknownResource, "unrecognized resource kind 'x': expected prtb or crtb"),
        (&["get", "a", "b"], Reason::ExtraArgument, "unexpected argument 'b'"),
    ];
    for (words, reason, complaint) in cases {
        let error = parse(&argv(words)).unwrap_err();
        assert_eq!(error.reason, reason);
        assert_eq!(error.message(), format!("error: {}\n{}", complaint, USAGE));
    }
}

#[test]
fn message_is_built_from_the_error_alone() {
    let error = ParseError { reason: Reason::UnknownOption, position: 4, token: "-q".to_string() };
    assert_eq!(error.message(), format!("error: unexpected option '-q'\n{}", USAGE));
}

#[test]
fn run_succeeds_with_status_zero() {
    assert_eq!(
        run(&argv(&["-n", "a", "-v", "delete", "Prtb"])),
        Transcript {
            status: 0,
            output: argv(&["name: [\"a\"]", "verbose: 1", "PRTB"]),
            errors: vec![],
        }
    );
    assert_eq!(EXIT_OK, 0);
}

#[test]
fn run_without_subcommand_fails_and_prints_nothing() {
    for words in [&[][..], &["-v"][..], &["-n", "a", "--verbose"][..]] {
        let transcript = run(&argv(words));
        assert_eq!(transcript.status, 2);
        assert_ne!(transcript.status, 0);
        assert!(transcript.output.is_empty());
        assert_eq!(
            transcript.errors,
            vec![format!("error: a subcommand is required: get or delete\n{}", USAGE)]
        );
    }
    assert_eq!(EXIT_USAGE, 2);
}

#[test]
fn run_twice_gives_the_same_transcript() {
    let words = argv(&["-vvv", "--name=x", "get", "y"]);
    assert_eq!(run(&words), run(&words));
}
