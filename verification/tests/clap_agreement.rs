use clap::{Arg, ArgAction, ArgMatches};
use rancher_cli::invocation::{Command, Invocation, ResourceKind};
use rancher_cli::parser::parse;

fn schema() -> clap::Command {
    clap::Command::new("rancher-cli")
        .version("0.1.0")
        .subcommand_required(true)
        .arg_required_else_help(true)
        .arg(Arg::new("name").short('n').long("name").action(ArgAction::Append))
        .arg(Arg::new("verbose").short('v').long("verbose").action(ArgAction::Count))
        .subcommand(clap::Command::new("get").arg(Arg::new("name").required(true)))
        .subcommand(
            clap::Command::new("delete")
                .subcommand_required(true)
                .arg_required_else_help(true)
                .subcommand(clap::Command::new("prtb"))
                .subcommand(clap::Command::new("crtb")),
        )
}

fn converted(matches: &ArgMatches) -> Invocation {
    let names = matches
        .get_many::<String>("name")
        .map(|values| values.cloned().collect())
        .unwrap_or_default();
    let verbosity = u128::from(matches.get_count("verbose"));
    let command = match matches.subcommand() {
        Some(("get", sub)) => Command::Get { name: sub.get_one::<String>("name").unwrap().clone() },
        Some(("delete", sub)) => match sub.subcommand() {
            Some(("prtb", _)) => Command::Delete { resource: ResourceKind::PRTB },
            Some(("crtb", _)) => Command::Delete { resource: ResourceKind::CRTB },
            other => panic!("unexpected kind: {:?}", other.map(|(name, _)| name)),
        },
        other => panic!("unexpected subcommand: {:?}", other.map(|(name, _)| name)),
    };
    Invocation { names, verbosity, command }
}

fn with_clap(words: &[&str]) -> Option<Invocation> {
    let mut line = vec!["rancher-cli"];
    line.extend_from_slice(words);
    schema().try_get_matches_from(line).ok().map(|matches| converted(&matches))
}

fn with_the_library(words: &[&str]) -> Option<Invocation> {
    let args: Vec<String> = words.iter().map(|w| w.to_string()).collect();
    parse(&args).ok()
}

const WORDS: [&str; 30] = [
    "get", "delete", "prtb", "crtb", "x", "", "-", "--", "-n", "-v", "--name", "--verbose", "-nx",
    "-n=", "-n=x", "--name=x", "--name=", "-vv", "-vn", "-vnx", "-nv", "-x", "-vx", "--verbose=1",
    "--nam", "help", "-h", "--help", "-V", "--version",
];

#[test]
fn agrees_on_single_words() {
    assert_eq!(with_the_library(&[]), with_clap(&[]));
    for a in WORDS {
        assert_eq!(with_the_library(&[a]), with_clap(&[a]), "{:?}", [a]);
    }
}

#[test]
fn agrees_on_pairs_of_words() {
    for a in WORDS {
        for b in WORDS {
            assert_eq!(with_the_library(&[a, b]), with_clap(&[a, b]), "{:?}", [a, b]);
        }
    }
}

#[test]
fn agrees_on_triples_of_words() {
    for a in WORDS {
        for b in WORDS {
            for c in WORDS {
                assert_eq!(with_the_library(&[a, b, c]), with_clap(&[a, b, c]), "{:?}", [a, b, c]);
            }
        }
    }
}

const FEWER_WORDS: [&str; 12] =
    ["get", "delete", "prtb", "x", "-n", "-v", "--name=x", "-vn", "--", "-", "--verbose", "-nx"];

#[test]
fn agrees_on_quadruples_of_words() {
    for a in FEWER_WORDS {
        for b in FEWER_WORDS {
            for c in FEWER_WORDS {
                for d in FEWER_WORDS {
                    let words = [a, b, c, d];
                    assert_eq!(with_the_library(&words), with_clap(&words), "{:?}", words);
                }
            }
        }
    }
}

const FEWEST_WORDS: [&str; 7] = ["get", "delete", "crtb", "x", "-n", "-v", "--"];

#[test]
fn agrees_on_quintuples_of_words() {
    for a in FEWEST_WORDS {
        for b in FEWEST_WORDS {
            for c in FEWEST_WORDS {
                for d in FEWEST_WORDS {
                    for e in FEWEST_WORDS {
                        let words = [a, b, c, d, e];
                        assert_eq!(with_the_library(&words), with_clap(&words), "{:?}", words);
                    }
                }
            }
        }
    }
}

#[test]
fn agrees_on_longer_lines() {
    let lines: [&[&str]; 14] = [
        &["-n", "a", "-n", "b", "-n", "c", "get", "x"],
        &["-v", "-v", "-v", "-v", "delete", "prtb"],
        &["-vvvv", "--verbose", "-n", "get", "get", "get"],
        &["--name", "delete", "--name=get", "delete", "crtb", "--"],
        &["-n", "a", "get", "--", "-n"],
        &["-n", "a", "get", "--", "-n", "b"],
        &["-n", "a", "get", "b", "--", "c"],
        &["-v", "get", "b", "--", "--"],
        &["-v", "delete", "crtb", "--", "--"],
        &["-v", "-n", "x", "-v", "-n", "y", "-v", "get", "z"],
        &["-vn", "x", "-vn=y", "-vvnz", "delete", "prtb"],
        &["-n", "x", "-v", "--", "get", "z"],
        &["-n", "x", "-v", "get", "-h"],
        &["-n", "x", "-v", "delete", "prtb", "extra"],
    ];
    for words in lines {
        assert_eq!(with_the_library(words), with_clap(words), "{:?}", words);
    }
}

#[test]
fn accepts_capital_kinds_where_clap_does_not() {
    assert_eq!(
        with_the_library(&["delete", "PRTB"]).map(|invocation| invocation.command),
        Some(Command::Delete { resource: ResourceKind::PRTB })
    );
    assert_eq!(with_clap(&["delete", "PRTB"]), None);
}

#[test]
fn counts_past_where_clap_saturates() {
    let words = vec!["-v"; 256];
    let line: Vec<&str> = words.iter().copied().chain(["get", "x"]).collect();
    assert_eq!(with_the_library(&line).map(|invocation| invocation.verbosity), Some(256));
    assert_eq!(with_clap(&line).map(|invocation| invocation.verbosity), Some(255));
}
