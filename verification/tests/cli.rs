use crufty::cli::Cli;
use crufty::cli::Commands;

fn args(words: &[&str]) -> Vec<String> {
    words.iter().map(|w| w.to_string()).collect()
}

#[test]
fn test_parsing_scan_command() {
    let cli = Cli::parse_from(args(&["crufty", "scan"])).unwrap();

    assert_eq!(
        cli,
        Cli {
            command: Commands::Scan
        }
    );
}

#[test]
fn test_parsing_clean_command() {
    let cli = Cli::parse_from(args(&["crufty", "clean"])).unwrap();
    assert_eq!(cli, Cli { command: Commands::Clean });
}

#[test]
fn test_parsing_rejects_unknown_or_missing_command() {
    assert_eq!(Cli::parse_from(args(&["crufty", "tidy"])), None);
    assert_eq!(Cli::parse_from(args(&["crufty"])), None);
    assert_eq!(Cli::parse_from(args(&["crufty", "scan", "extra"])), None);
}
