use brausi::cli::{coords, no_extra, one_text};
use brausi::{parse_args, validate_coords, CliCommand, Config, Environment};

fn strings(values: &[&str]) -> Vec<String> {
    values.iter().map(|value| value.to_string()).collect()
}

#[test]
fn parses_start_with_url() {
    assert_eq!(
        parse_args(&strings(&["start", "https://example.com"])).unwrap(),
        CliCommand::Start {
            url: Some("https://example.com".to_string())
        }
    );
}

#[test]
fn parses_click_coords() {
    assert_eq!(
        parse_args(&strings(&["click", "320", "240"])).unwrap(),
        CliCommand::Click { x: 320, y: 240 }
    );
}

#[test]
fn joins_type_text() {
    assert_eq!(
        parse_args(&strings(&["type", "hello", "world"])).unwrap(),
        CliCommand::Type {
            text: "hello world".to_string()
        }
    );
}

#[test]
fn rejects_unknown_command() {
    assert!(parse_args(&strings(&["wat"])).is_err());
}

#[test]
fn validates_framebuffer_bounds() {
    let mut config = Config::from_env(&Environment::new(false)).unwrap();
    config.width = 1024;
    config.height = 768;
    assert!(validate_coords(&config, 1023, 767).is_ok());
    assert!(validate_coords(&config, 1024, 767).is_err());
    assert!(validate_coords(&config, 1023, 768).is_err());
}

#[test]
fn no_arguments_ask_for_help() {
    assert_eq!(parse_args(&[]).unwrap(), CliCommand::Help);
    assert_eq!(parse_args(&strings(&["help"])).unwrap(), CliCommand::Help);
    assert_eq!(parse_args(&strings(&["-h"])).unwrap(), CliCommand::Help);
    assert_eq!(parse_args(&strings(&["--help", "x"])).unwrap(), CliCommand::Help);
}

#[test]
fn unknown_command_names_the_word() {
    assert_eq!(
        parse_args(&strings(&["wat"])).unwrap_err(),
        "unknown command `wat`"
    );
}

#[test]
fn start_without_url_and_with_extra_words() {
    assert_eq!(
        parse_args(&strings(&["start"])).unwrap(),
        CliCommand::Start { url: None }
    );
    assert_eq!(
        parse_args(&strings(&["start", "a", "b"])).unwrap(),
        CliCommand::Start {
            url: Some("a".to_string())
        }
    );
}

#[test]
fn pointer_aliases() {
    assert_eq!(
        parse_args(&strings(&["mousedown", "1", "2"])).unwrap(),
        CliCommand::Down { x: 1, y: 2 }
    );
    assert_eq!(
        parse_args(&strings(&["down", "1", "2"])).unwrap(),
        CliCommand::Down { x: 1, y: 2 }
    );
    assert_eq!(
        parse_args(&strings(&["mouseup", "3", "4"])).unwrap(),
        CliCommand::Up { x: 3, y: 4 }
    );
    assert_eq!(
        parse_args(&strings(&["move", "+5", "007"])).unwrap(),
        CliCommand::Move { x: 5, y: 7 }
    );
}

#[test]
fn coordinate_errors() {
    assert_eq!(
        parse_args(&strings(&["click", "1"])).unwrap_err(),
        "usage: brausi click <x> <y>"
    );
    assert_eq!(
        parse_args(&strings(&["mouseup", "1", "2", "3"])).unwrap_err(),
        "usage: brausi mouseup <x> <y>"
    );
    assert_eq!(
        parse_args(&strings(&["click", "-1", "2"])).unwrap_err(),
        "invalid x coordinate `-1`"
    );
    assert_eq!(
        parse_args(&strings(&["click", "1", "4294967296"])).unwrap_err(),
        "invalid y coordinate `4294967296`"
    );
    assert_eq!(
        coords(&strings(&["click", "4294967295", "0"])),
        Ok((4294967295, 0))
    );
}

#[test]
fn text_commands() {
    assert_eq!(
        parse_args(&strings(&["go", "https://lite.duckduckgo.com/lite/"])).unwrap(),
        CliCommand::Go {
            url: "https://lite.duckduckgo.com/lite/".to_string()
        }
    );
    assert_eq!(
        parse_args(&strings(&["type"])).unwrap_err(),
        "usage: brausi type <text>"
    );
    assert_eq!(
        parse_args(&strings(&["go"])).unwrap_err(),
        "usage: brausi go <text>"
    );
    assert_eq!(
        one_text(&strings(&["type", "a", "", "b"]), "type"),
        Ok("a  b".to_string())
    );
}

#[test]
fn plain_commands_take_no_operand() {
    assert_eq!(parse_args(&strings(&["view"])).unwrap(), CliCommand::View);
    assert_eq!(parse_args(&strings(&["back"])).unwrap(), CliCommand::Back);
    assert_eq!(
        parse_args(&strings(&["forward"])).unwrap(),
        CliCommand::Forward
    );
    assert_eq!(parse_args(&strings(&["reload"])).unwrap(), CliCommand::Reload);
    assert_eq!(parse_args(&strings(&["stop"])).unwrap(), CliCommand::Stop);
    assert_eq!(parse_args(&strings(&["status"])).unwrap(), CliCommand::Status);
    assert_eq!(
        parse_args(&strings(&["status", "now"])).unwrap_err(),
        "usage: brausi status"
    );
    assert_eq!(
        no_extra(&strings(&["view", "x"]), CliCommand::View).unwrap_err(),
        "usage: brausi view"
    );
}

#[test]
fn out_of_bounds_message() {
    let config = Config::from_env(&Environment::new(false)).unwrap();
    assert_eq!(
        validate_coords(&config, 2000, 5).unwrap_err(),
        "coordinates out of bounds: 2000,5; expected x=0..1023 y=0..767"
    );
    let mut empty = Config::from_env(&Environment::new(false)).unwrap();
    empty.width = 0;
    empty.height = 0;
    assert_eq!(
        validate_coords(&empty, 0, 0).unwrap_err(),
        "coordinates out of bounds: 0,0; expected x=0..0 y=0..0"
    );
}
