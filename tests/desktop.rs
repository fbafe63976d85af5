use auth_rs::desktop::{build_exec_command, desktop_entry_contents, desktop_file_name};

#[test]
fn exec_command_plain() {
    assert_eq!(
        build_exec_command(&None, "123", "runelite", &[]),
        "auth-rs exec --character-id 123 runelite"
    );
}

#[test]
fn exec_command_with_session_and_args() {
    let args = vec!["--foo".to_string(), "bar".to_string()];
    assert_eq!(
        build_exec_command(&Some("main".to_string()), "123", "runelite", &args),
        "auth-rs exec --session-name main --character-id 123 runelite -- --foo bar"
    );
}

#[test]
fn entry_contents() {
    assert_eq!(
        desktop_entry_contents("My Game", "auth-rs exec --character-id 1 rl"),
        "[Desktop Entry]\nName=My Game\nComment=Launch RuneLite\nExec=auth-rs exec --character-id 1 rl\nIcon=runelite\nTerminal=false\nType=Application\nCategories=Game;\n"
    );
}

#[test]
fn file_name_is_sanitized_and_lowercase() {
    assert_eq!(desktop_file_name("My Game: Main-1_x"), "my_game__main-1_x.desktop");
    assert_eq!(desktop_file_name("Ünïcode"), "ünïcode.desktop");
    assert_eq!(desktop_file_name(""), ".desktop");
}
