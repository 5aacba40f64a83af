use cosmic_panel::button::{Button, Msg};
use cosmic_panel::desktop::{desktop_filename, Desktop, EntryFields, LoadError};
use cosmic_panel::entry::{find_keyless_line, parse_entry};
use cosmic_panel::search::{load_desktop, Candidate};

const FIREFOX: &str = "[Desktop Entry]\nType=Application\nName=Firefox\nIcon=firefox\nExec=firefox %u\n";

fn candidate(path: &str, contents: Option<&str>) -> Candidate {
    Candidate { path: path.to_string(), contents: contents.map(|c| c.to_string()) }
}

fn some(text: &str) -> Option<String> {
    Some(text.to_string())
}

#[test]
fn filename_is_the_id_with_its_extension() {
    assert_eq!(desktop_filename("foo"), "foo.desktop");
    assert_eq!(desktop_filename("org.mozilla.firefox"), "org.mozilla.firefox.desktop");
    assert_eq!(desktop_filename(""), ".desktop");
}

#[test]
fn fields_are_returned_as_supplied() {
    let fields = parse_entry("/usr/share/applications/firefox.desktop", FIREFOX).unwrap();
    assert_eq!(fields.name, some("Firefox"));
    assert_eq!(fields.icon, some("firefox"));
    assert_eq!(fields.command, some("firefox %u"));
}

#[test]
fn values_are_not_transformed() {
    let text = "[Desktop Entry]\nName=A \\s name; with = signs \\n\nExec=sh -c \"echo $HOME\" %f\n";
    let fields = parse_entry("a.desktop", text).unwrap();
    assert_eq!(fields.name, some("A \\s name; with = signs \\n"));
    assert_eq!(fields.icon, None);
    assert_eq!(fields.command, some("sh -c \"echo $HOME\" %f"));
}

#[test]
fn icon_is_optional() {
    let text = "[Desktop Entry]\nName=Term\nExec=term\n";
    let desktop = parse_entry("term.desktop", text).unwrap().into_desktop().unwrap();
    assert_eq!(
        desktop,
        Desktop { name: "Term".to_string(), icon: None, command: "term".to_string() }
    );
}

#[test]
fn keys_of_other_groups_are_not_read() {
    let text = "[Desktop Action new]\nName=New Window\nExec=app --new\n[Desktop Entry]\nName=App\n";
    let fields = parse_entry("app.desktop", text).unwrap();
    assert_eq!(fields.name, some("App"));
    assert_eq!(fields.command, None);
}

#[test]
fn localized_names_are_not_picked() {
    let text = "[Desktop Entry]\nName[de]=Dateien\nName=Files\nExec=files\n";
    let fields = parse_entry("files.desktop", text).unwrap();
    assert_eq!(fields.name, some("Files"));
}

#[test]
fn name_is_not_translated() {
    let text = "[Desktop Entry]\nX-Ubuntu-Gettext-Domain=nautilus\nName=Files\nExec=nautilus\n";
    let fields = parse_entry("nautilus.desktop", text).unwrap();
    assert_eq!(fields.name, some("Files"));
    assert_eq!(fields.command, some("nautilus"));
}

#[test]
fn comments_and_blank_lines_are_skipped() {
    let text = "# a comment = with a sign\n\n  \n[Desktop Entry]\r\n  Name=Padded  \r\nExec=run\r\n";
    let fields = parse_entry("padded.desktop", text).unwrap();
    assert_eq!(fields.name, some("Padded"));
    assert_eq!(fields.command, some("run"));
}

#[test]
fn empty_text_decodes_to_an_entry_without_fields() {
    assert_eq!(parse_entry("empty.desktop", ""), Some(EntryFields::default()));
}

#[test]
fn path_without_a_file_name_is_refused() {
    assert_eq!(parse_entry("/", FIREFOX), None);
    assert_eq!(parse_entry("", FIREFOX), None);
    assert_eq!(parse_entry("..", FIREFOX), None);
}

#[test]
fn keyless_lines_are_found() {
    assert!(find_keyless_line("=value"));
    assert!(find_keyless_line("[Desktop Entry]\nName=App\n=value\nExec=app"));
    assert!(find_keyless_line("Name=App\n   = value"));
    assert!(find_keyless_line("Name=App\n\t\r=value\n"));
    assert!(find_keyless_line("Name=App\r\n=value"));
    assert!(find_keyless_line("\u{2003}\u{a0}=value"));
    assert!(find_keyless_line("a=b\n\n\n="));
}

#[test]
fn keyed_lines_are_not_keyless() {
    assert!(!find_keyless_line(""));
    assert!(!find_keyless_line("\n\n"));
    assert!(!find_keyless_line(FIREFOX));
    assert!(!find_keyless_line("a=value"));
    assert!(!find_keyless_line("  a  =value"));
    assert!(!find_keyless_line("Name==value"));
    assert!(!find_keyless_line("#=value"));
    assert!(!find_keyless_line("[=]\nName=App"));
    assert!(!find_keyless_line("_=value"));
    assert!(!find_keyless_line("\u{200b}=value"));
}

#[test]
fn text_with_a_keyless_line_is_not_decoded() {
    assert_eq!(parse_entry("bad.desktop", "[Desktop Entry]\nName=App\n=value\nExec=app\n"), None);
    assert_eq!(parse_entry("bad.desktop", "  =\n"), None);
    assert_eq!(parse_entry("bad.desktop", "\u{3000}=x"), None);
}

#[test]
fn entry_needs_name_and_exec() {
    let complete = EntryFields { name: some("N"), icon: some("I"), command: some("E") };
    assert_eq!(
        complete.into_desktop(),
        Ok(Desktop { name: "N".to_string(), icon: some("I"), command: "E".to_string() })
    );
    let without_icon = EntryFields { name: some("N"), icon: None, command: some("E") };
    assert_eq!(
        without_icon.into_desktop(),
        Ok(Desktop { name: "N".to_string(), icon: None, command: "E".to_string() })
    );
    let without_name = EntryFields { name: None, icon: some("I"), command: some("E") };
    assert_eq!(without_name.into_desktop(), Err(LoadError::MissingName));
    let without_exec = EntryFields { name: some("N"), icon: some("I"), command: None };
    assert_eq!(without_exec.into_desktop(), Err(LoadError::MissingExec));
    let without_both = EntryFields { name: None, icon: None, command: None };
    assert_eq!(without_both.into_desktop(), Err(LoadError::MissingName));
}

#[test]
fn empty_values_count_as_present() {
    let text = "[Desktop Entry]\nName=\nExec=\n";
    let desktop = parse_entry("blank.desktop", text).unwrap().into_desktop().unwrap();
    assert_eq!(desktop, Desktop { name: String::new(), icon: None, command: String::new() });
}

#[test]
fn second_path_is_used_when_the_first_has_no_file() {
    let candidates = vec![
        candidate("/A/foo.desktop", None),
        candidate("/B/foo.desktop", Some("[Desktop Entry]\nName=Foo\nIcon=foo-icon\nExec=foo --run\n")),
    ];
    assert_eq!(
        load_desktop(&candidates),
        Ok(Desktop {
            name: "Foo".to_string(),
            icon: some("foo-icon"),
            command: "foo --run".to_string(),
        })
    );
}

#[test]
fn first_match_wins() {
    let candidates = vec![
        candidate("/A/foo.desktop", Some("[Desktop Entry]\nName=From A\nExec=a\n")),
        candidate("/B/foo.desktop", Some("[Desktop Entry]\nName=From B\nExec=b\n")),
    ];
    let desktop = load_desktop(&candidates).unwrap();
    assert_eq!(desktop.name, "From A");
    assert_eq!(desktop.command, "a");
}

#[test]
fn missing_exec_fails_the_load() {
    let candidates =
        vec![candidate("/A/foo.desktop", Some("[Desktop Entry]\nName=Foo\nIcon=foo\n"))];
    let error = load_desktop(&candidates).unwrap_err();
    assert_eq!(error, LoadError::MissingExec);
    let message = error.message(&desktop_filename("foo"));
    assert_eq!(message, "Desktop file 'foo.desktop' doesn't have `Exec`");
    assert!(message.contains("Exec"));
    assert!(message.contains("foo.desktop"));
}

#[test]
fn missing_name_fails_the_load() {
    let candidates = vec![candidate("/A/foo.desktop", Some("[Desktop Entry]\nExec=foo\n"))];
    let error = load_desktop(&candidates).unwrap_err();
    assert_eq!(error, LoadError::MissingName);
    assert_eq!(error.message("foo.desktop"), "Desktop file 'foo.desktop' doesn't have `Name`");
}

#[test]
fn found_file_without_a_field_is_not_passed_over() {
    let candidates = vec![
        candidate("/A/foo.desktop", Some("[Desktop Entry]\nName=Foo\n")),
        candidate("/B/foo.desktop", Some("[Desktop Entry]\nName=Foo\nExec=foo\n")),
    ];
    assert_eq!(load_desktop(&candidates), Err(LoadError::MissingExec));
}

#[test]
fn nothing_found_fails_the_load() {
    assert_eq!(load_desktop(&vec![]), Err(LoadError::NotFound));
    let candidates = vec![candidate("/A/foo.desktop", None), candidate("/B/foo.desktop", None)];
    let error = load_desktop(&candidates).unwrap_err();
    assert_eq!(error, LoadError::NotFound);
    assert_eq!(
        error.message("foo.desktop"),
        "Failed to find valid desktop file 'foo.desktop' in search paths"
    );
}

#[test]
fn undecodable_file_is_passed_over() {
    let candidates = vec![
        candidate("/A/foo.desktop", Some("[Desktop Entry]\n=oops\nName=Broken\nExec=broken\n")),
        candidate("/B/foo.desktop", Some("[Desktop Entry]\nName=Foo\nExec=foo\n")),
    ];
    assert_eq!(load_desktop(&candidates).unwrap().name, "Foo");
    let only_broken = vec![candidate("/A/foo.desktop", Some("=oops"))];
    assert_eq!(load_desktop(&only_broken), Err(LoadError::NotFound));
}

#[test]
fn press_runs_the_command_in_a_shell() {
    let desktop = Desktop {
        name: "Firefox".to_string(),
        icon: some("firefox"),
        command: "firefox %u".to_string(),
    };
    let mut button = Button::new(desktop);
    let spawn = button.update(Msg::Press);
    assert_eq!(spawn.program, "sh");
    assert_eq!(spawn.arguments, vec!["-c".to_string(), "firefox %u".to_string()]);
    let again = button.update(Msg::Press);
    assert_eq!(again, spawn);
}

#[test]
fn button_shows_the_name() {
    let desktop = parse_entry("firefox.desktop", FIREFOX).unwrap().into_desktop().unwrap();
    let button = Button::new(desktop);
    assert_eq!(button.title(), "Button");
    assert_eq!(button.label(), "Firefox");
    assert_eq!(button.icon(), &some("firefox"));
}
