use carrier::XnConfig;
use carrier::XnError;
use carrier::config_entry_line;
use carrier::config_get;
use carrier::config_set;
use carrier::parse_config;
use carrier::render_config;

fn sample() -> XnConfig {
    XnConfig {
        compiler_path: String::from("xcc"),
        interpreter_path: String::from("xin"),
        vm_path: String::from("xrun"),
        project_name: String::from("demo"),
    }
}

#[test]
fn render_is_key_ordered_and_exact() {
    let text = render_config(&sample());
    assert_eq!(
        text,
        "compiler_path = \"xcc\"\ninterpreter_path = \"xin\"\nproject_name = \"demo\"\nvm_path = \"xrun\"\n"
    );
}

#[test]
fn round_trip_keeps_every_field() {
    let c = XnConfig {
        compiler_path: String::from("/usr/local/bin/xcc"),
        interpreter_path: String::from("tools/xin"),
        vm_path: String::from("xrun"),
        project_name: String::from("my project (v2)"),
    };
    let back = parse_config(&render_config(&c)).unwrap();
    assert_eq!(back.compiler_path, c.compiler_path);
    assert_eq!(back.interpreter_path, c.interpreter_path);
    assert_eq!(back.vm_path, c.vm_path);
    assert_eq!(back.project_name, c.project_name);
}

#[test]
fn parse_accepts_comments_blank_lines_and_any_order() {
    let text = "# project settings\n\nvm_path = \"xrun\"\nproject_name = \"demo\"\n\ncompiler_path = \"xcc\"\ninterpreter_path = \"xin\"\n";
    let c = parse_config(text).unwrap();
    assert_eq!(c.compiler_path, "xcc");
    assert_eq!(c.interpreter_path, "xin");
    assert_eq!(c.vm_path, "xrun");
    assert_eq!(c.project_name, "demo");
}

#[test]
fn parse_accepts_a_missing_final_line_break() {
    let text = "compiler_path = \"xcc\"\ninterpreter_path = \"xin\"\nproject_name = \"demo\"\nvm_path = \"xrun\"";
    let c = parse_config(text).unwrap();
    assert_eq!(c.vm_path, "xrun");
}

#[test]
fn parse_rejects_empty_text() {
    assert_eq!(parse_config("").unwrap_err(), XnError::ConfigParseError);
}

#[test]
fn parse_rejects_a_missing_field() {
    let text = "compiler_path = \"xcc\"\ninterpreter_path = \"xin\"\nproject_name = \"demo\"\n";
    assert_eq!(parse_config(text).unwrap_err(), XnError::ConfigParseError);
}

#[test]
fn parse_rejects_a_duplicate_field() {
    let text = "compiler_path = \"xcc\"\ncompiler_path = \"xcc2\"\ninterpreter_path = \"xin\"\nproject_name = \"demo\"\nvm_path = \"xrun\"\n";
    assert_eq!(parse_config(text).unwrap_err(), XnError::ConfigParseError);
}

#[test]
fn parse_rejects_an_unknown_key() {
    let text = "compiler_path = \"xcc\"\ninterpreter_path = \"xin\"\nproject_name = \"demo\"\nvm_path = \"xrun\"\nlinker_path = \"xld\"\n";
    assert_eq!(parse_config(text).unwrap_err(), XnError::ConfigParseError);
}

#[test]
fn parse_rejects_a_malformed_line() {
    let text = "compiler_path = xcc\ninterpreter_path = \"xin\"\nproject_name = \"demo\"\nvm_path = \"xrun\"\n";
    assert_eq!(parse_config(text).unwrap_err(), XnError::ConfigParseError);
}

#[test]
fn parse_rejects_a_stray_quote_in_a_value() {
    let text = "compiler_path = \"x\"cc\"\ninterpreter_path = \"xin\"\nproject_name = \"demo\"\nvm_path = \"xrun\"\n";
    assert_eq!(parse_config(text).unwrap_err(), XnError::ConfigParseError);
}

#[test]
fn config_get_finds_each_known_key_and_no_other() {
    let c = sample();
    assert_eq!(config_get(&c, &String::from("compiler_path")).unwrap(), "xcc");
    assert_eq!(config_get(&c, &String::from("interpreter_path")).unwrap(), "xin");
    assert_eq!(config_get(&c, &String::from("vm_path")).unwrap(), "xrun");
    assert_eq!(config_get(&c, &String::from("project_name")).unwrap(), "demo");
    assert!(config_get(&c, &String::from("linker_path")).is_none());
}

#[test]
fn config_set_updates_a_known_key() {
    let c = sample();
    let (updated, known) = config_set(&c, &String::from("vm_path"), &String::from("/opt/xrun"));
    assert!(known);
    assert_eq!(updated.vm_path, "/opt/xrun");
    assert_eq!(updated.compiler_path, "xcc");
    assert_eq!(updated.project_name, "demo");
}

#[test]
fn config_set_with_an_unknown_key_changes_nothing() {
    let c = sample();
    let before = render_config(&c);
    let (updated, known) = config_set(&c, &String::from("linker_path"), &String::from("xld"));
    assert!(!known);
    assert_eq!(render_config(&updated), before);
}

#[test]
fn updated_key_is_read_back_as_set() {
    let c = sample();
    let (updated, known) =
        config_set(&c, &String::from("compiler_path"), &String::from("/usr/bin/xcc"));
    assert!(known);
    let persisted = render_config(&updated);
    let reloaded = parse_config(&persisted).unwrap();
    let value = config_get(&reloaded, &String::from("compiler_path")).unwrap();
    let line = config_entry_line(&String::from("compiler_path"), &value);
    assert_eq!(line, "compiler_path = /usr/bin/xcc");
}
