use builder::command::Command;
use builder::instance::BuildError;

#[test]
fn command_chain_in_any_order_builds_the_record() {
    let command = Command::builder()
        .executable("run".to_string())
        .current_dir("/tmp".to_string())
        .env(vec![])
        .args(vec![])
        .build()
        .unwrap();
    assert_eq!(command.executable, "run");
    assert_eq!(command.args, Vec::<String>::new());
    assert_eq!(command.env, Vec::<String>::new());
    assert_eq!(command.current_dir, "/tmp");
}

#[test]
fn command_missing_env_fails_naming_env() {
    let b = Command::builder()
        .executable("run".to_string())
        .current_dir("/tmp".to_string())
        .args(vec![]);
    let BuildError::FieldNotSet(name) = b.build().unwrap_err();
    assert_eq!(name, "env");
}

#[test]
fn command_fresh_builder_fails_naming_executable() {
    let BuildError::FieldNotSet(name) = Command::builder().build().unwrap_err();
    assert_eq!(name, "executable");
}

#[test]
fn command_setter_order_has_no_effect() {
    let in_declaration_order = Command::builder()
        .executable("run".to_string())
        .args(vec!["-v".to_string()])
        .env(vec!["HOME=/root".to_string()])
        .current_dir("/tmp".to_string())
        .build()
        .unwrap();
    let reversed = Command::builder()
        .current_dir("/tmp".to_string())
        .env(vec!["HOME=/root".to_string()])
        .args(vec!["-v".to_string()])
        .executable("run".to_string())
        .build()
        .unwrap();
    assert_eq!(in_declaration_order.executable, reversed.executable);
    assert_eq!(in_declaration_order.args, reversed.args);
    assert_eq!(in_declaration_order.env, reversed.env);
    assert_eq!(in_declaration_order.current_dir, reversed.current_dir);
}

#[test]
fn command_last_write_wins() {
    let command = Command::builder()
        .executable("first".to_string())
        .executable("second".to_string())
        .args(vec![])
        .env(vec![])
        .current_dir(".".to_string())
        .build()
        .unwrap();
    assert_eq!(command.executable, "second");
}

#[test]
fn command_missing_field_then_retry_succeeds() {
    let b = Command::builder()
        .executable("run".to_string())
        .args(vec![])
        .env(vec![]);
    let BuildError::FieldNotSet(name) = b.build().unwrap_err();
    assert_eq!(name, "current_dir");
    let b = b.current_dir("/srv".to_string());
    let command = b.build().unwrap();
    assert_eq!(command.current_dir, "/srv");
    assert_eq!(command.executable, "run");
}

#[test]
fn command_build_copies_the_stored_values() {
    let b = Command::builder()
        .executable("run".to_string())
        .args(vec!["a".to_string(), "b".to_string()])
        .env(vec!["K=v".to_string()])
        .current_dir("/tmp".to_string());
    let first = b.build().unwrap();
    let second = b.build().unwrap();
    assert_eq!(first.args, vec!["a".to_string(), "b".to_string()]);
    assert_eq!(second.args, first.args);
    assert_eq!(second.env, first.env);
}
