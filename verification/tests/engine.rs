use bottlerocket_settings_sdk::cli::{
    GenerateCommand, MigrateCommand, Proto1Command, SetCommand, ValidateCommand,
};
use bottlerocket_settings_sdk::extension::{MigrationDirection, SettingsExtension};
use bottlerocket_settings_sdk::model::{
    BottlerocketSetting, GenerateResult, Model, NoMigration, PassthroughModel,
};
use bottlerocket_settings_sdk::motd::{MotdModel, MotdV1, MotdV1Partial, MotdV2};
use bottlerocket_settings_sdk::{Error, Value};

fn motd_extension() -> SettingsExtension<MotdModel> {
    SettingsExtension::with_models(MotdModel::models()).expect("unique versions")
}

fn passthrough(version: &str, forward: Option<&str>, backward: Option<&str>) -> PassthroughModel {
    PassthroughModel {
        version: String::from(version),
        forward: forward.map(String::from),
        backward: backward.map(String::from),
    }
}

fn chain3() -> SettingsExtension<PassthroughModel> {
    SettingsExtension::with_models(vec![
        passthrough("v1", Some("v2"), None),
        passthrough("v2", Some("v3"), Some("v1")),
        passthrough("v3", None, Some("v2")),
    ])
    .expect("unique versions")
}

fn motd_v1(text: &str) -> Value {
    Value::Object(vec![(String::from("motd"), Value::Text(String::from(text)))])
}

fn motd_v2(text: &str, person: &str) -> Value {
    Value::Object(vec![
        (String::from("motd"), Value::Text(String::from(text))),
        (String::from("person"), Value::Text(String::from(person))),
    ])
}

#[test]
fn identity_route_is_empty() {
    let ext = chain3();
    assert_eq!(ext.find_migration_route("v2", "v2"), Some(vec![]));
}

#[test]
fn identity_migration_returns_value_unchanged() {
    let ext = motd_extension();
    let migrated = ext
        .perform_migration(motd_v1("hi"), "v1", "v1")
        .expect("identity migration succeeds");
    assert_eq!(migrated, motd_v1("hi"));
}

#[test]
fn three_node_chain_routes_forward_and_backward() {
    let ext = chain3();
    assert_eq!(
        ext.find_migration_route("v1", "v3"),
        Some(vec![MigrationDirection::Forward, MigrationDirection::Forward]),
    );
    assert_eq!(
        ext.find_migration_route("v3", "v1"),
        Some(vec![MigrationDirection::Backward, MigrationDirection::Backward]),
    );
}

#[test]
fn one_step_routes_on_the_chain() {
    let ext = chain3();
    assert_eq!(
        ext.find_migration_route("v1", "v2"),
        Some(vec![MigrationDirection::Forward]),
    );
    assert_eq!(
        ext.find_migration_route("v3", "v2"),
        Some(vec![MigrationDirection::Backward]),
    );
}

#[test]
fn disjoint_chains_have_no_route() {
    let ext = SettingsExtension::with_models(vec![
        passthrough("a1", Some("a2"), None),
        passthrough("a2", None, Some("a1")),
        passthrough("b1", Some("b2"), None),
        passthrough("b2", None, Some("b1")),
    ])
    .expect("unique versions");
    assert_eq!(ext.find_migration_route("a1", "b2"), None);
    assert_eq!(ext.find_migration_route("b2", "a1"), None);
    let outcome = ext.perform_migration(Value::Null, "a1", "b2");
    assert_eq!(
        outcome,
        Err(Error::NoMigrationPath { from: String::from("a1"), to: String::from("b2") }),
    );
}

#[test]
fn absent_target_has_no_route() {
    let ext = motd_extension();
    assert_eq!(ext.find_migration_route("v1", "v9"), None);
    let outcome = ext.perform_migration(motd_v1("hi"), "v1", "v9");
    assert_eq!(
        outcome,
        Err(Error::NoMigrationPath { from: String::from("v1"), to: String::from("v9") }),
    );
}

#[test]
fn unknown_start_fails_before_routing() {
    let ext = motd_extension();
    let outcome = ext.perform_migration(motd_v1("hi"), "v99", "v1");
    assert_eq!(outcome, Err(Error::UnknownVersion { version: String::from("v99") }));
}

#[test]
fn forward_migration_adds_person() {
    let ext = motd_extension();
    let migrated = ext
        .perform_migration(motd_v1("hi"), "v1", "v2")
        .expect("forward migration succeeds");
    assert_eq!(migrated, motd_v2("hi", "Sean"));
}

#[test]
fn backward_migration_drops_person() {
    let ext = motd_extension();
    let migrated = ext
        .perform_migration(motd_v2("hi", "Sean"), "v2", "v1")
        .expect("backward migration succeeds");
    assert_eq!(migrated, motd_v1("hi"));
}

#[test]
fn migrate_command_round_trip_is_lossy() {
    let ext = motd_extension();
    let there = ext
        .migrate(MigrateCommand {
            value: motd_v2("hi", "Santa"),
            from_version: String::from("v2"),
            target_version: String::from("v1"),
        })
        .expect("backward migration succeeds");
    assert_eq!(there, motd_v1("hi"));
    let back = ext
        .migrate(MigrateCommand {
            value: there,
            from_version: String::from("v1"),
            target_version: String::from("v2"),
        })
        .expect("forward migration succeeds");
    assert_eq!(back, motd_v2("hi", "Sean"));
}

#[test]
fn strict_schema_rejects_unknown_field() {
    let ext = motd_extension();
    let with_extra = Value::Object(vec![
        (String::from("motd"), Value::Text(String::from("hi"))),
        (String::from("extra"), Value::Int(1)),
    ]);
    let outcome = ext.validate(ValidateCommand {
        setting_version: String::from("v1"),
        value: with_extra,
        required_settings: None,
    });
    assert_eq!(outcome, Err(Error::SerializationMismatch { version: String::from("v1") }));
}

#[test]
fn strict_schema_rejects_wrong_shape() {
    let ext = motd_extension();
    let outcome = ext.set(SetCommand {
        setting_version: String::from("v1"),
        value: Value::Text(String::from("hi")),
        current_value: None,
    });
    assert_eq!(outcome, Err(Error::SerializationMismatch { version: String::from("v1") }));
}

#[test]
fn failing_step_is_wrapped_with_its_sub_step() {
    let ext = motd_extension();
    let bad = Value::Object(vec![(String::from("bad"), Value::Int(1))]);
    let outcome = ext.perform_migration(bad, "v1", "v2");
    assert_eq!(
        outcome,
        Err(Error::MigrationStepFailure {
            from: String::from("v1"),
            to: String::from("v2"),
            cause: Box::new(Error::SerializationMismatch { version: String::from("v1") }),
        }),
    );
}

#[test]
fn set_accepts_and_returns_the_proposed_value() {
    let ext = motd_extension();
    let accepted = ext
        .set(SetCommand {
            setting_version: String::from("v2"),
            value: motd_v2("hello", "Ana"),
            current_value: Some(motd_v2("old", "Bo")),
        })
        .expect("set succeeds");
    assert_eq!(accepted, motd_v2("hello", "Ana"));
}

#[test]
fn set_with_unknown_version_fails() {
    let ext = motd_extension();
    let outcome = ext.set(SetCommand {
        setting_version: String::from("v7"),
        value: motd_v1("hi"),
        current_value: None,
    });
    assert_eq!(outcome, Err(Error::UnknownVersion { version: String::from("v7") }));
}

#[test]
fn generate_completes_with_the_default() {
    let ext = motd_extension();
    let generated = ext
        .generate(GenerateCommand {
            setting_version: String::from("v1"),
            existing_partial: None,
            required_settings: None,
        })
        .expect("generate succeeds");
    assert_eq!(generated, GenerateResult::Complete(Some(motd_v1(""))));
}

#[test]
fn generate_accepts_a_partial_with_an_absent_field() {
    let ext = motd_extension();
    let partial = Value::Object(vec![(String::from("motd"), Value::Null)]);
    let generated = ext
        .generate(GenerateCommand {
            setting_version: String::from("v1"),
            existing_partial: Some(partial),
            required_settings: None,
        })
        .expect("generate succeeds");
    assert_eq!(generated, GenerateResult::Complete(Some(motd_v1(""))));
}

#[test]
fn validate_accepts_a_well_formed_value() {
    let ext = motd_extension();
    let verdict = ext
        .validate(ValidateCommand {
            setting_version: String::from("v2"),
            value: motd_v2("hi", "Sean"),
            required_settings: Some(Value::Bool(true)),
        })
        .expect("validate succeeds");
    assert!(verdict);
}

#[test]
fn duplicate_versions_are_a_construction_error() {
    let outcome = SettingsExtension::with_models(vec![
        passthrough("v1", None, None),
        passthrough("v2", None, None),
        passthrough("v1", None, None),
    ]);
    match outcome {
        Err(e) => assert_eq!(e, Error::DuplicateVersion { version: String::from("v1") }),
        Ok(_) => panic!("duplicate registration must be rejected"),
    }
}

#[test]
fn model_lookup_finds_registered_versions_only() {
    let ext = motd_extension();
    assert!(ext.model("v1").is_some());
    assert!(ext.model("v2").is_some());
    assert!(ext.model("v3").is_none());
}

#[test]
fn no_defined_migration_is_the_explicit_terminal_outcome() {
    assert_eq!(NoMigration::no_defined_migration(), Ok(NoMigration));
}

#[test]
fn passthrough_migration_hands_the_value_on_untouched() {
    let ext = chain3();
    let value = Value::Array(vec![Value::Int(3), Value::Text(String::from("x"))]);
    let migrated = ext
        .perform_migration(value, "v1", "v3")
        .expect("passthrough migration succeeds");
    assert_eq!(migrated, Value::Array(vec![Value::Int(3), Value::Text(String::from("x"))]));
}

#[test]
fn erase_type_replaces_typed_payloads() {
    let g: GenerateResult<MotdV1Partial, MotdV1> =
        GenerateResult::NeedsData(Some(MotdV1Partial { motd: Some(String::from("hi")) }));
    assert_eq!(
        g.erase_type(),
        GenerateResult::NeedsData(Some(Value::Object(vec![(
            String::from("motd"),
            Value::Text(String::from("hi")),
        )]))),
    );
}

#[test]
fn erase_type_keeps_absent_payloads_absent() {
    let g: GenerateResult<MotdV1Partial, MotdV1> = GenerateResult::Complete(None);
    assert_eq!(g.erase_type(), GenerateResult::Complete(None));
}

#[test]
fn dispatch_renders_each_command_kind() {
    let ext = motd_extension();
    let accepted = ext.dispatch(Proto1Command::SetValue(SetCommand {
        setting_version: String::from("v1"),
        value: motd_v1("hello"),
        current_value: None,
    }));
    assert_eq!(accepted, Ok(motd_v1("hello")));
    let generated = ext.dispatch(Proto1Command::Generate(GenerateCommand {
        setting_version: String::from("v1"),
        existing_partial: None,
        required_settings: None,
    }));
    assert_eq!(
        generated,
        Ok(Value::Object(vec![(String::from("Complete"), motd_v1(""))])),
    );
    let verdict = ext.dispatch(Proto1Command::Validate(ValidateCommand {
        setting_version: String::from("v1"),
        value: motd_v1("hello"),
        required_settings: None,
    }));
    assert_eq!(verdict, Ok(Value::Bool(true)));
    let migrated = ext.dispatch(Proto1Command::Migrate(MigrateCommand {
        value: motd_v1("hi"),
        from_version: String::from("v1"),
        target_version: String::from("v2"),
    }));
    assert_eq!(migrated, Ok(motd_v2("hi", "Sean")));
}

#[test]
fn adapter_reports_its_schema_identity() {
    let v1 = BottlerocketSetting::<MotdV1>::model();
    assert_eq!(v1.get_version(), "v1");
    assert_eq!(v1.migrates_forward_to(), Some(String::from("v2")));
    assert_eq!(v1.migrates_backward_to(), None);
    let v2 = BottlerocketSetting::<MotdV2>::model();
    assert_eq!(v2.get_version(), "v2");
    assert_eq!(v2.migrates_forward_to(), None);
    assert_eq!(v2.migrates_backward_to(), Some(String::from("v1")));
}
