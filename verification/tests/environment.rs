use mapped_command::env::EnvBuilder;
use mapped_command::env::EnvUpdate;
use mapped_command::output_mapping::ReturnNothing;
use mapped_command::Command;

fn ambient() -> Vec<(String, String)> {
    vec![
        ("HOME".to_owned(), "/root".to_owned()),
        ("FOOBAR".to_owned(), "the foo".to_owned()),
        ("DODO".to_owned(), "no no".to_owned()),
    ]
}

fn sorted(mut entries: Vec<(String, String)>) -> Vec<(String, String)> {
    entries.sort();
    entries
}

#[test]
fn by_default_no_environment_updates_are_done() {
    let cmd = Command::new("foo".to_owned(), ReturnNothing);
    assert_eq!(cmd.spawn_options.env_builder.env_updates().len(), 0);
}

#[test]
fn by_default_env_is_inherited() {
    let cmd = Command::new("foo".to_owned(), ReturnNothing);
    assert_eq!(cmd.spawn_options.env_builder.inherit_env(), true);
    let env_map = cmd.spawn_options.env_builder.resolve(&ambient());
    assert_ne!(env_map.len(), 0);
}

#[test]
fn inheritance_of_env_variables_can_be_disabled() {
    let cmd = Command::new("foo".to_owned(), ReturnNothing).with_inherit_env(false);
    let env_map = cmd.spawn_options.env_builder.resolve(&ambient());
    assert_eq!(env_map.len(), 0);
}

#[test]
fn inheriting_with_no_updates_resolves_to_the_ambient_env() {
    let builder = EnvBuilder::new();
    let resolved = builder.resolve(&ambient());
    assert_eq!(sorted(resolved), sorted(ambient()));
}

#[test]
fn not_inheriting_with_no_updates_resolves_to_nothing() {
    let builder = EnvBuilder::new().set_inherit_env(false);
    let resolved = builder.resolve(&ambient());
    assert_eq!(resolved, Vec::<(String, String)>::new());
}

#[test]
fn updates_apply_on_top_of_inheritance_in_insertion_order() {
    let builder = EnvBuilder::new()
        .insert_update("BARFOOT".to_owned(), EnvUpdate::Assign("one".to_owned()))
        .insert_updates(vec![
            ("BARFOOT".to_owned(), EnvUpdate::Assign("two".to_owned())),
            ("DODO".to_owned(), EnvUpdate::Unset),
        ])
        .insert_update("HOME".to_owned(), EnvUpdate::Assign("/tmp".to_owned()));
    let resolved = builder.resolve(&ambient());
    assert_eq!(
        sorted(resolved),
        sorted(vec![
            ("BARFOOT".to_owned(), "two".to_owned()),
            ("FOOBAR".to_owned(), "the foo".to_owned()),
            ("HOME".to_owned(), "/tmp".to_owned()),
        ])
    );
}

#[test]
fn single_and_bulk_insertion_stage_the_same_updates() {
    let singly = EnvBuilder::new()
        .insert_update("A".to_owned(), EnvUpdate::Assign("1".to_owned()))
        .insert_update("B".to_owned(), EnvUpdate::Unset)
        .insert_update("A".to_owned(), EnvUpdate::Assign("2".to_owned()));
    let bulk = EnvBuilder::new().insert_updates(vec![
        ("A".to_owned(), EnvUpdate::Assign("1".to_owned())),
        ("B".to_owned(), EnvUpdate::Unset),
        ("A".to_owned(), EnvUpdate::Assign("2".to_owned())),
    ]);
    assert_eq!(singly.env_updates(), bulk.env_updates());
    assert_eq!(
        sorted(singly.resolve(&ambient())),
        sorted(bulk.resolve(&ambient()))
    );
}

#[test]
fn inherit_update_overrides_a_disabled_inheritance() {
    let builder = EnvBuilder::new()
        .set_inherit_env(false)
        .insert_update("FOOBAR".to_owned(), EnvUpdate::Inherit)
        .insert_update("BARFOOT".to_owned(), EnvUpdate::Assign("the bar".to_owned()));
    let resolved = builder.resolve(&ambient());
    assert_eq!(
        sorted(resolved),
        sorted(vec![
            ("BARFOOT".to_owned(), "the bar".to_owned()),
            ("FOOBAR".to_owned(), "the foo".to_owned()),
        ])
    );
}

#[test]
fn an_inherit_update_of_an_absent_variable_stays_absent() {
    let builder = EnvBuilder::new()
        .set_inherit_env(false)
        .insert_update("NO_SUCH_VARIABLE".to_owned(), EnvUpdate::Inherit);
    let resolved = builder.resolve(&ambient());
    assert_eq!(resolved, Vec::<(String, String)>::new());
}

#[test]
fn unset_removes_an_inherited_variable() {
    let builder = EnvBuilder::new().insert_update("HOME".to_owned(), EnvUpdate::Unset);
    let resolved = builder.resolve(&ambient());
    assert_eq!(
        sorted(resolved),
        sorted(vec![
            ("FOOBAR".to_owned(), "the foo".to_owned()),
            ("DODO".to_owned(), "no no".to_owned()),
        ])
    );
}

#[test]
fn later_updates_to_a_key_replace_earlier_ones_in_the_staged_list() {
    let builder = EnvBuilder::new()
        .insert_update("A".to_owned(), EnvUpdate::Assign("1".to_owned()))
        .insert_update("B".to_owned(), EnvUpdate::Inherit)
        .insert_update("A".to_owned(), EnvUpdate::Unset);
    let staged = builder.env_updates();
    assert_eq!(staged.len(), 2);
    assert!(staged.contains(&("B".to_owned(), EnvUpdate::Inherit)));
    assert!(staged.contains(&("A".to_owned(), EnvUpdate::Unset)));
}

#[test]
fn new_env_variables_can_be_added() {
    let cmd = Command::new("foo".to_owned(), ReturnNothing)
        .with_env_updates(vec![
            ("K1".to_owned(), EnvUpdate::Assign("v1".to_owned())),
            ("K2".to_owned(), EnvUpdate::Assign("v2".to_owned())),
        ])
        .with_env_update("K2".to_owned(), EnvUpdate::Assign("v3".to_owned()));
    let staged = cmd.spawn_options.env_builder.env_updates();
    assert_eq!(staged.len(), 2);
    assert!(staged.contains(&("K1".to_owned(), EnvUpdate::Assign("v1".to_owned()))));
    assert!(staged.contains(&("K2".to_owned(), EnvUpdate::Assign("v3".to_owned()))));
}

#[test]
fn an_empty_ambient_environment_resolves_to_the_updates_alone() {
    let builder = EnvBuilder::new()
        .insert_update("ONLY".to_owned(), EnvUpdate::Assign("x".to_owned()))
        .insert_update("GONE".to_owned(), EnvUpdate::Unset)
        .insert_update("ELSEWHERE".to_owned(), EnvUpdate::Inherit);
    let resolved = builder.resolve(&Vec::new());
    assert_eq!(resolved, vec![("ONLY".to_owned(), "x".to_owned())]);
}
