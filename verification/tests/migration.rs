use rinode::migration::{Migration, MigrationStep};

fn run(answers: &[bool]) -> Vec<MigrationStep> {
    let mut m = Migration::new("/d");
    let mut steps = Vec::new();
    let mut it = answers.iter();
    let mut exists = false;
    loop {
        let step = m.next(exists);
        let done = step == MigrationStep::Done;
        if let MigrationStep::Check(_) = step {
            exists = *it.next().expect("an answer for every check");
        }
        steps.push(step);
        if done {
            break;
        }
        assert!(steps.len() <= 20, "the migration must end");
    }
    steps
}

fn check(p: &str) -> MigrationStep {
    MigrationStep::Check(p.to_string())
}

#[test]
fn nothing_to_migrate() {
    assert_eq!(run(&[false, false]), vec![check("/d/recent-inode"), check("/d/rinode"), MigrationStep::Done]);
}

#[test]
fn old_directory_is_renamed_whole() {
    assert_eq!(
        run(&[true, false, true, false]),
        vec![
            check("/d/recent-inode"),
            check("/d/rinode"),
            MigrationStep::Rename("/d/recent-inode".into(), "/d/rinode".into()),
            check("/d/rinode"),
            check("/d/rinode/vault"),
            MigrationStep::Done,
        ]
    );
}

#[test]
fn old_directory_is_merged() {
    // Old and new directories exist, the old database is moved, the old
    // vault is merged, then the new directory's vault becomes its storage.
    assert_eq!(
        run(&[true, true, true, false, true, true, true, false]),
        vec![
            check("/d/recent-inode"),
            check("/d/rinode"),
            check("/d/recent-inode/rinode.db"),
            check("/d/rinode/rinode.db"),
            MigrationStep::Rename("/d/recent-inode/rinode.db".into(), "/d/rinode/rinode.db".into()),
            check("/d/recent-inode/vault"),
            MigrationStep::MakeDir("/d/rinode/storage".into()),
            MigrationStep::MoveChildren("/d/recent-inode/vault".into(), "/d/rinode/storage".into()),
            MigrationStep::RemoveTree("/d/recent-inode/vault".into()),
            MigrationStep::RemoveTree("/d/recent-inode".into()),
            check("/d/rinode"),
            check("/d/rinode/vault"),
            check("/d/rinode/storage"),
            MigrationStep::Rename("/d/rinode/vault".into(), "/d/rinode/storage".into()),
            MigrationStep::Done,
        ]
    );
}

#[test]
fn vault_is_merged_into_existing_storage() {
    assert_eq!(
        run(&[false, true, true, true]),
        vec![
            check("/d/recent-inode"),
            check("/d/rinode"),
            check("/d/rinode/vault"),
            check("/d/rinode/storage"),
            MigrationStep::MakeDir("/d/rinode/storage".into()),
            MigrationStep::MoveChildren("/d/rinode/vault".into(), "/d/rinode/storage".into()),
            MigrationStep::RemoveTree("/d/rinode/vault".into()),
            MigrationStep::Done,
        ]
    );
}
