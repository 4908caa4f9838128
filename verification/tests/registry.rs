use run_py_cli::record::{RunPy, Timestamp};
use run_py_cli::registry::{
    add_random_script_to_db, append, build_seeds, directory_or_default, get_directory_from_path,
    overwrite_json, random_script, remove_at, seed_database, Error, SeedPlan,
};

fn moment() -> Timestamp {
    Timestamp { secs: 1_700_000_000, nanos: 42 }
}

fn record(id: usize, name: &str) -> RunPy {
    RunPy::new(id, format!("about {}", name), format!("{}.py", name), moment())
}

fn default_record(created_at: Timestamp) -> RunPy {
    RunPy {
        id: 1,
        label: "init description".to_string(),
        target: "default_script.py".to_string(),
        created_at,
    }
}

#[test]
fn new_record_holds_what_it_was_given() {
    let made = RunPy::new(3, "l".to_string(), "t.py".to_string(), moment());
    assert_eq!(made.id, 3);
    assert_eq!(made.label, "l");
    assert_eq!(made.target, "t.py");
    assert_eq!(made.created_at, moment());
}

#[test]
fn append_puts_record_last() {
    let mut registry = vec![record(1, "a"), record(2, "b")];
    append(&mut registry, record(3, "c"));
    assert_eq!(registry, vec![record(1, "a"), record(2, "b"), record(3, "c")]);
}

#[test]
fn append_to_empty_registry() {
    let mut registry: Vec<RunPy> = Vec::new();
    append(&mut registry, record(9, "z"));
    assert_eq!(registry, vec![record(9, "z")]);
}

#[test]
fn append_accepts_a_number_already_in_use() {
    let mut registry = vec![record(1, "a")];
    append(&mut registry, record(1, "b"));
    assert_eq!(registry.len(), 2);
    assert_eq!(registry[1], record(1, "b"));
}

#[test]
fn remove_at_takes_out_exactly_one_record() {
    let mut registry = vec![record(1, "a"), record(2, "b"), record(3, "c")];
    assert!(remove_at(&mut registry, 1));
    assert_eq!(registry, vec![record(1, "a"), record(3, "c")]);
}

#[test]
fn remove_at_first_and_last() {
    let mut registry = vec![record(1, "a"), record(2, "b"), record(3, "c")];
    assert!(remove_at(&mut registry, 0));
    assert_eq!(registry, vec![record(2, "b"), record(3, "c")]);
    assert!(remove_at(&mut registry, 1));
    assert_eq!(registry, vec![record(2, "b")]);
}

#[test]
fn remove_at_leaves_the_last_record() {
    let mut registry = vec![record(1, "a")];
    assert!(!remove_at(&mut registry, 0));
    assert_eq!(registry, vec![record(1, "a")]);
}

#[test]
fn remove_at_beyond_the_end_changes_nothing() {
    let mut registry = vec![record(1, "a"), record(2, "b")];
    assert!(!remove_at(&mut registry, 2));
    assert_eq!(registry, vec![record(1, "a"), record(2, "b")]);
}

#[test]
fn remove_at_on_empty_registry_changes_nothing() {
    let mut registry: Vec<RunPy> = Vec::new();
    assert!(!remove_at(&mut registry, 0));
    assert!(registry.is_empty());
}

#[test]
fn build_seeds_gives_the_default_record() {
    assert_eq!(build_seeds(moment()), vec![default_record(moment())]);
}

#[test]
fn seed_database_leaves_an_existing_registry_alone() {
    assert_eq!(seed_database("./data/db.json", true), None);
}

#[test]
fn seed_database_seeds_an_absent_registry() {
    let plan = seed_database("./data/db.json", false).unwrap();
    assert_eq!(plan.directory, "./data");
    assert_eq!(plan.records.len(), 1);
    assert_eq!(plan.records[0], default_record(plan.records[0].created_at));
    assert!(plan.records[0].created_at.nanos < 2_000_000_000);
    assert!(plan.records[0].created_at.secs > 1_600_000_000);
}

#[test]
fn overwrite_json_gives_exactly_one_default_record() {
    let seeds = overwrite_json();
    assert_eq!(seeds.len(), 1);
    assert_eq!(seeds[0], default_record(seeds[0].created_at));
    assert!(seeds[0].created_at.nanos < 2_000_000_000);
}

#[test]
fn directory_of_a_nested_path() {
    assert_eq!(get_directory_from_path("./data/db.json"), "./data");
    assert_eq!(get_directory_from_path("a/b/c.json"), "a/b");
}

#[test]
fn directory_of_a_bare_file_name_is_empty() {
    assert_eq!(get_directory_from_path("db.json"), "");
}

#[test]
fn directory_of_a_path_without_parent_is_the_default() {
    assert_eq!(get_directory_from_path(""), "./data");
    assert_eq!(get_directory_from_path("/"), "./data");
}

#[test]
fn random_script_with_fixed_file() {
    let made = random_script("aB3dE", 0, 17, moment());
    assert_eq!(
        made,
        RunPy {
            id: 17,
            label: "mock$ aB3dE".to_string(),
            target: "script.py".to_string(),
            created_at: moment(),
        }
    );
}

#[test]
fn random_script_with_drawn_file() {
    let made = random_script("aB3dE", 1, 98, moment());
    assert_eq!(
        made,
        RunPy {
            id: 98,
            label: "mock$ aB3dE".to_string(),
            target: "Rand_aB3dE.py".to_string(),
            created_at: moment(),
        }
    );
}

#[test]
fn add_random_script_grows_registry_by_one() {
    let before = vec![record(1, "a"), record(2, "b")];
    for _ in 0..200 {
        let grown = add_random_script_to_db(before.clone());
        assert_eq!(grown.len(), 3);
        assert_eq!(grown[..2], before[..]);
        let made = &grown[2];
        assert!(made.id < 99);
        let tag = made.label.strip_prefix("mock$ ").unwrap();
        assert_eq!(tag.chars().count(), 5);
        assert!(tag.chars().all(|c| c.is_ascii_alphanumeric()));
        assert!(made.target == "script.py" || made.target == format!("Rand_{}.py", tag));
        assert!(made.created_at.nanos < 2_000_000_000);
    }
}

#[test]
fn add_random_script_uses_both_kinds_of_file() {
    let mut fixed = false;
    let mut drawn = false;
    for _ in 0..400 {
        let grown = add_random_script_to_db(Vec::new());
        if grown[0].target == "script.py" {
            fixed = true;
        } else {
            drawn = true;
        }
    }
    assert!(fixed && drawn);
}

#[test]
fn error_messages() {
    assert_eq!(Error::ReadDBError("gone".to_string()).message(), "error reading the DB file: gone");
    assert_eq!(
        Error::ParseDBError("line 1".to_string()).message(),
        "error parsing the DB file: line 1"
    );
    assert_eq!(
        Error::SpawnError("no python".to_string()).message(),
        "error starting the interpreter: no python"
    );
}

#[test]
fn directory_or_default_keeps_a_directory_part() {
    assert_eq!(directory_or_default(Some("./store".to_string())), "./store");
    assert_eq!(directory_or_default(Some(String::new())), "");
}

#[test]
fn directory_or_default_falls_back_to_data() {
    assert_eq!(directory_or_default(None), "./data");
}

#[test]
fn seed_plan_needs_a_directory_unless_the_part_is_empty() {
    let plan = SeedPlan { directory: "./data".to_string(), records: build_seeds(moment()) };
    assert!(plan.needs_directory());
    let plan = SeedPlan { directory: String::new(), records: build_seeds(moment()) };
    assert!(!plan.needs_directory());
    assert!(!seed_database("db.json", false).unwrap().needs_directory());
    assert!(seed_database("./data/db.json", false).unwrap().needs_directory());
}
