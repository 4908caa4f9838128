use run_py_cli::env_file::{read_env_file, EnvVars};

fn value(vars: &EnvVars, key: &str) -> Option<String> {
    vars.get(key)
}

#[test]
fn empty_text_has_no_settings() {
    let vars = read_env_file("");
    assert_eq!(vars.len(), 0);
    assert_eq!(value(&vars, "DATABASE_ADDR"), None);
    assert_eq!(EnvVars::new().len(), 0);
    assert_eq!(value(&EnvVars::new(), ""), None);
}

#[test]
fn reads_both_settings() {
    let vars = read_env_file("DATABASE_ADDR=./store/db.json\nPYTHON_BIND=python\n");
    assert_eq!(vars.len(), 2);
    assert_eq!(value(&vars, "DATABASE_ADDR"), Some("./store/db.json".to_string()));
    assert_eq!(value(&vars, "PYTHON_BIND"), Some("python".to_string()));
}

#[test]
fn last_line_needs_no_line_end() {
    let vars = read_env_file("A=1\nB=2");
    assert_eq!(vars.len(), 2);
    assert_eq!(value(&vars, "B"), Some("2".to_string()));
}

#[test]
fn white_space_around_key_and_value_is_dropped() {
    let vars = read_env_file("  KEY \t=  some value  \n");
    assert_eq!(value(&vars, "KEY"), Some("some value".to_string()));
}

#[test]
fn carriage_return_before_line_end_is_dropped() {
    let vars = read_env_file("A=1\r\nB=2\r\n");
    assert_eq!(value(&vars, "A"), Some("1".to_string()));
    assert_eq!(value(&vars, "B"), Some("2".to_string()));
}

#[test]
fn line_is_split_at_its_first_equals_sign() {
    let vars = read_env_file("URL=a=b=c\n");
    assert_eq!(value(&vars, "URL"), Some("a=b=c".to_string()));
    assert_eq!(value(&vars, "URL=a"), None);
}

#[test]
fn line_without_equals_sign_is_passed_over() {
    let vars = read_env_file("# a note\nA=1\nnonsense\n\n   \nB=2\n");
    assert_eq!(vars.len(), 2);
    assert_eq!(value(&vars, "A"), Some("1".to_string()));
    assert_eq!(value(&vars, "B"), Some("2".to_string()));
    assert_eq!(value(&vars, "nonsense"), None);
}

#[test]
fn empty_key_and_empty_value_are_settings() {
    let vars = read_env_file("=x\nK=\n = \n");
    assert_eq!(vars.len(), 2);
    assert_eq!(value(&vars, ""), Some("".to_string()));
    assert_eq!(value(&vars, "K"), Some("".to_string()));
}

#[test]
fn later_line_overrides_earlier_one() {
    let vars = read_env_file("A=1\nB=2\nA=3\n");
    assert_eq!(vars.len(), 2);
    assert_eq!(value(&vars, "A"), Some("3".to_string()));
    assert_eq!(value(&vars, "B"), Some("2".to_string()));
}

#[test]
fn keys_are_told_apart_by_case() {
    let vars = read_env_file("python_bind=x\n");
    assert_eq!(value(&vars, "PYTHON_BIND"), None);
    assert_eq!(value(&vars, "python_bind"), Some("x".to_string()));
}

#[test]
fn inner_white_space_stays() {
    let vars = read_env_file("A B = c  d \n");
    assert_eq!(value(&vars, "A B"), Some("c  d".to_string()));
}

#[test]
fn text_beyond_ascii_is_kept() {
    let vars = read_env_file("NAME = caf\u{e9} \u{1F40D}\u{3000}\nK\u{e4}se=1");
    assert_eq!(value(&vars, "NAME"), Some("caf\u{e9} \u{1F40D}".to_string()));
    assert_eq!(value(&vars, "K\u{e4}se"), Some("1".to_string()));
}

#[test]
fn trimming_agrees_with_the_standard_library_on_every_character() {
    let mut c = '\0';
    loop {
        if c != '\n' && c != '=' {
            let key = format!("{}k{}", c, c);
            let val = format!("{}v{}{}", c, c, c);
            let vars = read_env_file(&format!("{}={}", key, val));
            assert_eq!(vars.len(), 1);
            assert_eq!(value(&vars, key.trim()), Some(val.trim().to_string()), "{:?}", c);
        }
        if c == char::MAX {
            break;
        }
        c = char::from_u32(c as u32 + 1).unwrap_or('\u{E000}');
    }
}

#[test]
fn agrees_with_line_wise_reading() {
    let text = " A = 1 \r\n\nB=2=3\nno setting here\r\n  C\t=\t\n=\nD = x y \r";
    let vars = read_env_file(text);
    let mut expected: Vec<(String, String)> = Vec::new();
    for line in text.lines() {
        let parts: Vec<&str> = line.splitn(2, '=').collect();
        if parts.len() == 2 {
            expected.push((parts[0].trim().to_string(), parts[1].trim().to_string()));
        }
    }
    assert_eq!(vars.len(), expected.len());
    for (key, val) in expected.iter().rev() {
        let last = expected.iter().rev().find(|(k, _)| k == key).unwrap();
        assert_eq!(value(&vars, key), Some(last.1.clone()));
        assert!(val.trim() == val);
    }
}

#[test]
fn repeated_key_is_one_setting_with_the_last_value() {
    let vars = read_env_file("K=1\nK=2\n");
    assert_eq!(vars.len(), 1);
    assert_eq!(value(&vars, "K"), Some("2".to_string()));
}

#[test]
fn keys_that_differ_only_in_white_space_around_them_are_one() {
    let vars = read_env_file(" K =1\nK\t= 2 \n");
    assert_eq!(vars.len(), 1);
    assert_eq!(value(&vars, "K"), Some("2".to_string()));
}

#[test]
fn settings_agree_with_a_hash_map() {
    let text = "A=1\nB=2\nA=3\n=x\nC = c\nB=\n = y\nnothing\nA=4";
    let mut expected = std::collections::HashMap::new();
    for line in text.lines() {
        let parts: Vec<&str> = line.splitn(2, '=').collect();
        if parts.len() == 2 {
            expected.insert(parts[0].trim().to_string(), parts[1].trim().to_string());
        }
    }
    let vars = read_env_file(text);
    assert_eq!(vars.len(), expected.len());
    for (key, val) in &expected {
        assert_eq!(value(&vars, key), Some(val.clone()));
    }
    assert_eq!(value(&vars, "nothing"), None);
}

#[test]
fn insert_adds_a_new_key() {
    let mut vars = EnvVars::new();
    vars.insert("A".to_string(), "1".to_string());
    vars.insert("B".to_string(), "2".to_string());
    assert_eq!(vars.len(), 2);
    assert_eq!(value(&vars, "A"), Some("1".to_string()));
    assert_eq!(value(&vars, "B"), Some("2".to_string()));
    assert_eq!(vars, read_env_file("A=1\nB=2"));
}

#[test]
fn insert_replaces_the_value_of_a_key_that_is_there() {
    let mut vars = read_env_file("A=1\nB=2\nC=3");
    vars.insert("B".to_string(), "x".to_string());
    assert_eq!(vars.len(), 3);
    assert_eq!(value(&vars, "A"), Some("1".to_string()));
    assert_eq!(value(&vars, "B"), Some("x".to_string()));
    assert_eq!(value(&vars, "C"), Some("3".to_string()));
    assert_eq!(vars, read_env_file("A=1\nB=x\nC=3"));
}
