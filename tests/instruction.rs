use command_engine::{is_flag_token, Error, Instruction};

fn strings(v: &[&str]) -> Vec<String> {
    v.iter().map(|s| s.to_string()).collect()
}

fn expected(input: &str, caller: &str, args: &[&str], o_args: Vec<(&str, Option<Vec<&str>>)>) -> Instruction {
    Instruction {
        caller: caller.to_string(),
        args: strings(args),
        o_args: o_args
            .into_iter()
            .map(|(k, v)| (k.to_string(), v.map(|xs| strings(&xs))))
            .collect(),
        input: input.to_string(),
    }
}

fn check(input: &str, instruction: Instruction) {
    let inst_new = Instruction::new(input).expect("Failed to create a valid Instruction!");
    assert_eq!(inst_new, instruction, "Provided instruction is not the same as one crafted from the input!");
}

#[test]
fn instruction() {
    check("caller", expected("caller", "caller", &[], vec![]));

    check("caller arg1 arg2", expected("caller arg1 arg2", "caller", &["arg1", "arg2"], vec![]));

    check(
        "caller arg1 arg2 --o_arg1",
        expected("caller arg1 arg2 --o_arg1", "caller", &["arg1", "arg2"], vec![("--o_arg1", None)]),
    );

    check(
        "caller arg1 arg2 --o_arg1 sub_arg11 sub_arg12 --o_arg2 sub_arg21",
        expected(
            "caller arg1 arg2 --o_arg1 sub_arg11 sub_arg12 --o_arg2 sub_arg21",
            "caller",
            &["arg1", "arg2"],
            vec![
                ("--o_arg1", Some(vec!["sub_arg11", "sub_arg12"])),
                ("--o_arg2", Some(vec!["sub_arg21"])),
            ],
        ),
    );

    check(r#"caller "arg 1""#, expected(r#"caller "arg 1""#, "caller", &["arg 1"], vec![]));

    check(
        r#"caller --o_arg1 "sub arg""#,
        expected(r#"caller --o_arg1 "sub arg""#, "caller", &[], vec![("--o_arg1", Some(vec!["sub arg"]))]),
    );

    check(
        r#"caller "--o_arg 1""#,
        expected(r#"caller "--o_arg 1""#, "caller", &[], vec![("--o_arg 1", None)]),
    );

    check(r#"caller "arg 1"arg2"#, expected(r#"caller "arg 1"arg2"#, "caller", &["arg 1", "arg2"], vec![]));

    check(
        "caller #\"arg 1\"# arg2",
        expected("caller #\"arg 1\"# arg2", "caller", &["arg 1", "arg2"], vec![]),
    );

    check(
        "caller #\"arg#1\"# arg2",
        expected("caller #\"arg#1\"# arg2", "caller", &["arg#1", "arg2"], vec![]),
    );

    check(
        "caller #\"arg\" # \" 1\"# \"arg 2\"",
        expected("caller #\"arg\" # \" 1\"# \"arg 2\"", "caller", &["arg\" # \" 1", "arg 2"], vec![]),
    );

    check(
        "caller #\"arg 1\"#arg2",
        expected("caller #\"arg 1\"#arg2", "caller", &["arg 1", "arg2"], vec![]),
    );
}

#[test]
fn parse_flags_and_sub_args_scenario() {
    let ins = Instruction::new("caller arg1 arg2 --f1 s1 s2 --f2").unwrap();
    assert_eq!(ins.caller, "caller");
    assert_eq!(ins.args, strings(&["arg1", "arg2"]));
    assert_eq!(
        ins.o_args,
        vec![
            ("--f1".to_string(), Some(strings(&["s1", "s2"]))),
            ("--f2".to_string(), None),
        ]
    );
    assert_eq!(ins.input, "caller arg1 arg2 --f1 s1 s2 --f2");
}

#[test]
fn missing_caller_on_empty_blank_or_flag_first() {
    assert_eq!(Instruction::new(""), Err(Error::MissingCaller));
    assert_eq!(Instruction::new("    "), Err(Error::MissingCaller));
    assert_eq!(Instruction::new("--o_arg"), Err(Error::MissingCaller));
    assert_eq!(Instruction::new("--o_arg caller"), Err(Error::MissingCaller));
    assert_eq!(Instruction::new("\"\" \"\""), Err(Error::MissingCaller));
}

#[test]
fn sub_arg_without_flag_is_rejected() {
    let mut ins = Instruction::new("caller arg").unwrap();
    let before = ins.clone();
    assert_eq!(ins.add_sub_arg(&"--f".to_string(), "x".to_string()), Err(Error::SubArgWithoutFlag));
    assert_eq!(ins, before);
    ins.open_flag("--f".to_string());
    assert_eq!(ins.add_sub_arg(&"--f".to_string(), "x".to_string()), Ok(()));
    assert_eq!(ins.o_args, vec![("--f".to_string(), Some(strings(&["x"])))]);
}

#[test]
fn repeated_flag_is_reset() {
    let ins = Instruction::new("c --f a b --g --f z").unwrap();
    assert_eq!(
        ins.o_args,
        vec![("--f".to_string(), Some(strings(&["z"]))), ("--g".to_string(), None)]
    );
    let ins = Instruction::new("c --f a --f").unwrap();
    assert_eq!(ins.o_args, vec![("--f".to_string(), None)]);
}

#[test]
fn positional_args_before_first_flag_only() {
    let ins = Instruction::new("c a b --f c d").unwrap();
    assert_eq!(ins.args, strings(&["a", "b"]));
    assert_eq!(ins.o_args, vec![("--f".to_string(), Some(strings(&["c", "d"])))]);
}

#[test]
fn spaces_and_empty_literals_are_dropped() {
    let ins = Instruction::new("  c   a  \"\"  b ").unwrap();
    assert_eq!(ins.caller, "c");
    assert_eq!(ins.args, strings(&["a", "b"]));
}

#[test]
fn unterminated_literals_keep_their_content() {
    let ins = Instruction::new("c \"a b").unwrap();
    assert_eq!(ins.args, strings(&["a b"]));
    let ins = Instruction::new("c #\"a \" b").unwrap();
    assert_eq!(ins.args, strings(&["a \" b"]));
}

#[test]
fn single_character_tokens_and_unicode() {
    let ins = Instruction::new("c a b").unwrap();
    assert_eq!(ins.args, strings(&["a", "b"]));
    let ins = Instruction::new("ß \"é ü\" x").unwrap();
    assert_eq!(ins.caller, "ß");
    assert_eq!(ins.args, strings(&["é ü", "x"]));
}

#[test]
fn flag_token_test() {
    assert!(is_flag_token("--x"));
    assert!(is_flag_token("--"));
    assert!(!is_flag_token("-x"));
    assert!(!is_flag_token(""));
    assert!(!is_flag_token("x--"));
}

#[test]
fn empty_instruction_has_nothing() {
    let ins = Instruction::empty();
    assert_eq!(ins.caller, "");
    assert!(ins.args.is_empty());
    assert!(ins.o_args.is_empty());
    assert_eq!(ins.input, "");
}

#[test]
fn find_flag_gives_position() {
    let ins = Instruction::new("c --a --b x").unwrap();
    assert_eq!(ins.find_flag(&"--b".to_string()), Some(1));
    assert_eq!(ins.find_flag(&"--c".to_string()), None);
}
