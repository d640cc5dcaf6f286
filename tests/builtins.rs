use command_engine::{
    Cp, CpAction, Cwd, CwdPlan, Env, EnvPlan, Instruction, Ld, LdAction, Result, ERR_ARGUMENTS_NUM,
    ERR_NOT_A_DIR_PATH,
};

fn ins(s: &str) -> Instruction {
    Instruction::new(s).unwrap()
}

#[test]
fn cp_decisions() {
    assert_eq!(Cp::name(), "cp");
    let e = Cp::parse_instruction(&ins("cp a"), true, false).unwrap_err();
    assert_eq!(e.result, Result::Error(1));
    assert_eq!(e.message, ERR_ARGUMENTS_NUM);
    let e = Cp::parse_instruction(&ins("cp a b"), false, false).unwrap_err();
    assert_eq!(e.result, Result::Error(2));
    assert_eq!(Cp::parse_instruction(&ins("cp a b"), true, false).unwrap(), CpAction::FileNew);
    let e = Cp::parse_instruction(&ins("cp a b"), true, true).unwrap_err();
    assert_eq!(e.result, Result::Error(3));
    assert_eq!(Cp::parse_instruction(&ins("cp a b --o"), true, true).unwrap(), CpAction::FileOver);
    assert_eq!(Cp::copy_outcome(None).result, Result::Success(1));
    let o = Cp::copy_outcome(Some("denied"));
    assert_eq!(o.result, Result::Error(4));
    assert_eq!(o.message, "denied");
}

#[test]
fn cwd_decisions() {
    assert!(matches!(Cwd::plan(&ins("cwd")), CwdPlan::Show));
    match Cwd::plan(&ins("cwd /tmp x")) {
        CwdPlan::Change(p) => assert_eq!(p, "/tmp"),
        _ => panic!("expected a change"),
    }
    let o = Cwd::shown(Ok("/home"));
    assert_eq!((o.result, o.message.as_str()), (Result::Success(1), "/home"));
    assert_eq!(Cwd::shown(Err("gone")).result, Result::Error(1));
    let o = Cwd::changed("/x", false, None);
    assert_eq!((o.result, o.message.as_str()), (Result::Error(2), ERR_NOT_A_DIR_PATH));
    assert_eq!(Cwd::changed("/x", true, Some("no")).result, Result::Error(3));
    let o = Cwd::changed("/x", true, None);
    assert_eq!((o.result, o.message.as_str()), (Result::Success(2), "/x"));
}

#[test]
fn ld_decisions_and_listing() {
    assert_eq!(Ld::name(), "ld");
    assert_eq!(Ld::action(&ins("ld")), LdAction::All);
    assert_eq!(Ld::action(&ins("ld --f --d")), LdAction::All);
    assert_eq!(Ld::action(&ins("ld --f")), LdAction::Files);
    assert_eq!(Ld::action(&ins("ld . --d")), LdAction::Dirs);
    let dirs = vec!["src".to_string(), "tests".to_string()];
    let files = vec!["a.rs".to_string()];
    assert_eq!(
        Ld::format_path_content(LdAction::All, &dirs, &files),
        "--- Dirs ---\nsrc\ntests\n--- Files ---\na.rs\n"
    );
    assert_eq!(Ld::format_path_content(LdAction::Files, &dirs, &files), "--- Files ---\na.rs\n");
    assert_eq!(Ld::format_path_content(LdAction::Dirs, &dirs, &vec![]), "--- Dirs ---\nsrc\ntests\n");
    assert_eq!(Ld::listed(false, "x").result, Result::Error(2));
    assert_eq!(Ld::listed(true, "x").message, "x");
}

#[test]
fn env_decisions() {
    match Env::plan(&ins("env GET HOME")) {
        EnvPlan::Get(k) => assert_eq!(k, "HOME"),
        _ => panic!("expected get"),
    }
    match Env::plan(&ins("env Set K V")) {
        EnvPlan::Assign(k, v) => assert_eq!((k.as_str(), v.as_str()), ("K", "V")),
        _ => panic!("expected set"),
    }
    match Env::plan(&ins("env set K")) {
        EnvPlan::Done(o) => assert_eq!(o.result, Result::Error(1)),
        _ => panic!("expected a failure"),
    }
    match Env::plan(&ins("env")) {
        EnvPlan::Done(o) => assert_eq!(o.message, ERR_ARGUMENTS_NUM),
        _ => panic!("expected a failure"),
    }
    match Env::plan(&ins("env DROP K")) {
        EnvPlan::Done(o) => {
            assert_eq!(o.result, Result::Error(2));
            assert_eq!(o.message, "invalid operation [drop]");
        },
        _ => panic!("expected a failure"),
    }
    let o = Env::got(Ok("v"));
    assert_eq!((o.result, o.message.as_str()), (Result::Success(1), "v"));
    assert_eq!(Env::got(Err("missing")).result, Result::Error(3));
    assert_eq!(Env::set_done("K", "V").message, "K: V");
}
