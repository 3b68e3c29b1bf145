use openai_rs::arg_parser::Args;

#[test]
fn commit_args_are_kept_as_given() {
    let args = Args::new(Some(vec!["-S".to_string(), "--no-verify".to_string()]), false);
    assert_eq!(
        args.get_commit_args(),
        &Some(vec!["-S".to_string(), "--no-verify".to_string()])
    );
    assert!(!args.config);
}

#[test]
fn absent_commit_args_stay_absent() {
    let args = Args::new(None, true);
    assert_eq!(args.get_commit_args(), &None);
    assert!(args.config);
}
