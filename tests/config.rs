use puppycoder::config::{parse_env, parse_env_line};

#[test]
fn env_lines_with_one_equals_sign() {
    let got = parse_env("OPENAI_API_KEY=value\n# comment\nA=b=c\nEMPTY=\n=v\n");
    assert_eq!(
        got,
        vec![
            ("OPENAI_API_KEY".to_string(), "value".to_string()),
            ("EMPTY".to_string(), "".to_string()),
            ("".to_string(), "v".to_string()),
        ]
    );
    assert_eq!(parse_env_line("K=V"), Some(("K".to_string(), "V".to_string())));
    assert_eq!(parse_env_line("no separator"), None);
    assert_eq!(parse_env(""), vec![]);
}
