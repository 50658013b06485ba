use commit_picker::plan::{choice_at, commit_commands, menu_options, Choice, Config, ConfigError};

#[test]
fn missing_api_key_is_refused() {
    assert!(matches!(Config::new(None, None, None), Err(ConfigError::MissingApiKey)));
}

#[test]
fn defaults_fill_prompt_and_model() {
    let c = match Config::new(Some("SECRET-REDACTED".to_string()), None, None) {
        Ok(c) => c,
        Err(_) => panic!("key given"),
    };
    assert_eq!(c.api_key, "SECRET-REDACTED");
    assert_eq!(
        c.prompt,
        "Given the following git diff, suggest a commit message that can be passed to `git commit`."
    );
    assert_eq!(c.model, "gpt-3.5-turbo");
}

#[test]
fn given_prompt_and_model_are_kept() {
    let c = match Config::new(Some("k".to_string()), Some("p".to_string()), Some("gpt-4".to_string())) {
        Ok(c) => c,
        Err(_) => panic!("key given"),
    };
    assert_eq!(c.prompt, "p");
    assert_eq!(c.model, "gpt-4");
}

#[test]
fn menu_starts_with_custom_entry() {
    let menu = menu_options(&vec!["fix: handle nil pointer".to_string(), "fix bug".to_string()]);
    assert_eq!(
        menu,
        vec![
            "Enter a custom message...".to_string(),
            "fix: handle nil pointer".to_string(),
            "fix bug".to_string()
        ]
    );
    assert_eq!(menu_options(&vec![]), vec!["Enter a custom message...".to_string()]);
}

#[test]
fn first_entry_means_custom_message() {
    let s = vec!["a".to_string(), "b".to_string()];
    assert_eq!(choice_at(&s, 0), Choice::EnterCustom);
    assert_eq!(choice_at(&s, 1), Choice::UseCandidate("a".to_string()));
    assert_eq!(choice_at(&s, 2), Choice::UseCandidate("b".to_string()));
}

#[test]
fn suggestion_equal_to_custom_label_is_still_a_candidate() {
    let s = vec!["Enter a custom message...".to_string()];
    assert_eq!(choice_at(&s, 1), Choice::UseCandidate("Enter a custom message...".to_string()));
}

#[test]
fn custom_choice_runs_plain_commit() {
    assert_eq!(commit_commands(&Choice::EnterCustom, true), vec![vec!["commit".to_string()]]);
    assert_eq!(commit_commands(&Choice::EnterCustom, false), vec![vec!["commit".to_string()]]);
}

#[test]
fn candidate_choice_commits_then_amends() {
    let c = Choice::UseCandidate("fix bug".to_string());
    assert_eq!(
        commit_commands(&c, true),
        vec![
            vec!["commit".to_string(), "-m".to_string(), "fix bug".to_string()],
            vec!["commit".to_string(), "--amend".to_string()]
        ]
    );
    assert_eq!(
        commit_commands(&c, false),
        vec![vec!["commit".to_string(), "-m".to_string(), "fix bug".to_string()]]
    );
}
