use porecatu_ui::git::{
    discovery_step, DiscoveryStep, DotGit,
    ahead_behind_label, backoff_interval, branch_has_upstream, can_integrate, classify_failure,
    classify_lowercased, effective_poll_interval, fetch_args, incoming_result_decision,
    is_time_to_query, next_query_deadline, non_interactive_env, parse_gitdir_file, parse_head,
    parse_commondir, parse_rev_list_count, pull_args, rev_list_args, Head, IncomingResultDecision, QueryFailure,
    QueryState, RemoteEntry,
};

const SEC: u128 = 1_000_000_000;

/// An arbitrary instant, far enough from zero to subtract hours from it.
fn now() -> u128 {
    1_000_000 * SEC
}

fn idle_entry(last: Option<u128>) -> RemoteEntry {
    let mut e = RemoteEntry::default();
    e.last_queried_at = last;
    e
}

#[test]
fn plain_branch() {
    assert_eq!(
        parse_head("ref: refs/heads/main\n"),
        Some(Head::Branch("main".to_owned()))
    );
}

#[test]
fn branch_name_keeps_its_own_slashes() {
    assert_eq!(
        parse_head("ref: refs/heads/feat/porecatu-ui\n"),
        Some(Head::Branch("feat/porecatu-ui".to_owned()))
    );
}

#[test]
fn detached_head_is_the_short_sha() {
    let sha = "80722d9e1f4a6b3c5d8e0f2a4b6c8d0e2f4a6b8c";
    assert_eq!(parse_head(sha), Some(Head::Detached("80722d9".to_owned())));
}

#[test]
fn sha256_detached_head_also_works() {
    let sha = "a".repeat(64);
    assert_eq!(parse_head(&sha), Some(Head::Detached("aaaaaaa".to_owned())));
}

#[test]
fn garbage_and_partial_writes_yield_nothing() {
    for content in ["", "\n", "ref:", "ref: ", "não é um head", "80722d9"] {
        assert_eq!(parse_head(content), None, "conteúdo {content:?}");
    }
}

#[test]
fn a_sha_of_the_wrong_length_is_not_a_sha() {
    assert_eq!(parse_head(&"a".repeat(39)), None);
    assert_eq!(parse_head(&"a".repeat(41)), None);
    assert_eq!(parse_head(&"z".repeat(40)), None, "não é hex");
}

#[test]
fn gitdir_file_of_a_worktree() {
    assert_eq!(
        parse_gitdir_file("gitdir: /repo/.git/worktrees/wt\n"),
        Some("/repo/.git/worktrees/wt".to_owned())
    );
    assert_eq!(
        parse_gitdir_file("gitdir: ../.git/modules/sub"),
        Some("../.git/modules/sub".to_owned())
    );
}

#[test]
fn a_dot_git_file_without_gitdir_is_not_a_repository() {
    for content in ["", "qualquer coisa", "gitdir:", "gitdir:   "] {
        assert_eq!(parse_gitdir_file(content), None, "conteúdo {content:?}");
    }
}

#[test]
fn rev_list_count_parses_the_common_case() {
    assert_eq!(parse_rev_list_count("2\t1\n"), Some((2, 1)));
}

#[test]
fn rev_list_count_survives_crlf() {
    assert_eq!(parse_rev_list_count("3\t0\r\n"), Some((3, 0)));
}

#[test]
fn rev_list_count_accepts_plain_spaces_too() {
    assert_eq!(parse_rev_list_count("0 5\n"), Some((0, 5)));
}

#[test]
fn rev_list_count_of_empty_output_is_none() {
    assert_eq!(parse_rev_list_count(""), None);
}

#[test]
fn rev_list_count_of_garbage_is_none() {
    for output in ["não é git", "abc\tdef\n", "\n\n"] {
        assert_eq!(parse_rev_list_count(output), None, "saída {output:?}");
    }
}

#[test]
fn rev_list_count_with_a_missing_field_is_none() {
    assert_eq!(parse_rev_list_count("2\n"), None);
    assert_eq!(parse_rev_list_count("2\t\n"), None);
}

#[test]
fn rev_list_count_with_an_extra_field_is_none() {
    assert_eq!(parse_rev_list_count("2\t1\t9\n"), None);
}

#[test]
fn zero_seconds_turns_the_feature_off() {
    let effective = effective_poll_interval(0);
    assert_eq!(effective.interval, None);
    assert!(!effective.raised_to_floor);
}

#[test]
fn a_value_below_the_floor_is_raised_and_flagged() {
    let effective = effective_poll_interval(1);
    assert_eq!(effective.interval, Some(30 * SEC));
    assert!(effective.raised_to_floor);
}

#[test]
fn the_floor_itself_is_not_flagged_as_raised() {
    let effective = effective_poll_interval(30);
    assert_eq!(effective.interval, Some(30 * SEC));
    assert!(!effective.raised_to_floor);
}

#[test]
fn an_absurdly_large_value_passes_through_untouched() {
    let effective = effective_poll_interval(u64::MAX);
    assert_eq!(effective.interval, Some(u64::MAX as u128 * SEC));
    assert!(!effective.raised_to_floor);
}

#[test]
fn an_in_flight_query_never_redispatches() {
    let now = now();
    assert!(!is_time_to_query(
        QueryState::InFlight,
        Some(now - 10_000 * SEC),
        now,
        30 * SEC
    ));
}

#[test]
fn no_upstream_never_dispatches() {
    assert!(!is_time_to_query(QueryState::NoUpstream, None, now(), 30 * SEC));
}

#[test]
fn a_shallow_repository_never_dispatches() {
    assert!(!is_time_to_query(QueryState::Shallow, None, now(), 30 * SEC));
}

#[test]
fn idle_with_no_previous_query_dispatches_immediately() {
    assert!(is_time_to_query(QueryState::Idle, None, now(), 300 * SEC));
}

#[test]
fn idle_before_the_interval_elapsed_waits() {
    let now = now();
    let last = now - 100 * SEC;
    assert!(!is_time_to_query(QueryState::Idle, Some(last), now, 300 * SEC));
}

#[test]
fn idle_after_the_interval_elapsed_dispatches() {
    let now = now();
    let last = now - 301 * SEC;
    assert!(is_time_to_query(QueryState::Idle, Some(last), now, 300 * SEC));
}

#[test]
fn a_failed_query_backs_off_beyond_the_plain_interval() {
    let now = now();
    let last = now - 301 * SEC;
    let interval = 300 * SEC;
    assert!(!is_time_to_query(
        QueryState::Failed { attempt: 1 },
        Some(last),
        now,
        interval
    ));
    let now = last + interval * 2;
    assert!(is_time_to_query(
        QueryState::Failed { attempt: 1 },
        Some(last),
        now,
        interval
    ));
}

#[test]
fn backoff_caps_instead_of_growing_forever() {
    let interval = 30 * SEC;
    let capped = backoff_interval(interval, 3);
    assert_eq!(capped, interval * 8);
    assert_eq!(backoff_interval(interval, 1_000), capped);
}

#[test]
fn zero_interval_schedules_nothing_even_with_entries_pending() {
    let now = now();
    let entries = [idle_entry(Some(now - 10_000 * SEC))];
    assert_eq!(next_query_deadline(None, &entries, now), None);
}

#[test]
fn no_entries_means_no_deadline() {
    let entries: Vec<RemoteEntry> = Vec::new();
    assert_eq!(next_query_deadline(Some(300 * SEC), &entries, now()), None);
}

#[test]
fn idle_entry_deadline_is_last_queried_plus_interval() {
    let now = now();
    let last = now - 100 * SEC;
    let entries = [idle_entry(Some(last))];
    let interval = 300 * SEC;
    assert_eq!(
        next_query_deadline(Some(interval), &entries, now),
        Some(last + interval)
    );
}

#[test]
fn failed_entry_deadline_uses_the_backed_off_interval() {
    let now = now();
    let last = now - 100 * SEC;
    let interval = 30 * SEC;
    let mut entry = idle_entry(Some(last));
    entry.state = QueryState::Failed { attempt: 2 };
    let entries = [entry];
    assert_eq!(
        next_query_deadline(Some(interval), &entries, now),
        Some(last + backoff_interval(interval, 2))
    );
}

#[test]
fn in_flight_no_upstream_and_shallow_never_contribute_a_deadline() {
    let now = now();
    let interval = 30 * SEC;
    for state in [QueryState::InFlight, QueryState::NoUpstream, QueryState::Shallow] {
        let mut entry = idle_entry(Some(now - 10_000 * SEC));
        entry.state = state;
        let entries = [entry];
        assert_eq!(
            next_query_deadline(Some(interval), &entries, now),
            None,
            "{state:?} não deveria agendar nada"
        );
    }
}

#[test]
fn the_earliest_of_several_repositories_wins() {
    let now = now();
    let interval = 300 * SEC;
    let entries = [
        idle_entry(Some(now - 50 * SEC)),
        idle_entry(Some(now - 250 * SEC)),
    ];
    assert_eq!(
        next_query_deadline(Some(interval), &entries, now),
        Some(now - 250 * SEC + interval)
    );
}

#[test]
fn a_result_for_the_current_branch_is_stored() {
    assert_eq!(
        incoming_result_decision("main", Some("main")),
        IncomingResultDecision::Store
    );
}

#[test]
fn a_result_is_stored_even_when_its_repository_is_no_longer_the_active_tab() {
    assert_eq!(
        incoming_result_decision("main", Some("main")),
        IncomingResultDecision::Store
    );
}

#[test]
fn a_result_for_a_branch_that_already_changed_is_discarded() {
    assert_eq!(
        incoming_result_decision("main", Some("feat/x")),
        IncomingResultDecision::Discard
    );
}

#[test]
fn a_result_when_the_repository_has_no_readable_head_anymore_is_discarded() {
    assert_eq!(
        incoming_result_decision("main", None),
        IncomingResultDecision::Discard
    );
}

#[test]
fn no_new_commits_shows_nothing() {
    assert_eq!(ahead_behind_label(0, 0), None);
}

#[test]
fn ahead_only_with_nothing_behind_shows_nothing() {
    assert_eq!(ahead_behind_label(0, 4), None);
}

#[test]
fn one_commit_behind_is_singular() {
    assert_eq!(ahead_behind_label(1, 0), Some("1 commit atrás".to_owned()));
}

#[test]
fn three_commits_behind_is_plural() {
    assert_eq!(ahead_behind_label(3, 0), Some("3 commits atrás".to_owned()));
}

#[test]
fn diverged_branch_shows_both_numbers_without_the_word_commits() {
    assert_eq!(
        ahead_behind_label(2, 1),
        Some("2 atrás, 1 à frente".to_owned())
    );
}

#[test]
fn nothing_ahead_can_integrate() {
    assert!(can_integrate(0));
}

#[test]
fn something_ahead_cannot_integrate() {
    assert!(!can_integrate(1));
}

#[test]
fn rev_list_args_carry_the_repository_path_as_its_own_argument() {
    let args = rev_list_args("C:/Projetos com espaço/repo");
    assert_eq!(
        args,
        vec![
            "-C".to_owned(),
            "C:/Projetos com espaço/repo".to_owned(),
            "rev-list".to_owned(),
            "--count".to_owned(),
            "--left-right".to_owned(),
            "@{u}...HEAD".to_owned(),
        ]
    );
}

#[test]
fn rev_list_args_never_interpolate_the_path_into_another_argument() {
    let args = rev_list_args("/tmp/repo; rm -rf /");
    for (i, arg) in args.iter().enumerate() {
        if i != 1 {
            assert!(!arg.contains("rm -rf"));
        }
    }
    assert_eq!(args[1], "/tmp/repo; rm -rf /".to_owned());
}

#[test]
fn pull_args_carry_the_repository_path_as_its_own_argument() {
    let args = pull_args("C:/Projetos com espaço/repo");
    assert_eq!(
        args,
        vec![
            "-C".to_owned(),
            "C:/Projetos com espaço/repo".to_owned(),
            "pull".to_owned(),
            "--ff-only".to_owned(),
        ]
    );
}

#[test]
fn pull_args_never_interpolate_the_path_into_another_argument() {
    let args = pull_args("/tmp/repo; rm -rf /");
    for (i, arg) in args.iter().enumerate() {
        if i != 1 {
            assert!(!arg.contains("rm -rf"));
        }
    }
    assert_eq!(args[1], "/tmp/repo; rm -rf /".to_owned());
}

#[test]
fn pull_args_always_carry_ff_only() {
    let args = pull_args("/repo");
    assert!(args.iter().any(|a| a == "--ff-only"));
}

#[test]
fn the_non_interactive_vector_covers_all_four_channels() {
    let env = non_interactive_env();
    let keys: Vec<&str> = env.iter().map(|(k, _)| *k).collect();
    for expected in [
        "GIT_TERMINAL_PROMPT",
        "GIT_ASKPASS",
        "GIT_SSH_COMMAND",
        "GCM_INTERACTIVE",
    ] {
        assert!(keys.contains(&expected), "canal ausente: {expected}");
    }
    assert_eq!(keys.len(), 4, "os quatro canais: {keys:?}");
}

#[test]
fn git_missing_is_classified_regardless_of_stderr() {
    assert_eq!(classify_failure(true, ""), QueryFailure::GitMissing);
}

#[test]
fn network_failures_are_classified_as_network() {
    for stderr in [
        "fatal: unable to access 'https://example.com/': Could not resolve host: example.com",
        "ssh: connect to host example.com port 22: Connection timed out",
    ] {
        assert_eq!(classify_failure(false, stderr), QueryFailure::Network);
    }
}

#[test]
fn auth_failures_are_classified_as_auth() {
    for stderr in [
        "remote: Support for password authentication was removed. fatal: Authentication failed",
        "fatal: could not read Username for 'https://example.com': terminal prompts disabled",
    ] {
        assert_eq!(classify_failure(false, stderr), QueryFailure::Auth);
    }
}

#[test]
fn unrecognized_failures_fall_back_to_other() {
    assert_eq!(
        classify_failure(false, "fatal: something we don't recognize"),
        QueryFailure::Other
    );
}

#[test]
fn branch_with_remote_and_merge_has_upstream() {
    let config = "[core]\n\tbare = false\n[branch \"main\"]\n\tremote = origin\n\tmerge = refs/heads/main\n";
    assert!(branch_has_upstream(config, "main"));
}

#[test]
fn branch_without_a_section_has_no_upstream() {
    let config = "[core]\n\tbare = false\n";
    assert!(!branch_has_upstream(config, "main"));
}

#[test]
fn a_different_branchs_section_does_not_count() {
    let config = "[branch \"other\"]\n\tremote = origin\n\tmerge = refs/heads/other\n";
    assert!(!branch_has_upstream(config, "main"));
}

#[test]
fn remote_without_merge_is_not_a_complete_upstream() {
    let config = "[branch \"main\"]\n\tremote = origin\n";
    assert!(!branch_has_upstream(config, "main"));
}

#[test]
fn branch_name_with_slash_matches_its_own_quoted_subsection() {
    let config = "[branch \"feat/x\"]\n\tremote = origin\n\tmerge = refs/heads/feat/x\n";
    assert!(branch_has_upstream(config, "feat/x"));
    assert!(!branch_has_upstream(config, "feat/y"));
}

#[test]
fn section_name_is_case_insensitive_but_branch_name_is_not() {
    let config = "[Branch \"Main\"]\n\tremote = origin\n\tmerge = refs/heads/Main\n";
    assert!(branch_has_upstream(config, "Main"));
    assert!(!branch_has_upstream(config, "main"), "nome de branch é sensível a maiúsculas");
}

// --- further cases ---

#[test]
fn fetch_args_touch_only_remote_tracking_refs_quietly() {
    assert_eq!(
        fetch_args("/repo"),
        vec!["-C".to_owned(), "/repo".to_owned(), "fetch".to_owned(), "--quiet".to_owned()]
    );
}

#[test]
fn uppercase_network_text_is_still_network() {
    assert_eq!(
        classify_failure(false, "FATAL: COULD NOT RESOLVE HOST: EXAMPLE.COM"),
        QueryFailure::Network
    );
}

#[test]
fn network_marker_wins_over_auth_marker() {
    assert_eq!(
        classify_lowercased("permission denied; connection timed out"),
        QueryFailure::Network
    );
}

#[test]
fn backoff_doubles_per_attempt() {
    let interval = 10 * SEC;
    assert_eq!(backoff_interval(interval, 0), interval);
    assert_eq!(backoff_interval(interval, 1), 2 * interval);
    assert_eq!(backoff_interval(interval, 2), 4 * interval);
}

#[test]
fn backoff_saturates_at_the_largest_duration() {
    let max = u64::MAX as u128 * SEC + 999_999_999;
    assert_eq!(backoff_interval(max, 3), max);
}

#[test]
fn a_large_count_is_parsed_and_an_overflowing_one_is_not() {
    assert_eq!(parse_rev_list_count("4294967295 0\n"), Some((4294967295, 0)));
    assert_eq!(parse_rev_list_count("4294967296 0\n"), None);
}

#[test]
fn a_clock_that_went_backwards_counts_as_no_time_elapsed() {
    let now = now();
    assert!(!is_time_to_query(QueryState::Idle, Some(now + SEC), now, 30 * SEC));
}

#[test]
fn commondir_is_the_trimmed_first_line() {
    assert_eq!(parse_commondir("../..\n"), Some("../..".to_owned()));
    assert_eq!(parse_commondir("  /repo/.git \r\nextra"), Some("/repo/.git".to_owned()));
    assert_eq!(parse_commondir(""), None);
    assert_eq!(parse_commondir("   \n"), None);
}

#[test]
fn a_reference_outside_refs_heads_is_not_a_branch() {
    assert_eq!(parse_head("ref: refs/tags/v1\n"), None);
    assert_eq!(parse_head("ref: main\n"), None);
    assert_eq!(parse_head("ref: refs/heads/\n"), None);
    assert_eq!(parse_head("ref:refs/heads/x"), Some(Head::Branch("x".to_owned())));
}

#[test]
fn the_first_dot_git_going_up_decides() {
    assert_eq!(discovery_step(&DotGit::Missing), DiscoveryStep::Continue);
    assert_eq!(discovery_step(&DotGit::Directory), DiscoveryStep::HeadInDotGit);
    assert_eq!(discovery_step(&DotGit::File(None)), DiscoveryStep::Absent);
    assert_eq!(
        discovery_step(&DotGit::File(Some("gitdir: ../.git/worktrees/wt\n".to_owned()))),
        DiscoveryStep::HeadInGitdir("../.git/worktrees/wt".to_owned())
    );
    assert_eq!(
        discovery_step(&DotGit::File(Some("garbage".to_owned()))),
        DiscoveryStep::Absent
    );
}

#[test]
fn labels_render_any_count_in_decimal() {
    assert_eq!(
        ahead_behind_label(4294967295, 10),
        Some("4294967295 atrás, 10 à frente".to_owned())
    );
    assert_eq!(ahead_behind_label(100, 0), Some("100 commits atrás".to_owned()));
}
