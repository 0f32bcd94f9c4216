use kagi_mcp::account::{assistant_custom_update, bang_custom_create, lens_create, lens_list};
use kagi_mcp::args::{
    AssistantArgs, AssistantCustomOptions, AssistantCustomUpdateArgs, AssistantReplArgs,
    AuthSetArgs, BatchArgs, CompletionArgs, CustomBangCreateArgs, CustomBangOptions, ExtractArgs,
    HistoryListArgs, LensCreateArgs, LensOptions, NotifyArgs, RedirectUpdateArgs, SearchArgs,
    SitePrefSetArgs, SkillGetArgs, SkillPathArgs, SummarizeArgs, ThreadExportArgs, WatchArgs,
};
use kagi_mcp::account::redirect_update;
use kagi_mcp::command::{output_mode_for_format, CommandSpec, OutputMode};
use kagi_mcp::privacy::{apply_privacy_mode, PrivacyMode, StealthMode};
use kagi_mcp::search::{batch, search};
use kagi_mcp::tools::{
    agent, assistant, assistant_repl, assistant_thread_export, auth_set, extract,
    generate_completion, history_list, history_stats, notify, site_pref_set, skills_get,
    skills_list, skills_path, summarize, watch,
};

fn strings(items: &[&str]) -> Vec<String> {
    items.iter().map(|item| (*item).to_string()).collect()
}

fn search_args(query: &str) -> SearchArgs {
    SearchArgs {
        query: query.to_string(),
        snap: None,
        lens: None,
        region: None,
        time: None,
        from_date: None,
        to_date: None,
        order: None,
        verbatim: None,
        personalized: None,
        no_personalized: None,
        privacy_mode: None,
        stealth_mode: None,
        profile: None,
        template: None,
        follow: None,
        limit: None,
        news: None,
        local_cache: None,
        cache_ttl: None,
        format: None,
        no_color: None,
    }
}

fn summarize_args() -> SummarizeArgs {
    SummarizeArgs {
        url: None,
        text: None,
        subscriber: None,
        length: None,
        engine: None,
        summary_type: None,
        target_language: None,
        cache: None,
        filter_items: Vec::new(),
        local_cache: None,
        cache_ttl: None,
    }
}

fn assistant_args(query: &str) -> AssistantArgs {
    AssistantArgs {
        query: query.to_string(),
        thread_id: None,
        attach: Vec::new(),
        assistant: None,
        format: None,
        model: None,
        lens: None,
        web_access: None,
        no_web_access: None,
        personalized: None,
        no_personalized: None,
        export: None,
        no_color: None,
    }
}

fn assistant_repl_args() -> AssistantReplArgs {
    AssistantReplArgs {
        prompts: Vec::new(),
        thread_id: None,
        assistant: None,
        model: None,
        format: None,
        export: None,
        no_color: None,
    }
}

fn batch_args() -> BatchArgs {
    BatchArgs {
        queries: Vec::new(),
        stdin_queries: Vec::new(),
        concurrency: None,
        rate_limit: None,
        format: None,
        snap: None,
        lens: None,
        region: None,
        time: None,
        from_date: None,
        to_date: None,
        order: None,
        verbatim: None,
        personalized: None,
        no_personalized: None,
        privacy_mode: None,
        stealth_mode: None,
        profile: None,
        template: None,
        limit: None,
        no_color: None,
    }
}

#[test]
fn builds_search_args() {
    let mut args = search_args("rust");
    args.lens = Some("2".to_string());

    assert_eq!(
        search(args),
        CommandSpec {
            args: strings(&["search", "rust", "--lens", "2", "--format", "toon"]),
            stdin: None,
            output_mode: OutputMode::Toon,
            profile_override: None,
            stealth: false,
        }
    );
}

#[test]
fn builds_search_toon_args_as_cli_toon() {
    let mut args = search_args("rust");
    args.format = Some("toon".to_string());

    assert_eq!(
        search(args),
        CommandSpec {
            args: strings(&["search", "rust", "--format", "toon"]),
            stdin: None,
            output_mode: OutputMode::Toon,
            profile_override: None,
            stealth: false,
        }
    );
}

#[test]
fn builds_search_args_for_v0_5_options() {
    let mut args = search_args("rust");
    args.snap = Some("reddit".to_string());
    args.from_date = Some("2024-01-01".to_string());
    args.to_date = Some("2024-12-31".to_string());
    args.verbatim = Some(true);
    args.personalized = Some(true);
    args.template = Some("{{title}}".to_string());
    args.follow = Some(3);
    args.limit = Some(5);
    args.news = Some(true);
    args.local_cache = Some(true);
    args.cache_ttl = Some(600);
    args.format = Some("pretty".to_string());
    args.no_color = Some(true);

    assert_eq!(
        search(args),
        CommandSpec {
            args: strings(&[
                "search",
                "rust",
                "--snap",
                "reddit",
                "--from-date",
                "2024-01-01",
                "--to-date",
                "2024-12-31",
                "--verbatim",
                "--personalized",
                "--template",
                "{{title}}",
                "--follow",
                "3",
                "--limit",
                "5",
                "--news",
                "--local-cache",
                "--cache-ttl",
                "600",
                "--format",
                "pretty",
                "--no-color",
            ]),
            stdin: None,
            output_mode: OutputMode::Text,
            profile_override: None,
            stealth: false,
        }
    );
}

#[test]
fn builds_summarize_filter_with_controlled_stdin() {
    let mut args = summarize_args();
    args.filter_items = strings(&["https://example.com/a", "plain text"]);
    args.subscriber = Some(true);
    args.cache_ttl = Some(300);

    assert_eq!(
        summarize(args),
        CommandSpec {
            args: strings(&[
                "summarize",
                "--subscriber",
                "--cache-ttl",
                "300",
                "--filter"
            ]),
            stdin: Some("https://example.com/a\nplain text\n".to_string()),
            output_mode: OutputMode::JsonToToon,
            profile_override: None,
            stealth: false,
        }
    );
}

#[test]
fn builds_batch_with_stdin_queries_and_shared_filters() {
    let mut args = batch_args();
    args.queries = strings(&["rust"]);
    args.stdin_queries = strings(&["zig", "go"]);
    args.snap = Some("reddit".to_string());
    args.region = Some("us".to_string());
    args.verbatim = Some(true);
    args.template = Some("{{url}}".to_string());
    args.limit = Some(10);
    args.no_color = Some(true);

    assert_eq!(
        batch(args),
        CommandSpec {
            args: strings(&[
                "batch",
                "rust",
                "--snap",
                "reddit",
                "--region",
                "us",
                "--verbatim",
                "--template",
                "{{url}}",
                "--limit",
                "10",
                "--no-color",
            ]),
            stdin: Some("zig\ngo\n".to_string()),
            output_mode: OutputMode::Text,
            profile_override: None,
            stealth: false,
        }
    );
}

#[test]
fn builds_batch_default_toon_as_cli_toon() {
    let mut args = batch_args();
    args.queries = strings(&["rust", "zig"]);

    assert_eq!(
        batch(args),
        CommandSpec {
            args: strings(&["batch", "rust", "zig", "--format", "toon"]),
            stdin: None,
            output_mode: OutputMode::Toon,
            profile_override: None,
            stealth: false,
        }
    );
}

#[test]
fn builds_agent_skill_commands() {
    assert_eq!(
        agent(),
        CommandSpec {
            args: strings(&["agent"]),
            stdin: None,
            output_mode: OutputMode::Text,
            profile_override: None,
            stealth: false,
        }
    );
    assert_eq!(
        skills_list(),
        CommandSpec {
            args: strings(&["skills", "list"]),
            stdin: None,
            output_mode: OutputMode::Text,
            profile_override: None,
            stealth: false,
        }
    );
    assert_eq!(
        skills_get(SkillGetArgs {
            name: None,
            full: Some(true),
        }),
        CommandSpec {
            args: strings(&["skills", "get", "kagi", "--full"]),
            stdin: None,
            output_mode: OutputMode::Text,
            profile_override: None,
            stealth: false,
        }
    );
    assert_eq!(
        skills_path(SkillPathArgs {
            name: Some("kagi".to_string()),
        }),
        CommandSpec {
            args: strings(&["skills", "path", "kagi"]),
            stdin: None,
            output_mode: OutputMode::Text,
            profile_override: None,
            stealth: false,
        }
    );
}

#[test]
fn builds_assistant_prompt_options() {
    let mut args = assistant_args("explain rust");
    args.attach = strings(&["notes.md", "trace.txt"]);
    args.assistant = Some("researcher".to_string());
    args.format = Some("markdown".to_string());
    args.model = Some("cecil".to_string());
    args.lens = Some(42);
    args.no_web_access = Some(true);
    args.no_personalized = Some(true);
    args.export = Some("assistant.json".to_string());
    args.no_color = Some(true);

    assert_eq!(
        assistant(args),
        CommandSpec {
            args: strings(&[
                "assistant",
                "explain rust",
                "--attach",
                "notes.md",
                "--attach",
                "trace.txt",
                "--assistant",
                "researcher",
                "--format",
                "markdown",
                "--no-color",
                "--model",
                "cecil",
                "--lens",
                "42",
                "--no-web-access",
                "--no-personalized",
                "--export",
                "assistant.json",
            ]),
            stdin: None,
            output_mode: OutputMode::Text,
            profile_override: None,
            stealth: false,
        }
    );
}

#[test]
fn builds_assistant_toon_args_as_cli_toon() {
    let mut args = assistant_args("explain rust");
    args.format = Some("toon".to_string());

    assert_eq!(
        assistant(args),
        CommandSpec {
            args: strings(&["assistant", "explain rust", "--format", "toon"]),
            stdin: None,
            output_mode: OutputMode::Toon,
            profile_override: None,
            stealth: false,
        }
    );
}

#[test]
fn builds_assistant_repl_with_controlled_stdin() {
    let mut args = assistant_repl_args();
    args.prompts = strings(&["first", "second"]);
    args.thread_id = Some("thread_1".to_string());
    args.assistant = Some("researcher".to_string());
    args.model = Some("cecil".to_string());
    args.format = Some("markdown".to_string());
    args.export = Some("transcript.json".to_string());
    args.no_color = Some(true);

    assert_eq!(
        assistant_repl(args),
        CommandSpec {
            args: strings(&[
                "assistant",
                "repl",
                "--thread-id",
                "thread_1",
                "--assistant",
                "researcher",
                "--model",
                "cecil",
                "--format",
                "markdown",
                "--export",
                "transcript.json",
                "--no-color",
            ]),
            stdin: Some("first\nsecond\n/exit\n".to_string()),
            output_mode: OutputMode::Text,
            profile_override: None,
            stealth: false,
        }
    );
}

#[test]
fn builds_assistant_thread_export_modes() {
    assert_eq!(
        assistant_thread_export(ThreadExportArgs {
            thread_id: "thread_1".to_string(),
            format: None,
        }),
        CommandSpec {
            args: strings(&["assistant", "thread", "export", "thread_1"]),
            stdin: None,
            output_mode: OutputMode::Text,
            profile_override: None,
            stealth: false,
        }
    );
    assert_eq!(
        assistant_thread_export(ThreadExportArgs {
            thread_id: "thread_1".to_string(),
            format: Some("json".to_string()),
        }),
        CommandSpec {
            args: strings(&[
                "assistant",
                "thread",
                "export",
                "thread_1",
                "--format",
                "json",
            ]),
            stdin: None,
            output_mode: OutputMode::JsonToToon,
            profile_override: None,
            stealth: false,
        }
    );
}

#[test]
fn builds_local_state_commands() {
    assert_eq!(
        history_list(HistoryListArgs { limit: Some(5) }),
        CommandSpec {
            args: strings(&["history", "list", "--limit", "5"]),
            stdin: None,
            output_mode: OutputMode::JsonToToon,
            profile_override: None,
            stealth: false,
        }
    );
    assert_eq!(
        history_stats(),
        CommandSpec {
            args: strings(&["history", "stats"]),
            stdin: None,
            output_mode: OutputMode::JsonToToon,
            profile_override: None,
            stealth: false,
        }
    );
    assert_eq!(
        site_pref_set(SitePrefSetArgs {
            domain: "example.com".to_string(),
            mode: "higher".to_string(),
        }),
        CommandSpec {
            args: strings(&["site-pref", "set", "example.com", "--mode", "higher"]),
            stdin: None,
            output_mode: OutputMode::JsonToToon,
            profile_override: None,
            stealth: false,
        }
    );
}

#[test]
fn builds_extract_command() {
    assert_eq!(
        extract(ExtractArgs {
            url: "https://example.com".to_string(),
        }),
        CommandSpec {
            args: strings(&["extract", "https://example.com"]),
            stdin: None,
            output_mode: OutputMode::Text,
            profile_override: None,
            stealth: false,
        }
    );
}

#[test]
fn builds_lens_commands() {
    assert_eq!(
        lens_list(),
        CommandSpec {
            args: strings(&["lens", "list"]),
            stdin: None,
            output_mode: OutputMode::JsonToToon,
            profile_override: None,
            stealth: false,
        }
    );

    let spec = lens_create(LensCreateArgs {
        name: "Rust".to_string(),
        options: LensOptions {
            included_sites: Some("doc.rust-lang.org".to_string()),
            shortcut: Some("rs".to_string()),
            no_share_with_team: Some(true),
            ..LensOptions::default()
        },
    });
    assert_eq!(
        spec.args,
        strings(&[
            "lens",
            "create",
            "Rust",
            "--included-sites",
            "doc.rust-lang.org",
            "--shortcut",
            "rs",
            "--no-share-with-team",
        ])
    );
}

#[test]
fn builds_assistant_custom_commands() {
    let spec = assistant_custom_update(AssistantCustomUpdateArgs {
        target: "Researcher".to_string(),
        name: Some("Research Pro".to_string()),
        options: AssistantCustomOptions {
            bang_trigger: Some("research".to_string()),
            no_web_access: Some(true),
            model: Some("cecil".to_string()),
            instructions: Some("Be concise".to_string()),
            ..AssistantCustomOptions::default()
        },
    });
    assert_eq!(
        spec.args,
        strings(&[
            "assistant",
            "custom",
            "update",
            "Researcher",
            "--name",
            "Research Pro",
            "--bang-trigger",
            "research",
            "--no-web-access",
            "--model",
            "cecil",
            "--instructions",
            "Be concise",
        ])
    );
}

#[test]
fn builds_custom_bang_commands() {
    let spec = bang_custom_create(CustomBangCreateArgs {
        name: "Rust docs".to_string(),
        trigger: "rs".to_string(),
        options: CustomBangOptions {
            template: Some("https://doc.rust-lang.org/std/?search=%s".to_string()),
            shortcut_menu: Some(true),
            plus_for_space: Some(true),
            ..CustomBangOptions::default()
        },
    });
    assert_eq!(
        spec.args,
        strings(&[
            "bang",
            "custom",
            "create",
            "Rust docs",
            "--trigger",
            "rs",
            "--template",
            "https://doc.rust-lang.org/std/?search=%s",
            "--shortcut-menu",
            "--plus-for-space",
        ])
    );
}

#[test]
fn builds_redirect_watch_notify_and_auth_set_commands() {
    assert_eq!(
        redirect_update(RedirectUpdateArgs {
            target: "old".to_string(),
            rule: "old|new".to_string(),
        }),
        CommandSpec {
            args: strings(&["redirect", "update", "old", "old|new"]),
            stdin: None,
            output_mode: OutputMode::JsonToToon,
            profile_override: None,
            stealth: false,
        }
    );
    assert_eq!(
        watch(WatchArgs {
            query: "rust".to_string(),
            interval: Some(5),
            count: Some(2),
            format: Some("json".to_string()),
        }),
        CommandSpec {
            args: strings(&[
                "watch",
                "rust",
                "--interval",
                "5",
                "--count",
                "2",
                "--format",
                "json",
            ]),
            stdin: None,
            output_mode: OutputMode::Text,
            profile_override: None,
            stealth: false,
        }
    );
    assert_eq!(
        notify(NotifyArgs {
            query: Some("rust".to_string()),
            news_category: None,
            webhook_url: "https://hooks.example".to_string(),
            change_only: Some(true),
        }),
        CommandSpec {
            args: strings(&[
                "notify",
                "--query",
                "rust",
                "--webhook-url",
                "https://hooks.example",
                "--change-only",
            ]),
            stdin: None,
            output_mode: OutputMode::JsonToToon,
            profile_override: None,
            stealth: false,
        }
    );
    assert_eq!(
        auth_set(AuthSetArgs {
            api_token: Some("api".to_string()),
            session_token: Some("session".to_string()),
        }),
        CommandSpec {
            args: strings(&[
                "auth",
                "set",
                "--api-token",
                "api",
                "--session-token",
                "session",
            ]),
            stdin: None,
            output_mode: OutputMode::Text,
            profile_override: None,
            stealth: false,
        }
    );
    assert_eq!(
        generate_completion(CompletionArgs {
            shell: "bash".to_string(),
        }),
        CommandSpec {
            args: strings(&["--generate-completion", "bash"]),
            stdin: None,
            output_mode: OutputMode::Text,
            profile_override: None,
            stealth: false,
        }
    );
}

#[test]
fn default_format_mode_is_toon() {
    assert_eq!(output_mode_for_format(None), OutputMode::Toon);
    assert_eq!(output_mode_for_format(Some("toon")), OutputMode::Toon);
    assert_eq!(output_mode_for_format(Some("json")), OutputMode::Json);
}

#[test]
fn builds_search_with_privacy_mode() {
    let mut args = search_args("rust");
    args.privacy_mode = Some(PrivacyMode::Unpersonalized);
    let spec = search(args);
    assert!(spec.args.contains(&"--no-personalized".to_string()));
    assert!(spec.args.contains(&"--region".to_string()));
    assert!(spec.args.contains(&"no_region".to_string()));
}

#[test]
fn builds_search_privacy_mode_preserves_explicit_region() {
    let mut args = search_args("rust");
    args.region = Some("us".to_string());
    args.privacy_mode = Some(PrivacyMode::Unpersonalized);
    let spec = search(args);
    assert!(spec.args.contains(&"--region".to_string()));
    assert!(spec.args.contains(&"us".to_string()));
    assert!(!spec.args.contains(&"no_region".to_string()));
}

#[test]
fn builds_search_privacy_mode_avoids_news_conflict() {
    let mut args = search_args("rust");
    args.news = Some(true);
    args.privacy_mode = Some(PrivacyMode::Unpersonalized);
    let spec = search(args);
    assert!(!spec.args.contains(&"--no-personalized".to_string()));
    assert!(spec.args.contains(&"--region".to_string()));
    assert!(spec.args.contains(&"no_region".to_string()));
}

#[test]
fn builds_search_stealth_mode_enables_cache() {
    let mut args = search_args("rust");
    args.stealth_mode = Some(StealthMode::On);
    let spec = search(args);
    assert!(spec.args.contains(&"--local-cache".to_string()));
    assert!(spec.args.contains(&"--cache-ttl".to_string()));
}

#[test]
fn builds_search_with_profile_override() {
    let mut args = search_args("rust");
    args.profile = Some("alt-profile".to_string());
    let spec = search(args);
    assert_eq!(spec.profile_override, Some("alt-profile".to_string()));
}

#[test]
fn builds_batch_with_privacy_mode() {
    let mut args = batch_args();
    args.queries = strings(&["rust"]);
    args.privacy_mode = Some(PrivacyMode::Unpersonalized);
    let spec = batch(args);
    assert!(spec.args.contains(&"--no-personalized".to_string()));
    assert!(spec.args.contains(&"--region".to_string()));
    assert!(spec.args.contains(&"no_region".to_string()));
}

#[test]
fn builds_batch_stealth_mode_caps_concurrency() {
    let mut args = batch_args();
    args.queries = strings(&["rust"]);
    args.stealth_mode = Some(StealthMode::On);
    let spec = batch(args);
    assert!(spec.args.contains(&"--concurrency".to_string()));
    assert!(spec.args.contains(&"1".to_string()));
    assert!(spec.args.contains(&"--rate-limit".to_string()));
    assert!(spec.args.contains(&"20".to_string()));
}

#[test]
fn builds_batch_stealth_mode_preserves_explicit_concurrency() {
    let mut args = batch_args();
    args.queries = strings(&["rust"]);
    args.stealth_mode = Some(StealthMode::On);
    args.concurrency = Some(3);
    let spec = batch(args);
    assert!(spec.args.contains(&"--concurrency".to_string()));
    assert!(spec.args.contains(&"3".to_string()));
}

#[test]
fn builds_batch_with_profile_override() {
    let mut args = batch_args();
    args.queries = strings(&["rust"]);
    args.profile = Some("work".to_string());
    let spec = batch(args);
    assert_eq!(spec.profile_override, Some("work".to_string()));
}

#[test]
fn apply_privacy_mode_defaults_no_region() {
    let mut region = None;
    let mut no_personalized = None;
    apply_privacy_mode(
        Some(PrivacyMode::Unpersonalized),
        &mut region,
        None,
        &mut no_personalized,
        true,
    );
    assert_eq!(region, Some("no_region".to_string()));
    assert_eq!(no_personalized, Some(true));
}

#[test]
fn apply_privacy_mode_respects_explicit_region() {
    let mut region = Some("us".to_string());
    let mut no_personalized = None;
    apply_privacy_mode(
        Some(PrivacyMode::Unpersonalized),
        &mut region,
        None,
        &mut no_personalized,
        true,
    );
    assert_eq!(region, Some("us".to_string()));
}

#[test]
fn apply_privacy_mode_respects_explicit_personalized() {
    let mut region = None;
    let mut no_personalized = None;
    apply_privacy_mode(
        Some(PrivacyMode::Unpersonalized),
        &mut region,
        Some(true),
        &mut no_personalized,
        true,
    );
    assert_eq!(region, Some("no_region".to_string()));
    // When personalized is explicitly true, don't add no-personalized.
    assert_eq!(no_personalized, None);
}

#[test]
fn apply_privacy_mode_none_is_noop() {
    let mut region = None;
    let mut no_personalized = None;
    apply_privacy_mode(None, &mut region, None, &mut no_personalized, true);
    assert_eq!(region, None);
    assert_eq!(no_personalized, None);
}


#[test]
fn search_stealth_request_is_marked_for_the_runner() {
    let mut args = search_args("rust");
    args.stealth_mode = Some(StealthMode::On);
    assert_eq!(
        search(args),
        CommandSpec {
            args: strings(&["search", "rust", "--local-cache", "--cache-ttl", "600", "--format", "toon"]),
            stdin: None,
            output_mode: OutputMode::Toon,
            profile_override: None,
            stealth: true,
        }
    );
    assert!(!search(search_args("rust")).stealth);
}

#[test]
fn batch_stealth_request_caches_and_is_marked_for_the_runner() {
    let mut args = batch_args();
    args.queries = strings(&["rust"]);
    args.stealth_mode = Some(StealthMode::On);
    assert_eq!(
        batch(args),
        CommandSpec {
            args: strings(&[
                "batch", "rust", "--concurrency", "1", "--rate-limit", "20", "--format", "toon",
                "--local-cache", "--cache-ttl", "600",
            ]),
            stdin: None,
            output_mode: OutputMode::Toon,
            profile_override: None,
            stealth: true,
        }
    );
    let mut plain = batch_args();
    plain.queries = strings(&["rust"]);
    let spec = batch(plain);
    assert!(!spec.stealth);
    assert_eq!(spec.args, strings(&["batch", "rust", "--format", "toon"]));
}
