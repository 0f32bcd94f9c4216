use kagi_mcp::account::{
    assistant_custom_create, assistant_custom_delete, assistant_custom_get, assistant_custom_list,
    bang_custom_delete, bang_custom_get, bang_custom_list, lens_delete, lens_disable, lens_enable,
    lens_get, redirect_delete, redirect_get, redirect_list,
};
use kagi_mcp::args::{
    AskPageArgs, AssistantCustomCreateArgs, AssistantCustomOptions, AssistantCustomTargetArgs,
    AssistantReplArgs, BatchArgs, CustomBangTargetArgs, LensTargetArgs, RedirectTargetArgs,
    SitePrefDomainArgs, SkillGetArgs, SkillPathArgs, SummarizeArgs, ThreadIdArgs,
};
use kagi_mcp::command::{CommandSpec, OutputMode};
use kagi_mcp::privacy::{apply_privacy_mode, PrivacyMode};
use kagi_mcp::search::batch;
use kagi_mcp::tools::{
    ask_page, assistant_repl, assistant_thread_delete, assistant_thread_get,
    assistant_thread_list, auth_check, auth_status, site_pref_list, site_pref_remove, skills_get,
    skills_path, summarize,
};

fn strings(items: &[&str]) -> Vec<String> {
    items.iter().map(|item| (*item).to_string()).collect()
}

fn plain(args: &[&str], output_mode: OutputMode) -> CommandSpec {
    CommandSpec { args: strings(args), stdin: None, output_mode, profile_override: None, stealth: false }
}

fn repl(prompts: &[&str]) -> AssistantReplArgs {
    AssistantReplArgs {
        prompts: strings(prompts),
        thread_id: None,
        assistant: None,
        model: None,
        format: None,
        export: None,
        no_color: None,
    }
}

#[test]
fn repl_stdin_always_ends_with_exit() {
    assert_eq!(assistant_repl(repl(&[])).stdin, Some("/exit\n".to_string()));
    assert_eq!(assistant_repl(repl(&[""])).stdin, Some("/exit\n".to_string()));
    assert_eq!(assistant_repl(repl(&["hi"])).stdin, Some("hi\n/exit\n".to_string()));
    assert_eq!(
        assistant_repl(repl(&["", "x"])).stdin,
        Some("\nx\n/exit\n".to_string())
    );
    assert_eq!(
        assistant_repl(repl(&[])),
        CommandSpec {
            args: strings(&["assistant", "repl"]),
            stdin: Some("/exit\n".to_string()),
            output_mode: OutputMode::Text,
            profile_override: None,
            stealth: false,
        }
    );
}

#[test]
fn summarize_without_filter_has_no_stdin() {
    let spec = summarize(SummarizeArgs {
        url: Some("https://example.com".to_string()),
        text: None,
        subscriber: Some(false),
        length: Some("short".to_string()),
        engine: Some("cecil".to_string()),
        summary_type: Some("takeaway".to_string()),
        target_language: Some("fr".to_string()),
        cache: Some(true),
        filter_items: Vec::new(),
        local_cache: None,
        cache_ttl: None,
    });
    assert_eq!(
        spec,
        plain(
            &[
                "summarize", "--url", "https://example.com", "--length", "short", "--engine",
                "cecil", "--summary-type", "takeaway", "--target-language", "fr", "--cache",
                "true",
            ],
            OutputMode::JsonToToon,
        )
    );
    let one = summarize(SummarizeArgs {
        url: None,
        text: None,
        subscriber: None,
        length: None,
        engine: None,
        summary_type: None,
        target_language: None,
        cache: None,
        filter_items: strings(&[""]),
        local_cache: None,
        cache_ttl: None,
    });
    assert_eq!(one.stdin, Some("\n".to_string()));
    assert_eq!(one.args, strings(&["summarize", "--filter"]));
}

#[test]
fn batch_without_queries_or_stdin() {
    let spec = batch(BatchArgs {
        queries: Vec::new(),
        stdin_queries: Vec::new(),
        concurrency: Some(2),
        rate_limit: Some(30),
        format: Some("csv".to_string()),
        snap: None,
        lens: Some("3".to_string()),
        region: None,
        time: Some("week".to_string()),
        from_date: None,
        to_date: None,
        order: Some("recency".to_string()),
        verbatim: None,
        personalized: None,
        no_personalized: Some(false),
        privacy_mode: None,
        stealth_mode: None,
        profile: None,
        template: None,
        limit: None,
        no_color: None,
    });
    assert_eq!(
        spec,
        plain(
            &[
                "batch", "--concurrency", "2", "--rate-limit", "30", "--format", "csv", "--lens",
                "3", "--time", "week", "--order", "recency",
            ],
            OutputMode::Text,
        )
    );
}

#[test]
fn builds_thread_and_state_commands() {
    assert_eq!(
        assistant_thread_list(),
        plain(&["assistant", "thread", "list"], OutputMode::JsonToToon)
    );
    assert_eq!(
        assistant_thread_get(ThreadIdArgs { thread_id: "t1".to_string() }),
        plain(&["assistant", "thread", "get", "t1"], OutputMode::JsonToToon)
    );
    assert_eq!(
        assistant_thread_delete(ThreadIdArgs { thread_id: "t1".to_string() }),
        plain(&["assistant", "thread", "delete", "t1"], OutputMode::JsonToToon)
    );
    assert_eq!(
        ask_page(AskPageArgs { url: "https://a.b".to_string(), question: "why?".to_string() }),
        plain(&["ask-page", "https://a.b", "why?"], OutputMode::JsonToToon)
    );
    assert_eq!(site_pref_list(), plain(&["site-pref", "list"], OutputMode::JsonToToon));
    assert_eq!(
        site_pref_remove(SitePrefDomainArgs { domain: "a.b".to_string() }),
        plain(&["site-pref", "remove", "a.b"], OutputMode::JsonToToon)
    );
    assert_eq!(auth_status(), plain(&["auth", "status"], OutputMode::Text));
    assert_eq!(auth_check(), plain(&["auth", "check"], OutputMode::Text));
}

#[test]
fn builds_skill_lookups() {
    assert_eq!(
        skills_get(SkillGetArgs { name: Some("search".to_string()), full: None }),
        plain(&["skills", "get", "search"], OutputMode::Text)
    );
    assert_eq!(
        skills_get(SkillGetArgs { name: None, full: Some(false) }),
        plain(&["skills", "get", "kagi"], OutputMode::Text)
    );
    assert_eq!(
        skills_path(SkillPathArgs { name: None }),
        plain(&["skills", "path"], OutputMode::Text)
    );
}

#[test]
fn builds_account_lookups() {
    let target = || LensTargetArgs { target: "Rust".to_string() };
    assert_eq!(lens_get(target()), plain(&["lens", "get", "Rust"], OutputMode::JsonToToon));
    assert_eq!(lens_delete(target()), plain(&["lens", "delete", "Rust"], OutputMode::JsonToToon));
    assert_eq!(lens_enable(target()), plain(&["lens", "enable", "Rust"], OutputMode::JsonToToon));
    assert_eq!(
        lens_disable(target()),
        plain(&["lens", "disable", "Rust"], OutputMode::JsonToToon)
    );
    let custom = || AssistantCustomTargetArgs { target: "R".to_string() };
    assert_eq!(
        assistant_custom_list(),
        plain(&["assistant", "custom", "list"], OutputMode::JsonToToon)
    );
    assert_eq!(
        assistant_custom_get(custom()),
        plain(&["assistant", "custom", "get", "R"], OutputMode::JsonToToon)
    );
    assert_eq!(
        assistant_custom_delete(custom()),
        plain(&["assistant", "custom", "delete", "R"], OutputMode::JsonToToon)
    );
    assert_eq!(
        assistant_custom_create(AssistantCustomCreateArgs {
            name: "R".to_string(),
            options: AssistantCustomOptions {
                web_access: Some(true),
                lens: Some("2".to_string()),
                personalized: Some(true),
                ..AssistantCustomOptions::default()
            },
        }),
        plain(
            &["assistant", "custom", "create", "R", "--web-access", "--lens", "2", "--personalized"],
            OutputMode::JsonToToon,
        )
    );
    let bang = || CustomBangTargetArgs { target: "rs".to_string() };
    assert_eq!(bang_custom_list(), plain(&["bang", "custom", "list"], OutputMode::JsonToToon));
    assert_eq!(
        bang_custom_get(bang()),
        plain(&["bang", "custom", "get", "rs"], OutputMode::JsonToToon)
    );
    assert_eq!(
        bang_custom_delete(bang()),
        plain(&["bang", "custom", "delete", "rs"], OutputMode::JsonToToon)
    );
    let rule = || RedirectTargetArgs { target: "1".to_string() };
    assert_eq!(redirect_list(), plain(&["redirect", "list"], OutputMode::JsonToToon));
    assert_eq!(redirect_get(rule()), plain(&["redirect", "get", "1"], OutputMode::JsonToToon));
    assert_eq!(
        redirect_delete(rule()),
        plain(&["redirect", "delete", "1"], OutputMode::JsonToToon)
    );
}

#[test]
fn privacy_preset_applied_twice_is_applied_once() {
    let mut region = None;
    let mut no_personalized = None;
    for _ in 0..2 {
        apply_privacy_mode(
            Some(PrivacyMode::Unpersonalized),
            &mut region,
            None,
            &mut no_personalized,
            true,
        );
        assert_eq!(region, Some("no_region".to_string()));
        assert_eq!(no_personalized, Some(true));
    }
    let mut region = None;
    let mut no_personalized = Some(false);
    apply_privacy_mode(
        Some(PrivacyMode::Unpersonalized),
        &mut region,
        Some(false),
        &mut no_personalized,
        true,
    );
    assert_eq!(no_personalized, Some(false));
    let mut region = None;
    let mut no_personalized = None;
    apply_privacy_mode(
        Some(PrivacyMode::Unpersonalized),
        &mut region,
        None,
        &mut no_personalized,
        false,
    );
    assert_eq!(region, Some("no_region".to_string()));
    assert_eq!(no_personalized, None);
}
