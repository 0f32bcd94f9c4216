use kagi_mcp::account::{
    bang_custom_update, lens_update, redirect_create, redirect_disable, redirect_enable,
};
use kagi_mcp::args::{
    CustomBangOptions, CustomBangUpdateArgs, EnrichArgs, FastGptArgs, LangArgs, LensOptions,
    LensUpdateArgs, NewsArgs, QuickArgs, RedirectCreateArgs, RedirectTargetArgs, SearchArgs,
    SmallWebArgs, TranslateArgs,
};
use kagi_mcp::command::{output_mode_for_format, CommandSpec, OutputMode};
use kagi_mcp::search::{quick, search};
use kagi_mcp::text::{
    blank, bool_to_text, i32_text, join_lines, parse_u64, str_eq, trim_end, u64_text,
};
use kagi_mcp::tools::{
    enrich_news, enrich_web, fastgpt, news, news_categories, news_chaos, smallweb, translate,
};

fn strings(items: &[&str]) -> Vec<String> {
    items.iter().map(|item| (*item).to_string()).collect()
}

#[test]
fn decimal_text_of_numbers() {
    assert_eq!(u64_text(0), "0");
    assert_eq!(u64_text(7), "7");
    assert_eq!(u64_text(10), "10");
    assert_eq!(u64_text(600), "600");
    assert_eq!(u64_text(u64::MAX), "18446744073709551615");
    assert_eq!(i32_text(0), "0");
    assert_eq!(i32_text(-1), "-1");
    assert_eq!(i32_text(i32::MAX), "2147483647");
    assert_eq!(i32_text(i32::MIN), "-2147483648");
    assert_eq!(bool_to_text(true), "true");
    assert_eq!(bool_to_text(false), "false");
}

#[test]
fn parse_reads_back_decimal_text() {
    for n in [0u64, 1, 9, 10, 99, 30_000, 1 << 40, u64::MAX] {
        assert_eq!(parse_u64(&u64_text(n)), Some(n));
    }
    assert_eq!(parse_u64("007"), Some(7));
    assert_eq!(parse_u64("+7"), Some(7));
    assert_eq!(parse_u64(""), None);
    assert_eq!(parse_u64("+"), None);
    assert_eq!(parse_u64("-1"), None);
    assert_eq!(parse_u64("1_000"), None);
    assert_eq!(parse_u64("١٢"), None);
    assert_eq!(parse_u64("18446744073709551616"), None);
    assert_eq!(parse_u64("99999999999999999999999"), None);
}

#[test]
fn string_helpers() {
    assert!(str_eq("toon", "toon"));
    assert!(!str_eq("toon", "Toon"));
    assert!(!str_eq("toon", "toons"));
    assert!(blank(""));
    assert!(blank(" \t\r\n\u{a0}\u{2003}\u{3000}"));
    assert!(!blank(" x "));
    assert_eq!(trim_end("abc \n\t"), "abc");
    assert_eq!(trim_end(" \n"), "");
    assert_eq!(trim_end("a b"), "a b");
    assert_eq!(join_lines(&strings(&[])), "");
    assert_eq!(join_lines(&strings(&["a"])), "a");
    assert_eq!(join_lines(&strings(&["a", "", "c"])), "a\n\nc");
}

#[test]
fn format_modes() {
    assert_eq!(output_mode_for_format(Some("compact")), OutputMode::Json);
    assert_eq!(output_mode_for_format(Some("pretty")), OutputMode::Text);
    assert_eq!(output_mode_for_format(Some("markdown")), OutputMode::Text);
    assert_eq!(output_mode_for_format(Some("csv")), OutputMode::Text);
    assert_eq!(output_mode_for_format(Some("yaml")), OutputMode::Json);
    assert_eq!(output_mode_for_format(Some("TOON")), OutputMode::Json);
}

fn plain(args: &[&str], output_mode: OutputMode) -> CommandSpec {
    CommandSpec { args: strings(args), stdin: None, output_mode, profile_override: None, stealth: false }
}

#[test]
fn builds_news_commands() {
    let spec = news(NewsArgs {
        category: Some("tech".to_string()),
        limit: Some(4),
        lang: Some("de".to_string()),
        list_filter_presets: Some(false),
        filter_preset: strings(&["politics", "sports"]),
        filter_keyword: strings(&["crypto"]),
        filter_mode: Some("blur".to_string()),
        filter_scope: None,
    });
    assert_eq!(
        spec,
        plain(
            &[
                "news", "--category", "tech", "--limit", "4", "--lang", "de", "--filter-preset",
                "politics", "--filter-preset", "sports", "--filter-keyword", "crypto",
                "--filter-mode", "blur",
            ],
            OutputMode::JsonToToon,
        )
    );
    assert_eq!(
        news_categories(LangArgs { lang: None }),
        plain(&["news", "--list-categories"], OutputMode::JsonToToon)
    );
    assert_eq!(
        news_chaos(LangArgs { lang: Some("en".to_string()) }),
        plain(&["news", "--chaos", "--lang", "en"], OutputMode::JsonToToon)
    );
}

#[test]
fn builds_api_commands() {
    assert_eq!(
        fastgpt(FastGptArgs {
            query: "why".to_string(),
            cache: Some(false),
            web_search: Some(true),
            local_cache: Some(true),
            cache_ttl: Some(30),
        }),
        plain(
            &[
                "fastgpt", "why", "--cache", "false", "--web-search", "true", "--local-cache",
                "--cache-ttl", "30",
            ],
            OutputMode::JsonToToon,
        )
    );
    assert_eq!(
        enrich_web(EnrichArgs { query: "rust".to_string() }),
        plain(&["enrich", "web", "rust"], OutputMode::JsonToToon)
    );
    assert_eq!(
        enrich_news(EnrichArgs { query: "rust".to_string() }),
        plain(&["enrich", "news", "rust"], OutputMode::JsonToToon)
    );
    assert_eq!(
        smallweb(SmallWebArgs { limit: Some(12) }),
        plain(&["smallweb", "--limit", "12"], OutputMode::JsonToToon)
    );
}

#[test]
fn builds_quick_and_translate() {
    assert_eq!(
        quick(QuickArgs {
            query: "time".to_string(),
            format: None,
            no_color: Some(false),
            lens: Some("1".to_string()),
            local_cache: None,
            cache_ttl: None,
        }),
        plain(&["quick", "time", "--format", "toon", "--lens", "1"], OutputMode::Toon)
    );
    let spec = translate(TranslateArgs {
        text: "hallo".to_string(),
        from: Some("de".to_string()),
        to: Some("en".to_string()),
        quality: None,
        model: None,
        prediction: None,
        predicted_language: None,
        formality: Some("formal".to_string()),
        speaker_gender: None,
        addressee_gender: None,
        language_complexity: None,
        translation_style: None,
        context: None,
        dictionary_language: None,
        time_format: None,
        use_definition_context: Some(true),
        enable_language_features: None,
        preserve_formatting: Some(false),
        context_memory_json: None,
        no_alternatives: Some(true),
        no_word_insights: Some(false),
        no_suggestions: None,
        no_alignments: Some(true),
    });
    assert_eq!(
        spec,
        plain(
            &[
                "translate", "hallo", "--from", "de", "--to", "en", "--formality", "formal",
                "--use-definition-context", "true", "--preserve-formatting", "false",
                "--no-alternatives", "--no-alignments",
            ],
            OutputMode::JsonToToon,
        )
    );
}

#[test]
fn builds_account_updates() {
    let spec = lens_update(LensUpdateArgs {
        target: "Rust".to_string(),
        name: None,
        options: LensOptions {
            region: Some("us".to_string()),
            autocomplete_keywords: Some(true),
            file_type: Some("pdf".to_string()),
            ..LensOptions::default()
        },
    });
    assert_eq!(
        spec.args,
        strings(&[
            "lens", "update", "Rust", "--region", "us", "--autocomplete-keywords", "--file-type",
            "pdf",
        ])
    );
    let spec = bang_custom_update(CustomBangUpdateArgs {
        target: "rs".to_string(),
        name: Some("Rust".to_string()),
        trigger: Some("rust".to_string()),
        options: CustomBangOptions {
            no_open_base_path: Some(true),
            ..CustomBangOptions::default()
        },
    });
    assert_eq!(
        spec.args,
        strings(&[
            "bang", "custom", "update", "rs", "--name", "Rust", "--trigger", "rust",
            "--no-open-base-path",
        ])
    );
    assert_eq!(
        redirect_create(RedirectCreateArgs { rule: "a|b".to_string() }),
        plain(&["redirect", "create", "a|b"], OutputMode::JsonToToon)
    );
    assert_eq!(
        redirect_enable(RedirectTargetArgs { target: "1".to_string() }).args,
        strings(&["redirect", "enable", "1"])
    );
    assert_eq!(
        redirect_disable(RedirectTargetArgs { target: "1".to_string() }).args,
        strings(&["redirect", "disable", "1"])
    );
}

#[test]
fn search_stealth_keeps_explicit_cache_choices() {
    let spec = search(SearchArgs {
        query: "rust".to_string(),
        snap: None,
        lens: None,
        region: None,
        time: None,
        from_date: None,
        to_date: None,
        order: None,
        verbatim: None,
        personalized: None,
        no_personalized: None,
        privacy_mode: None,
        stealth_mode: Some(kagi_mcp::privacy::StealthMode::On),
        profile: None,
        template: None,
        follow: None,
        limit: None,
        news: None,
        local_cache: Some(false),
        cache_ttl: Some(5),
        format: Some("json".to_string()),
        no_color: None,
    });
    let mut expected =
        plain(&["search", "rust", "--cache-ttl", "5", "--format", "json"], OutputMode::Json);
    expected.stealth = true;
    assert_eq!(spec, expected);
}
