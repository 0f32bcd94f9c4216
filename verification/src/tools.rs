//! Invocations of the content tools: summarizer, extraction, news,
//! Assistant, FastGPT, enrichment, translation, local state and skills.

use vstd::prelude::*;
use crate::args::{
    AskPageArgs, AssistantArgs, AssistantReplArgs, AuthSetArgs, CompletionArgs, EnrichArgs,
    ExtractArgs, FastGptArgs, HistoryListArgs, LangArgs, NewsArgs, NotifyArgs, SitePrefDomainArgs,
    SitePrefSetArgs, SkillGetArgs, SkillPathArgs, SmallWebArgs, SummarizeArgs, ThreadExportArgs,
    ThreadIdArgs, TranslateArgs, WatchArgs,
};
use crate::argv::{
    nat_of_u32, nat_of_u64, opt_arg, opt_bool, opt_flag, opt_number, opt_text, push_opt_arg,
    push_opt_bool, push_opt_flag, push_opt_u32, push_opt_u64, push_opt_value, push_pair,
    push_repeated_value, repeated, ArgList,
};
use crate::command::{
    cli_format, command_spec, format_mode, mode_of_format, plain_command, push_cli_format,
    CommandSpec, OutputMode, SpecCommand,
};
use crate::lines::{lines_input, lines_stdin, repl_input, repl_stdin};
use crate::options::{group_options, has_option, has_switch, lemma_option_at_prefix, option_at};
use crate::text::{bool_text, decimal, lit, str_eq};

verus! {

/// The invocation for a summary.
pub open spec fn summarize_command(a: SummarizeArgs) -> SpecCommand {
    SpecCommand {
        args: seq!["summarize"@]
            + opt_text("--url"@, a.url.deep_view())
            + opt_text("--text"@, a.text.deep_view())
            + opt_flag("--subscriber"@, a.subscriber)
            + opt_text("--length"@, a.length.deep_view())
            + opt_text("--engine"@, a.engine.deep_view())
            + opt_text("--summary-type"@, a.summary_type.deep_view())
            + opt_text("--target-language"@, a.target_language.deep_view())
            + opt_bool("--cache"@, a.cache)
            + opt_flag("--local-cache"@, a.local_cache)
            + opt_number("--cache-ttl"@, nat_of_u64(a.cache_ttl))
            + opt_flag("--filter"@, Some(a.filter_items.len() > 0)),
        stdin: lines_input(a.filter_items.deep_view()),
        output_mode: OutputMode::JsonToToon,
        profile_override: None,
        stealth: false,
    }
}

/// Builds the `kagi summarize` invocation; filter items go through stdin.
pub fn summarize(args: SummarizeArgs) -> (spec: CommandSpec)
    ensures
        spec@ == summarize_command(args),
{
    let mut argv = ArgList::one(lit("summarize"));
    push_opt_value(&mut argv, "--url", args.url);
    push_opt_value(&mut argv, "--text", args.text);
    push_opt_flag(&mut argv, "--subscriber", args.subscriber);
    push_opt_value(&mut argv, "--length", args.length);
    push_opt_value(&mut argv, "--engine", args.engine);
    push_opt_value(&mut argv, "--summary-type", args.summary_type);
    push_opt_value(&mut argv, "--target-language", args.target_language);
    push_opt_bool(&mut argv, "--cache", args.cache);
    push_opt_flag(&mut argv, "--local-cache", args.local_cache);
    push_opt_u64(&mut argv, "--cache-ttl", args.cache_ttl);
    push_opt_flag(&mut argv, "--filter", Some(args.filter_items.len() > 0));
    let stdin = lines_stdin(&args.filter_items);
    CommandSpec {
        args: argv.into_vec(),
        stdin,
        output_mode: OutputMode::JsonToToon,
        profile_override: None,
        stealth: false,
    }
}

/// Builds the `kagi extract` invocation.
pub fn extract(args: ExtractArgs) -> (spec: CommandSpec)
    ensures
        spec@ == plain_command(seq!["extract"@, args.url@], OutputMode::Text),
{
    command_spec(ArgList::two(lit("extract"), args.url).into_vec(), OutputMode::Text)
}

/// The invocation for a news feed.
pub open spec fn news_command(a: NewsArgs) -> SpecCommand {
    plain_command(
        seq!["news"@]
            + opt_text("--category"@, a.category.deep_view())
            + opt_number("--limit"@, nat_of_u32(a.limit))
            + opt_text("--lang"@, a.lang.deep_view())
            + opt_flag("--list-filter-presets"@, a.list_filter_presets)
            + repeated("--filter-preset"@, a.filter_preset.deep_view())
            + repeated("--filter-keyword"@, a.filter_keyword.deep_view())
            + opt_text("--filter-mode"@, a.filter_mode.deep_view())
            + opt_text("--filter-scope"@, a.filter_scope.deep_view()),
        OutputMode::JsonToToon,
    )
}

/// Builds the `kagi news` invocation.
pub fn news(args: NewsArgs) -> (spec: CommandSpec)
    ensures
        spec@ == news_command(args),
{
    let mut argv = ArgList::one(lit("news"));
    push_opt_value(&mut argv, "--category", args.category);
    push_opt_u32(&mut argv, "--limit", args.limit);
    push_opt_value(&mut argv, "--lang", args.lang);
    push_opt_flag(&mut argv, "--list-filter-presets", args.list_filter_presets);
    push_repeated_value(&mut argv, "--filter-preset", args.filter_preset);
    push_repeated_value(&mut argv, "--filter-keyword", args.filter_keyword);
    push_opt_value(&mut argv, "--filter-mode", args.filter_mode);
    push_opt_value(&mut argv, "--filter-scope", args.filter_scope);
    command_spec(argv.into_vec(), OutputMode::JsonToToon)
}

/// Builds the `kagi news --list-categories` invocation.
pub fn news_categories(args: LangArgs) -> (spec: CommandSpec)
    ensures
        spec@ == plain_command(
            seq!["news"@, "--list-categories"@] + opt_text("--lang"@, args.lang.deep_view()),
            OutputMode::JsonToToon,
        ),
        option_at(spec@.args, 0, "news"@, "--list-categories"@),
        args.lang matches Some(v) ==> has_option(spec@.args, "--lang"@, v@),
{
    let mut argv = ArgList::two(lit("news"), lit("--list-categories"));
    push_opt_value(&mut argv, "--lang", args.lang);
    let spec = command_spec(argv.into_vec(), OutputMode::JsonToToon);
    proof {
        broadcast use group_options, lemma_option_at_prefix;
    }
    spec
}

/// Builds the `kagi news --chaos` invocation.
pub fn news_chaos(args: LangArgs) -> (spec: CommandSpec)
    ensures
        spec@ == plain_command(
            seq!["news"@, "--chaos"@] + opt_text("--lang"@, args.lang.deep_view()),
            OutputMode::JsonToToon,
        ),
        option_at(spec@.args, 0, "news"@, "--chaos"@),
        args.lang matches Some(v) ==> has_option(spec@.args, "--lang"@, v@),
{
    let mut argv = ArgList::two(lit("news"), lit("--chaos"));
    push_opt_value(&mut argv, "--lang", args.lang);
    let spec = command_spec(argv.into_vec(), OutputMode::JsonToToon);
    proof {
        broadcast use group_options, lemma_option_at_prefix;
    }
    spec
}

/// The invocation for an Assistant prompt.
pub open spec fn assistant_command(a: AssistantArgs) -> SpecCommand {
    let mode = format_mode(a.format.deep_view());
    plain_command(
        seq!["assistant"@, a.query@]
            + opt_text("--thread-id"@, a.thread_id.deep_view())
            + repeated("--attach"@, a.attach.deep_view())
            + opt_text("--assistant"@, a.assistant.deep_view())
            + opt_text("--format"@, cli_format(a.format.deep_view(), mode))
            + opt_flag("--no-color"@, a.no_color)
            + opt_text("--model"@, a.model.deep_view())
            + opt_number("--lens"@, nat_of_u64(a.lens))
            + opt_flag("--web-access"@, a.web_access)
            + opt_flag("--no-web-access"@, a.no_web_access)
            + opt_flag("--personalized"@, a.personalized)
            + opt_flag("--no-personalized"@, a.no_personalized)
            + opt_text("--export"@, a.export.deep_view()),
        mode,
    )
}

/// Builds the `kagi assistant` invocation.
pub fn assistant(args: AssistantArgs) -> (spec: CommandSpec)
    ensures
        spec@ == assistant_command(args),
{
    let output_mode = mode_of_format(&args.format);
    let mut argv = ArgList::two(lit("assistant"), args.query);
    push_opt_value(&mut argv, "--thread-id", args.thread_id);
    push_repeated_value(&mut argv, "--attach", args.attach);
    push_opt_value(&mut argv, "--assistant", args.assistant);
    push_cli_format(&mut argv, args.format, output_mode);
    push_opt_flag(&mut argv, "--no-color", args.no_color);
    push_opt_value(&mut argv, "--model", args.model);
    push_opt_u64(&mut argv, "--lens", args.lens);
    push_opt_flag(&mut argv, "--web-access", args.web_access);
    push_opt_flag(&mut argv, "--no-web-access", args.no_web_access);
    push_opt_flag(&mut argv, "--personalized", args.personalized);
    push_opt_flag(&mut argv, "--no-personalized", args.no_personalized);
    push_opt_value(&mut argv, "--export", args.export);
    command_spec(argv.into_vec(), output_mode)
}

/// The invocation for a bounded Assistant REPL session.
pub open spec fn assistant_repl_command(a: AssistantReplArgs) -> SpecCommand {
    SpecCommand {
        args: seq!["assistant"@, "repl"@]
            + opt_text("--thread-id"@, a.thread_id.deep_view())
            + opt_text("--assistant"@, a.assistant.deep_view())
            + opt_text("--model"@, a.model.deep_view())
            + opt_text("--format"@, a.format.deep_view())
            + opt_text("--export"@, a.export.deep_view())
            + opt_flag("--no-color"@, a.no_color),
        stdin: Some(repl_input(a.prompts.deep_view())),
        output_mode: OutputMode::Text,
        profile_override: None,
        stealth: false,
    }
}

/// Builds the `kagi assistant repl` invocation; the prompts, then `/exit`,
/// go through stdin.
pub fn assistant_repl(args: AssistantReplArgs) -> (spec: CommandSpec)
    ensures
        spec@ == assistant_repl_command(args),
{
    let mut argv = ArgList::two(lit("assistant"), lit("repl"));
    push_opt_value(&mut argv, "--thread-id", args.thread_id);
    push_opt_value(&mut argv, "--assistant", args.assistant);
    push_opt_value(&mut argv, "--model", args.model);
    push_opt_value(&mut argv, "--format", args.format);
    push_opt_value(&mut argv, "--export", args.export);
    push_opt_flag(&mut argv, "--no-color", args.no_color);
    let stdin = repl_stdin(&args.prompts);
    CommandSpec {
        args: argv.into_vec(),
        stdin: Some(stdin),
        output_mode: OutputMode::Text,
        profile_override: None,
        stealth: false,
    }
}

/// Builds the `kagi fastgpt` invocation.
pub fn fastgpt(args: FastGptArgs) -> (spec: CommandSpec)
    ensures
        spec@ == plain_command(
            seq!["fastgpt"@, args.query@]
                + opt_bool("--cache"@, args.cache)
                + opt_bool("--web-search"@, args.web_search)
                + opt_flag("--local-cache"@, args.local_cache)
                + opt_number("--cache-ttl"@, nat_of_u64(args.cache_ttl)),
            OutputMode::JsonToToon,
        ),
        option_at(spec@.args, 0, "fastgpt"@, args.query@),
        args.cache matches Some(b) ==> has_option(spec@.args, "--cache"@, bool_text(b)),
        args.web_search matches Some(b) ==> has_option(spec@.args, "--web-search"@, bool_text(b)),
        args.local_cache == Some(true) ==> has_switch(spec@.args, "--local-cache"@),
        args.cache_ttl matches Some(n) ==> has_option(
            spec@.args,
            "--cache-ttl"@,
            decimal(n as nat),
        ),
{
    let mut argv = ArgList::two(lit("fastgpt"), args.query);
    push_opt_bool(&mut argv, "--cache", args.cache);
    push_opt_bool(&mut argv, "--web-search", args.web_search);
    push_opt_flag(&mut argv, "--local-cache", args.local_cache);
    push_opt_u64(&mut argv, "--cache-ttl", args.cache_ttl);
    let spec = command_spec(argv.into_vec(), OutputMode::JsonToToon);
    proof {
        broadcast use group_options, lemma_option_at_prefix;
    }
    spec
}

/// Builds the `kagi enrich web` invocation.
pub fn enrich_web(args: EnrichArgs) -> (spec: CommandSpec)
    ensures
        spec@ == plain_command(seq!["enrich"@, "web"@, args.query@], OutputMode::JsonToToon),
{
    command_spec(
        ArgList::three(lit("enrich"), lit("web"), args.query).into_vec(),
        OutputMode::JsonToToon,
    )
}

/// Builds the `kagi enrich news` invocation.
pub fn enrich_news(args: EnrichArgs) -> (spec: CommandSpec)
    ensures
        spec@ == plain_command(seq!["enrich"@, "news"@, args.query@], OutputMode::JsonToToon),
{
    command_spec(
        ArgList::three(lit("enrich"), lit("news"), args.query).into_vec(),
        OutputMode::JsonToToon,
    )
}

/// Builds the `kagi smallweb` invocation.
pub fn smallweb(args: SmallWebArgs) -> (spec: CommandSpec)
    ensures
        spec@ == plain_command(
            seq!["smallweb"@] + opt_number("--limit"@, nat_of_u32(args.limit)),
            OutputMode::JsonToToon,
        ),
        args.limit matches Some(n) ==> has_option(spec@.args, "--limit"@, decimal(n as nat)),
{
    let mut argv = ArgList::one(lit("smallweb"));
    push_opt_u32(&mut argv, "--limit", args.limit);
    let spec = command_spec(argv.into_vec(), OutputMode::JsonToToon);
    proof {
        broadcast use group_options, lemma_option_at_prefix;
    }
    spec
}

/// Builds the `kagi auth status` invocation.
pub fn auth_status() -> (spec: CommandSpec)
    ensures
        spec@ == plain_command(seq!["auth"@, "status"@], OutputMode::Text),
{
    command_spec(ArgList::two(lit("auth"), lit("status")).into_vec(), OutputMode::Text)
}

/// Builds the `kagi auth check` invocation.
pub fn auth_check() -> (spec: CommandSpec)
    ensures
        spec@ == plain_command(seq!["auth"@, "check"@], OutputMode::Text),
{
    command_spec(ArgList::two(lit("auth"), lit("check")).into_vec(), OutputMode::Text)
}

/// Builds the `kagi auth set` invocation.
pub fn auth_set(args: AuthSetArgs) -> (spec: CommandSpec)
    ensures
        spec@ == plain_command(
            seq!["auth"@, "set"@]
                + opt_text("--api-token"@, args.api_token.deep_view())
                + opt_text("--session-token"@, args.session_token.deep_view()),
            OutputMode::Text,
        ),
        args.api_token matches Some(v) ==> has_option(spec@.args, "--api-token"@, v@),
        args.session_token matches Some(v) ==> has_option(spec@.args, "--session-token"@, v@),
{
    let mut argv = ArgList::two(lit("auth"), lit("set"));
    push_opt_value(&mut argv, "--api-token", args.api_token);
    push_opt_value(&mut argv, "--session-token", args.session_token);
    let spec = command_spec(argv.into_vec(), OutputMode::Text);
    proof {
        broadcast use group_options, lemma_option_at_prefix;
    }
    spec
}

/// The invocation for a translation.
pub open spec fn translate_command(a: TranslateArgs) -> SpecCommand {
    plain_command(
        seq!["translate"@, a.text@]
            + opt_text("--from"@, a.from.deep_view())
            + opt_text("--to"@, a.to.deep_view())
            + opt_text("--quality"@, a.quality.deep_view())
            + opt_text("--model"@, a.model.deep_view())
            + opt_text("--prediction"@, a.prediction.deep_view())
            + opt_text("--predicted-language"@, a.predicted_language.deep_view())
            + opt_text("--formality"@, a.formality.deep_view())
            + opt_text("--speaker-gender"@, a.speaker_gender.deep_view())
            + opt_text("--addressee-gender"@, a.addressee_gender.deep_view())
            + opt_text("--language-complexity"@, a.language_complexity.deep_view())
            + opt_text("--translation-style"@, a.translation_style.deep_view())
            + opt_text("--context"@, a.context.deep_view())
            + opt_text("--dictionary-language"@, a.dictionary_language.deep_view())
            + opt_text("--time-format"@, a.time_format.deep_view())
            + opt_bool("--use-definition-context"@, a.use_definition_context)
            + opt_bool("--enable-language-features"@, a.enable_language_features)
            + opt_bool("--preserve-formatting"@, a.preserve_formatting)
            + opt_text("--context-memory-json"@, a.context_memory_json.deep_view())
            + opt_flag("--no-alternatives"@, a.no_alternatives)
            + opt_flag("--no-word-insights"@, a.no_word_insights)
            + opt_flag("--no-suggestions"@, a.no_suggestions)
            + opt_flag("--no-alignments"@, a.no_alignments),
        OutputMode::JsonToToon,
    )
}

/// Builds the `kagi translate` invocation.
pub fn translate(args: TranslateArgs) -> (spec: CommandSpec)
    ensures
        spec@ == translate_command(args),
{
    let mut argv = ArgList::two(lit("translate"), args.text);
    push_opt_value(&mut argv, "--from", args.from);
    push_opt_value(&mut argv, "--to", args.to);
    push_opt_value(&mut argv, "--quality", args.quality);
    push_opt_value(&mut argv, "--model", args.model);
    push_opt_value(&mut argv, "--prediction", args.prediction);
    push_opt_value(&mut argv, "--predicted-language", args.predicted_language);
    push_opt_value(&mut argv, "--formality", args.formality);
    push_opt_value(&mut argv, "--speaker-gender", args.speaker_gender);
    push_opt_value(&mut argv, "--addressee-gender", args.addressee_gender);
    push_opt_value(&mut argv, "--language-complexity", args.language_complexity);
    push_opt_value(&mut argv, "--translation-style", args.translation_style);
    push_opt_value(&mut argv, "--context", args.context);
    push_opt_value(&mut argv, "--dictionary-language", args.dictionary_language);
    push_opt_value(&mut argv, "--time-format", args.time_format);
    push_opt_bool(&mut argv, "--use-definition-context", args.use_definition_context);
    push_opt_bool(&mut argv, "--enable-language-features", args.enable_language_features);
    push_opt_bool(&mut argv, "--preserve-formatting", args.preserve_formatting);
    push_opt_value(&mut argv, "--context-memory-json", args.context_memory_json);
    push_opt_flag(&mut argv, "--no-alternatives", args.no_alternatives);
    push_opt_flag(&mut argv, "--no-word-insights", args.no_word_insights);
    push_opt_flag(&mut argv, "--no-suggestions", args.no_suggestions);
    push_opt_flag(&mut argv, "--no-alignments", args.no_alignments);
    command_spec(argv.into_vec(), OutputMode::JsonToToon)
}

/// Builds the `kagi ask-page` invocation.
pub fn ask_page(args: AskPageArgs) -> (spec: CommandSpec)
    ensures
        spec@ == plain_command(
            seq!["ask-page"@, args.url@, args.question@],
            OutputMode::JsonToToon,
        ),
{
    command_spec(
        ArgList::three(lit("ask-page"), args.url, args.question).into_vec(),
        OutputMode::JsonToToon,
    )
}

/// Builds the `kagi assistant thread list` invocation.
pub fn assistant_thread_list() -> (spec: CommandSpec)
    ensures
        spec@ == plain_command(seq!["assistant"@, "thread"@, "list"@], OutputMode::JsonToToon),
{
    command_spec(
        ArgList::three(lit("assistant"), lit("thread"), lit("list")).into_vec(),
        OutputMode::JsonToToon,
    )
}

/// Builds the `kagi assistant thread get` invocation.
pub fn assistant_thread_get(args: ThreadIdArgs) -> (spec: CommandSpec)
    ensures
        spec@ == plain_command(
            seq!["assistant"@, "thread"@, "get"@, args.thread_id@],
            OutputMode::JsonToToon,
        ),
{
    command_spec(
        ArgList::four(lit("assistant"), lit("thread"), lit("get"), args.thread_id).into_vec(),
        OutputMode::JsonToToon,
    )
}

/// Output mode of a thread export: JSON re-encoded as TOON for `json`,
/// plain text otherwise.
pub open spec fn export_mode(format: Option<Seq<char>>) -> OutputMode {
    if format == Some("json"@) {
        OutputMode::JsonToToon
    } else {
        OutputMode::Text
    }
}

/// Builds the `kagi assistant thread export` invocation.
pub fn assistant_thread_export(args: ThreadExportArgs) -> (spec: CommandSpec)
    ensures
        spec@ == plain_command(
            seq!["assistant"@, "thread"@, "export"@, args.thread_id@]
                + opt_text("--format"@, args.format.deep_view()),
            export_mode(args.format.deep_view()),
        ),
{
    let is_json = match &args.format {
        Some(f) => str_eq(f.as_str(), "json"),
        None => false,
    };
    let output_mode = if is_json {
        OutputMode::JsonToToon
    } else {
        OutputMode::Text
    };
    let mut argv = ArgList::four(lit("assistant"), lit("thread"), lit("export"), args.thread_id);
    push_opt_value(&mut argv, "--format", args.format);
    command_spec(argv.into_vec(), output_mode)
}

/// Builds the `kagi assistant thread delete` invocation.
pub fn assistant_thread_delete(args: ThreadIdArgs) -> (spec: CommandSpec)
    ensures
        spec@ == plain_command(
            seq!["assistant"@, "thread"@, "delete"@, args.thread_id@],
            OutputMode::JsonToToon,
        ),
{
    command_spec(
        ArgList::four(lit("assistant"), lit("thread"), lit("delete"), args.thread_id).into_vec(),
        OutputMode::JsonToToon,
    )
}

/// Builds the `kagi history list` invocation.
pub fn history_list(args: HistoryListArgs) -> (spec: CommandSpec)
    ensures
        spec@ == plain_command(
            seq!["history"@, "list"@] + opt_number("--limit"@, nat_of_u64(args.limit)),
            OutputMode::JsonToToon,
        ),
        args.limit matches Some(n) ==> has_option(spec@.args, "--limit"@, decimal(n as nat)),
{
    let mut argv = ArgList::two(lit("history"), lit("list"));
    push_opt_u64(&mut argv, "--limit", args.limit);
    let spec = command_spec(argv.into_vec(), OutputMode::JsonToToon);
    proof {
        broadcast use group_options, lemma_option_at_prefix;
    }
    spec
}

/// Builds the `kagi history stats` invocation.
pub fn history_stats() -> (spec: CommandSpec)
    ensures
        spec@ == plain_command(seq!["history"@, "stats"@], OutputMode::JsonToToon),
{
    command_spec(ArgList::two(lit("history"), lit("stats")).into_vec(), OutputMode::JsonToToon)
}

/// Builds the `kagi site-pref list` invocation.
pub fn site_pref_list() -> (spec: CommandSpec)
    ensures
        spec@ == plain_command(seq!["site-pref"@, "list"@], OutputMode::JsonToToon),
{
    command_spec(ArgList::two(lit("site-pref"), lit("list")).into_vec(), OutputMode::JsonToToon)
}

/// Builds the `kagi site-pref set` invocation.
pub fn site_pref_set(args: SitePrefSetArgs) -> (spec: CommandSpec)
    ensures
        spec@ == plain_command(
            seq!["site-pref"@, "set"@, args.domain@, "--mode"@, args.mode@],
            OutputMode::JsonToToon,
        ),
{
    command_spec(
        ArgList::five(lit("site-pref"), lit("set"), args.domain, lit("--mode"), args.mode)
            .into_vec(),
        OutputMode::JsonToToon,
    )
}

/// Builds the `kagi site-pref remove` invocation.
pub fn site_pref_remove(args: SitePrefDomainArgs) -> (spec: CommandSpec)
    ensures
        spec@ == plain_command(seq!["site-pref"@, "remove"@, args.domain@], OutputMode::JsonToToon),
{
    command_spec(
        ArgList::three(lit("site-pref"), lit("remove"), args.domain).into_vec(),
        OutputMode::JsonToToon,
    )
}

/// Builds the `kagi watch` invocation.
pub fn watch(args: WatchArgs) -> (spec: CommandSpec)
    ensures
        spec@ == plain_command(
            seq!["watch"@, args.query@]
                + opt_number("--interval"@, nat_of_u64(args.interval))
                + opt_number("--count"@, nat_of_u32(args.count))
                + opt_text("--format"@, args.format.deep_view()),
            OutputMode::Text,
        ),
        option_at(spec@.args, 0, "watch"@, args.query@),
        args.interval matches Some(n) ==> has_option(spec@.args, "--interval"@, decimal(n as nat)),
        args.count matches Some(n) ==> has_option(spec@.args, "--count"@, decimal(n as nat)),
        args.format matches Some(v) ==> has_option(spec@.args, "--format"@, v@),
{
    let mut argv = ArgList::two(lit("watch"), args.query);
    push_opt_u64(&mut argv, "--interval", args.interval);
    push_opt_u32(&mut argv, "--count", args.count);
    push_opt_value(&mut argv, "--format", args.format);
    let spec = command_spec(argv.into_vec(), OutputMode::Text);
    proof {
        broadcast use group_options, lemma_option_at_prefix;
    }
    spec
}

/// Builds the `kagi notify` invocation.
pub fn notify(args: NotifyArgs) -> (spec: CommandSpec)
    ensures
        spec@ == plain_command(
            seq!["notify"@]
                + opt_text("--query"@, args.query.deep_view())
                + opt_text("--news-category"@, args.news_category.deep_view())
                + seq!["--webhook-url"@, args.webhook_url@]
                + opt_flag("--change-only"@, args.change_only),
            OutputMode::JsonToToon,
        ),
        args.query matches Some(v) ==> has_option(spec@.args, "--query"@, v@),
        args.news_category matches Some(v) ==> has_option(spec@.args, "--news-category"@, v@),
        has_option(spec@.args, "--webhook-url"@, args.webhook_url@),
        args.change_only == Some(true) ==> has_switch(spec@.args, "--change-only"@),
{
    let ghost pair = seq!["--webhook-url"@, args.webhook_url@];
    let mut argv = ArgList::one(lit("notify"));
    push_opt_value(&mut argv, "--query", args.query);
    push_opt_value(&mut argv, "--news-category", args.news_category);
    push_pair(&mut argv, lit("--webhook-url"), args.webhook_url);
    push_opt_flag(&mut argv, "--change-only", args.change_only);
    let spec = command_spec(argv.into_vec(), OutputMode::JsonToToon);
    proof {
        broadcast use group_options, lemma_option_at_prefix;
        assert(option_at(pair, 0, "--webhook-url"@, pair[1]));
    }
    spec
}

/// Builds the `kagi --generate-completion` invocation.
pub fn generate_completion(args: CompletionArgs) -> (spec: CommandSpec)
    ensures
        spec@ == plain_command(seq!["--generate-completion"@, args.shell@], OutputMode::Text),
{
    command_spec(ArgList::two(lit("--generate-completion"), args.shell).into_vec(), OutputMode::Text)
}

/// Builds the `kagi agent` invocation.
pub fn agent() -> (spec: CommandSpec)
    ensures
        spec@ == plain_command(seq!["agent"@], OutputMode::Text),
{
    command_spec(ArgList::one(lit("agent")).into_vec(), OutputMode::Text)
}

/// Builds the `kagi skills list` invocation.
pub fn skills_list() -> (spec: CommandSpec)
    ensures
        spec@ == plain_command(seq!["skills"@, "list"@], OutputMode::Text),
{
    command_spec(ArgList::two(lit("skills"), lit("list")).into_vec(), OutputMode::Text)
}

/// The skill a `skills get` request names: the given one, else the core `kagi` skill.
pub open spec fn skill_name(name: Option<Seq<char>>) -> Seq<char> {
    match name {
        Some(n) => n,
        None => "kagi"@,
    }
}

/// Builds the `kagi skills get` invocation.
pub fn skills_get(args: SkillGetArgs) -> (spec: CommandSpec)
    ensures
        spec@ == plain_command(
            seq!["skills"@, "get"@, skill_name(args.name.deep_view())]
                + opt_flag("--full"@, args.full),
            OutputMode::Text,
        ),
        args.name matches Some(n) ==> option_at(spec@.args, 1, "get"@, n@),
        args.name is None ==> option_at(spec@.args, 1, "get"@, "kagi"@),
        args.full == Some(true) ==> has_switch(spec@.args, "--full"@),
{
    let name = match args.name {
        Some(n) => n,
        None => lit("kagi"),
    };
    let mut argv = ArgList::three(lit("skills"), lit("get"), name);
    push_opt_flag(&mut argv, "--full", args.full);
    let spec = command_spec(argv.into_vec(), OutputMode::Text);
    proof {
        broadcast use group_options, lemma_option_at_prefix;
    }
    spec
}

/// Builds the `kagi skills path` invocation.
pub fn skills_path(args: SkillPathArgs) -> (spec: CommandSpec)
    ensures
        spec@ == plain_command(
            seq!["skills"@, "path"@] + opt_arg(args.name.deep_view()),
            OutputMode::Text,
        ),
{
    let mut argv = ArgList::two(lit("skills"), lit("path"));
    push_opt_arg(&mut argv, args.name);
    command_spec(argv.into_vec(), OutputMode::Text)
}

} // verus!
