//! Properties of the library as a whole, stated over the specifications
//! that the functions' contracts use.

use vstd::prelude::*;
use crate::account::{assistant_custom_options_args, custom_bang_options_args, lens_options_args};
use crate::args::{
    AssistantArgs, AssistantCustomOptions, AssistantReplArgs, BatchArgs, CustomBangOptions,
    LensOptions, NewsArgs, QuickArgs, SearchArgs, SummarizeArgs, TranslateArgs,
};
use crate::command::{cli_format, format_mode, OutputMode};
use crate::lines::{lines_input, repl_input};
use crate::options::{
    group_options, has_option, has_switch, lemma_option_at_prefix, lemma_repeated_has_option,
    lemma_switch_at_prefix, option_at, switch_at,
};
use crate::privacy::{privacy_no_personalized, privacy_region, PrivacyMode};
use crate::runner::{
    args_hash, chosen_profile, configured_timeout, jitter_ms, limiter_wait, profile_args,
    requested_interval, throttle_wait, u64_modulus, RateLimiter, StealthConfig, NANOS_PER_MS,
};
use crate::search::{batch_command, preset_default, quick_command, search_command};
use crate::text::{
    bool_text, decimal, digit_char, digits_value, is_digit, joined, parsed_u64, unsigned_digits,
};
use crate::tools::{
    assistant_command, assistant_repl_command, export_mode, news_command, summarize_command,
    translate_command,
};

verus! {

proof fn lemma_search_passes_valued_options(a: SearchArgs)
    ensures
        a.snap matches Some(v) ==> has_option(search_command(a).args, "--snap"@, v@),
        a.lens matches Some(v) ==> has_option(search_command(a).args, "--lens"@, v@),
        a.region matches Some(v) ==> has_option(search_command(a).args, "--region"@, v@),
        a.time matches Some(v) ==> has_option(search_command(a).args, "--time"@, v@),
        a.from_date matches Some(v) ==> has_option(search_command(a).args, "--from-date"@, v@),
        a.to_date matches Some(v) ==> has_option(search_command(a).args, "--to-date"@, v@),
        a.order matches Some(v) ==> has_option(search_command(a).args, "--order"@, v@),
        a.template matches Some(v) ==> has_option(search_command(a).args, "--template"@, v@),
        a.format matches Some(v) ==> has_option(search_command(a).args, "--format"@, v@),
{
    broadcast use group_options;
}

proof fn lemma_search_passes_numbers(a: SearchArgs)
    ensures
        a.follow matches Some(n) ==> has_option(
            search_command(a).args,
            "--follow"@,
            decimal(n as nat),
        ),
        a.limit matches Some(n) ==> has_option(
            search_command(a).args,
            "--limit"@,
            decimal(n as nat),
        ),
        a.cache_ttl matches Some(n) ==> has_option(
            search_command(a).args,
            "--cache-ttl"@,
            decimal(n as nat),
        ),
{
    broadcast use group_options;
}

proof fn lemma_search_passes_switches(a: SearchArgs)
    ensures
        a.verbatim == Some(true) ==> has_switch(search_command(a).args, "--verbatim"@),
        a.personalized == Some(true) ==> has_switch(search_command(a).args, "--personalized"@),
        a.no_personalized == Some(true) ==> has_switch(
            search_command(a).args,
            "--no-personalized"@,
        ),
        a.news == Some(true) ==> has_switch(search_command(a).args, "--news"@),
        a.local_cache == Some(true) ==> has_switch(search_command(a).args, "--local-cache"@),
        a.no_color == Some(true) ==> has_switch(search_command(a).args, "--no-color"@),
{
    broadcast use group_options;
}

proof fn lemma_search_starts_with_query(a: SearchArgs)
    ensures
        option_at(search_command(a).args, 0, "search"@, a.query@),
{
    broadcast use lemma_option_at_prefix;
    assert(option_at(seq!["search"@, a.query@], 0, "search"@, a.query@));
}

/// Everything a search request sets reaches the `kagi search` arguments:
/// the subcommand and then the query first, each valued option followed by
/// its value (numbers in decimal), an explicit region as given, and each
/// switch that is on.
pub proof fn lemma_search_passes_every_option(a: SearchArgs)
    ensures
        option_at(search_command(a).args, 0, "search"@, a.query@),
        a.snap matches Some(v) ==> has_option(search_command(a).args, "--snap"@, v@),
        a.lens matches Some(v) ==> has_option(search_command(a).args, "--lens"@, v@),
        a.region matches Some(v) ==> has_option(search_command(a).args, "--region"@, v@),
        a.time matches Some(v) ==> has_option(search_command(a).args, "--time"@, v@),
        a.from_date matches Some(v) ==> has_option(search_command(a).args, "--from-date"@, v@),
        a.to_date matches Some(v) ==> has_option(search_command(a).args, "--to-date"@, v@),
        a.order matches Some(v) ==> has_option(search_command(a).args, "--order"@, v@),
        a.template matches Some(v) ==> has_option(search_command(a).args, "--template"@, v@),
        a.format matches Some(v) ==> has_option(search_command(a).args, "--format"@, v@),
        a.follow matches Some(n) ==> has_option(
            search_command(a).args,
            "--follow"@,
            decimal(n as nat),
        ),
        a.limit matches Some(n) ==> has_option(
            search_command(a).args,
            "--limit"@,
            decimal(n as nat),
        ),
        a.cache_ttl matches Some(n) ==> has_option(
            search_command(a).args,
            "--cache-ttl"@,
            decimal(n as nat),
        ),
        a.verbatim == Some(true) ==> has_switch(search_command(a).args, "--verbatim"@),
        a.personalized == Some(true) ==> has_switch(search_command(a).args, "--personalized"@),
        a.no_personalized == Some(true) ==> has_switch(
            search_command(a).args,
            "--no-personalized"@,
        ),
        a.news == Some(true) ==> has_switch(search_command(a).args, "--news"@),
        a.local_cache == Some(true) ==> has_switch(search_command(a).args, "--local-cache"@),
        a.no_color == Some(true) ==> has_switch(search_command(a).args, "--no-color"@),
{
    lemma_search_starts_with_query(a);
    lemma_search_passes_valued_options(a);
    lemma_search_passes_numbers(a);
    lemma_search_passes_switches(a);
}

proof fn lemma_batch_passes_valued_options(a: BatchArgs)
    ensures
        a.format matches Some(v) ==> has_option(batch_command(a).args, "--format"@, v@),
        a.snap matches Some(v) ==> has_option(batch_command(a).args, "--snap"@, v@),
        a.lens matches Some(v) ==> has_option(batch_command(a).args, "--lens"@, v@),
        a.region matches Some(v) ==> has_option(batch_command(a).args, "--region"@, v@),
        a.time matches Some(v) ==> has_option(batch_command(a).args, "--time"@, v@),
        a.from_date matches Some(v) ==> has_option(batch_command(a).args, "--from-date"@, v@),
        a.to_date matches Some(v) ==> has_option(batch_command(a).args, "--to-date"@, v@),
        a.order matches Some(v) ==> has_option(batch_command(a).args, "--order"@, v@),
        a.template matches Some(v) ==> has_option(batch_command(a).args, "--template"@, v@),
{
    broadcast use group_options;
}

proof fn lemma_batch_passes_numbers(a: BatchArgs)
    ensures
        a.concurrency matches Some(n) ==> has_option(
            batch_command(a).args,
            "--concurrency"@,
            decimal(n as nat),
        ),
        a.rate_limit matches Some(n) ==> has_option(
            batch_command(a).args,
            "--rate-limit"@,
            decimal(n as nat),
        ),
        a.limit matches Some(n) ==> has_option(
            batch_command(a).args,
            "--limit"@,
            decimal(n as nat),
        ),
{
    broadcast use group_options;
}

proof fn lemma_batch_passes_switches(a: BatchArgs)
    ensures
        a.verbatim == Some(true) ==> has_switch(batch_command(a).args, "--verbatim"@),
        a.personalized == Some(true) ==> has_switch(batch_command(a).args, "--personalized"@),
        a.no_personalized == Some(true) ==> has_switch(batch_command(a).args, "--no-personalized"@),
        a.no_color == Some(true) ==> has_switch(batch_command(a).args, "--no-color"@),
{
    broadcast use group_options;
}

proof fn lemma_batch_starts_with_queries(a: BatchArgs)
    ensures
        batch_command(a).args[0] == "batch"@,
        forall|i: int| 0 <= i < a.queries.len() ==> batch_command(a).args[1 + i] == a.queries[i]@,
{
    let head = seq!["batch"@] + a.queries.deep_view();
    assert forall|i: int| 0 <= i < a.queries.len() implies batch_command(a).args[1 + i]
        == a.queries[i]@ by {
        assert(head[1 + i] == a.queries[i]@);
    }
}

/// Everything a batch request sets reaches the `kagi batch` arguments: the
/// subcommand and then the queries first, in order, each shared filter and
/// valued option followed by its value (numbers in decimal), an explicit
/// region as given, and each switch that is on.
pub proof fn lemma_batch_passes_every_option(a: BatchArgs)
    ensures
        batch_command(a).args[0] == "batch"@,
        forall|i: int| 0 <= i < a.queries.len() ==> batch_command(a).args[1 + i] == a.queries[i]@,
        a.format matches Some(v) ==> has_option(batch_command(a).args, "--format"@, v@),
        a.snap matches Some(v) ==> has_option(batch_command(a).args, "--snap"@, v@),
        a.lens matches Some(v) ==> has_option(batch_command(a).args, "--lens"@, v@),
        a.region matches Some(v) ==> has_option(batch_command(a).args, "--region"@, v@),
        a.time matches Some(v) ==> has_option(batch_command(a).args, "--time"@, v@),
        a.from_date matches Some(v) ==> has_option(batch_command(a).args, "--from-date"@, v@),
        a.to_date matches Some(v) ==> has_option(batch_command(a).args, "--to-date"@, v@),
        a.order matches Some(v) ==> has_option(batch_command(a).args, "--order"@, v@),
        a.template matches Some(v) ==> has_option(batch_command(a).args, "--template"@, v@),
        a.concurrency matches Some(n) ==> has_option(
            batch_command(a).args,
            "--concurrency"@,
            decimal(n as nat),
        ),
        a.rate_limit matches Some(n) ==> has_option(
            batch_command(a).args,
            "--rate-limit"@,
            decimal(n as nat),
        ),
        a.limit matches Some(n) ==> has_option(
            batch_command(a).args,
            "--limit"@,
            decimal(n as nat),
        ),
        a.verbatim == Some(true) ==> has_switch(batch_command(a).args, "--verbatim"@),
        a.personalized == Some(true) ==> has_switch(batch_command(a).args, "--personalized"@),
        a.no_personalized == Some(true) ==> has_switch(batch_command(a).args, "--no-personalized"@),
        a.no_color == Some(true) ==> has_switch(batch_command(a).args, "--no-color"@),
{
    lemma_batch_starts_with_queries(a);
    lemma_batch_passes_valued_options(a);
    lemma_batch_passes_numbers(a);
    lemma_batch_passes_switches(a);
}

proof fn lemma_summarize_passes_valued_options(a: SummarizeArgs)
    ensures
        a.url matches Some(v) ==> has_option(summarize_command(a).args, "--url"@, v@),
        a.text matches Some(v) ==> has_option(summarize_command(a).args, "--text"@, v@),
        a.length matches Some(v) ==> has_option(summarize_command(a).args, "--length"@, v@),
        a.engine matches Some(v) ==> has_option(summarize_command(a).args, "--engine"@, v@),
        a.summary_type matches Some(v) ==> has_option(
            summarize_command(a).args,
            "--summary-type"@,
            v@,
        ),
        a.target_language matches Some(v) ==> has_option(
            summarize_command(a).args,
            "--target-language"@,
            v@,
        ),
{
    broadcast use group_options;
}

proof fn lemma_summarize_passes_other_options(a: SummarizeArgs)
    ensures
        a.cache matches Some(b) ==> has_option(summarize_command(a).args, "--cache"@, bool_text(b)),
        a.cache_ttl matches Some(n) ==> has_option(
            summarize_command(a).args,
            "--cache-ttl"@,
            decimal(n as nat),
        ),
{
    broadcast use group_options;
}

proof fn lemma_summarize_passes_switches(a: SummarizeArgs)
    ensures
        a.subscriber == Some(true) ==> has_switch(summarize_command(a).args, "--subscriber"@),
        a.local_cache == Some(true) ==> has_switch(summarize_command(a).args, "--local-cache"@),
        a.filter_items.len() > 0 ==> has_switch(summarize_command(a).args, "--filter"@),
{
    broadcast use group_options;
}

proof fn lemma_summarize_starts_with_subcommand(a: SummarizeArgs)
    ensures
        summarize_command(a).args[0] == "summarize"@,
{
    broadcast use lemma_switch_at_prefix;
    assert(switch_at(seq!["summarize"@], 0, "summarize"@));
    assert(switch_at(summarize_command(a).args, 0, "summarize"@));
}

/// Everything a summary request sets reaches the `kagi summarize`
/// arguments: the URL or text to summarize and each other valued option
/// followed by its value, and each switch that is on; filter items turn on
/// `--filter`.
pub proof fn lemma_summarize_passes_every_option(a: SummarizeArgs)
    ensures
        summarize_command(a).args[0] == "summarize"@,
        a.url matches Some(v) ==> has_option(summarize_command(a).args, "--url"@, v@),
        a.text matches Some(v) ==> has_option(summarize_command(a).args, "--text"@, v@),
        a.length matches Some(v) ==> has_option(summarize_command(a).args, "--length"@, v@),
        a.engine matches Some(v) ==> has_option(summarize_command(a).args, "--engine"@, v@),
        a.summary_type matches Some(v) ==> has_option(
            summarize_command(a).args,
            "--summary-type"@,
            v@,
        ),
        a.target_language matches Some(v) ==> has_option(
            summarize_command(a).args,
            "--target-language"@,
            v@,
        ),
        a.cache matches Some(b) ==> has_option(summarize_command(a).args, "--cache"@, bool_text(b)),
        a.cache_ttl matches Some(n) ==> has_option(
            summarize_command(a).args,
            "--cache-ttl"@,
            decimal(n as nat),
        ),
        a.subscriber == Some(true) ==> has_switch(summarize_command(a).args, "--subscriber"@),
        a.local_cache == Some(true) ==> has_switch(summarize_command(a).args, "--local-cache"@),
        a.filter_items.len() > 0 ==> has_switch(summarize_command(a).args, "--filter"@),
{
    lemma_summarize_starts_with_subcommand(a);
    lemma_summarize_passes_valued_options(a);
    lemma_summarize_passes_other_options(a);
    lemma_summarize_passes_switches(a);
}

proof fn lemma_assistant_passes_valued_options(a: AssistantArgs)
    ensures
        a.thread_id matches Some(v) ==> has_option(assistant_command(a).args, "--thread-id"@, v@),
        a.assistant matches Some(v) ==> has_option(assistant_command(a).args, "--assistant"@, v@),
        a.format matches Some(v) ==> has_option(assistant_command(a).args, "--format"@, v@),
        a.model matches Some(v) ==> has_option(assistant_command(a).args, "--model"@, v@),
        a.export matches Some(v) ==> has_option(assistant_command(a).args, "--export"@, v@),
        a.lens matches Some(n) ==> has_option(
            assistant_command(a).args,
            "--lens"@,
            decimal(n as nat),
        ),
{
    broadcast use group_options;
}

proof fn lemma_assistant_passes_attachments(a: AssistantArgs)
    ensures
        forall|k: int| 0 <= k < a.attach.len() ==> has_option(
            assistant_command(a).args,
            "--attach"@,
            #[trigger] a.attach[k]@,
        ),
{
    assert forall|k: int| 0 <= k < a.attach.len() implies has_option(
        assistant_command(a).args,
        "--attach"@,
        #[trigger] a.attach[k]@,
    ) by {
        broadcast use group_options;
        lemma_repeated_has_option("--attach"@, a.attach.deep_view(), k);
    }
}

proof fn lemma_assistant_passes_switches(a: AssistantArgs)
    ensures
        a.no_color == Some(true) ==> has_switch(assistant_command(a).args, "--no-color"@),
        a.web_access == Some(true) ==> has_switch(assistant_command(a).args, "--web-access"@),
        a.no_web_access == Some(true) ==> has_switch(assistant_command(a).args, "--no-web-access"@),
        a.personalized == Some(true) ==> has_switch(assistant_command(a).args, "--personalized"@),
        a.no_personalized == Some(true) ==> has_switch(
            assistant_command(a).args,
            "--no-personalized"@,
        ),
{
    broadcast use group_options;
}

proof fn lemma_assistant_starts_with_query(a: AssistantArgs)
    ensures
        option_at(assistant_command(a).args, 0, "assistant"@, a.query@),
{
    broadcast use lemma_option_at_prefix;
    assert(option_at(seq!["assistant"@, a.query@], 0, "assistant"@, a.query@));
}

/// Everything an Assistant request sets reaches the `kagi assistant`
/// arguments: the subcommand and then the prompt first, the thread it
/// continues and each other valued option followed by its value, every
/// attachment after its own `--attach`, and each switch that is on.
pub proof fn lemma_assistant_passes_every_option(a: AssistantArgs)
    ensures
        option_at(assistant_command(a).args, 0, "assistant"@, a.query@),
        a.thread_id matches Some(v) ==> has_option(assistant_command(a).args, "--thread-id"@, v@),
        a.assistant matches Some(v) ==> has_option(assistant_command(a).args, "--assistant"@, v@),
        a.format matches Some(v) ==> has_option(assistant_command(a).args, "--format"@, v@),
        a.model matches Some(v) ==> has_option(assistant_command(a).args, "--model"@, v@),
        a.export matches Some(v) ==> has_option(assistant_command(a).args, "--export"@, v@),
        a.lens matches Some(n) ==> has_option(
            assistant_command(a).args,
            "--lens"@,
            decimal(n as nat),
        ),
        forall|k: int| 0 <= k < a.attach.len() ==> has_option(
            assistant_command(a).args,
            "--attach"@,
            #[trigger] a.attach[k]@,
        ),
        a.no_color == Some(true) ==> has_switch(assistant_command(a).args, "--no-color"@),
        a.web_access == Some(true) ==> has_switch(assistant_command(a).args, "--web-access"@),
        a.no_web_access == Some(true) ==> has_switch(assistant_command(a).args, "--no-web-access"@),
        a.personalized == Some(true) ==> has_switch(assistant_command(a).args, "--personalized"@),
        a.no_personalized == Some(true) ==> has_switch(
            assistant_command(a).args,
            "--no-personalized"@,
        ),
{
    lemma_assistant_starts_with_query(a);
    lemma_assistant_passes_valued_options(a);
    lemma_assistant_passes_attachments(a);
    lemma_assistant_passes_switches(a);
}

/// A thread export is read as JSON (re-encoded as TOON) exactly when the
/// requested format is `json`; any other format, and none, is read as text.
pub proof fn lemma_thread_export_reads_json_only_for_json(format: Option<Seq<char>>)
    ensures
        export_mode(format) == OutputMode::JsonToToon <==> format == Some("json"@),
        format != Some("json"@) ==> export_mode(format) == OutputMode::Text,
{
}

proof fn lemma_translate_passes_valued_0(a: TranslateArgs)
    ensures
        a.from matches Some(v) ==> has_option(translate_command(a).args, "--from"@, v@),
        a.to matches Some(v) ==> has_option(translate_command(a).args, "--to"@, v@),
        a.quality matches Some(v) ==> has_option(translate_command(a).args, "--quality"@, v@),
        a.model matches Some(v) ==> has_option(translate_command(a).args, "--model"@, v@),
        a.prediction matches Some(v) ==> has_option(translate_command(a).args, "--prediction"@, v@),
        a.predicted_language matches Some(v) ==> has_option(
            translate_command(a).args,
            "--predicted-language"@,
            v@,
        ),
        a.formality matches Some(v) ==> has_option(translate_command(a).args, "--formality"@, v@),
        a.speaker_gender matches Some(v) ==> has_option(
            translate_command(a).args,
            "--speaker-gender"@,
            v@,
        ),
{
    broadcast use group_options;
}

proof fn lemma_translate_passes_valued_1(a: TranslateArgs)
    ensures
        a.addressee_gender matches Some(v) ==> has_option(
            translate_command(a).args,
            "--addressee-gender"@,
            v@,
        ),
        a.language_complexity matches Some(v) ==> has_option(
            translate_command(a).args,
            "--language-complexity"@,
            v@,
        ),
        a.translation_style matches Some(v) ==> has_option(
            translate_command(a).args,
            "--translation-style"@,
            v@,
        ),
        a.context matches Some(v) ==> has_option(translate_command(a).args, "--context"@, v@),
        a.dictionary_language matches Some(v) ==> has_option(
            translate_command(a).args,
            "--dictionary-language"@,
            v@,
        ),
        a.time_format matches Some(v) ==> has_option(
            translate_command(a).args,
            "--time-format"@,
            v@,
        ),
        a.use_definition_context matches Some(b) ==> has_option(
            translate_command(a).args,
            "--use-definition-context"@,
            bool_text(b),
        ),
        a.enable_language_features matches Some(b) ==> has_option(
            translate_command(a).args,
            "--enable-language-features"@,
            bool_text(b),
        ),
{
    broadcast use group_options;
}

proof fn lemma_translate_passes_valued_2(a: TranslateArgs)
    ensures
        a.preserve_formatting matches Some(b) ==> has_option(
            translate_command(a).args,
            "--preserve-formatting"@,
            bool_text(b),
        ),
        a.context_memory_json matches Some(v) ==> has_option(
            translate_command(a).args,
            "--context-memory-json"@,
            v@,
        ),
{
    broadcast use group_options;
}

proof fn lemma_translate_passes_switch(a: TranslateArgs)
    ensures
        a.no_alternatives == Some(true) ==> has_switch(
            translate_command(a).args,
            "--no-alternatives"@,
        ),
        a.no_word_insights == Some(true) ==> has_switch(
            translate_command(a).args,
            "--no-word-insights"@,
        ),
        a.no_suggestions == Some(true) ==> has_switch(
            translate_command(a).args,
            "--no-suggestions"@,
        ),
        a.no_alignments == Some(true) ==> has_switch(translate_command(a).args, "--no-alignments"@),
{
    broadcast use group_options;
}

proof fn lemma_translate_starts_with_text(a: TranslateArgs)
    ensures
        option_at(translate_command(a).args, 0, "translate"@, a.text@),
{
    broadcast use lemma_option_at_prefix;
    assert(option_at(seq!["translate"@, a.text@], 0, "translate"@, a.text@));
}

/// Everything a translation request sets reaches the `kagi translate`
/// arguments: the subcommand and then the text first, each valued option
/// followed by its value (`true`/`false` for the explicit booleans), and
/// each switch that is on.
pub proof fn lemma_translate_passes_every_option(a: TranslateArgs)
    ensures
        option_at(translate_command(a).args, 0, "translate"@, a.text@),
        a.from matches Some(v) ==> has_option(translate_command(a).args, "--from"@, v@),
        a.to matches Some(v) ==> has_option(translate_command(a).args, "--to"@, v@),
        a.quality matches Some(v) ==> has_option(translate_command(a).args, "--quality"@, v@),
        a.model matches Some(v) ==> has_option(translate_command(a).args, "--model"@, v@),
        a.prediction matches Some(v) ==> has_option(translate_command(a).args, "--prediction"@, v@),
        a.predicted_language matches Some(v) ==> has_option(
            translate_command(a).args,
            "--predicted-language"@,
            v@,
        ),
        a.formality matches Some(v) ==> has_option(translate_command(a).args, "--formality"@, v@),
        a.speaker_gender matches Some(v) ==> has_option(
            translate_command(a).args,
            "--speaker-gender"@,
            v@,
        ),
        a.addressee_gender matches Some(v) ==> has_option(
            translate_command(a).args,
            "--addressee-gender"@,
            v@,
        ),
        a.language_complexity matches Some(v) ==> has_option(
            translate_command(a).args,
            "--language-complexity"@,
            v@,
        ),
        a.translation_style matches Some(v) ==> has_option(
            translate_command(a).args,
            "--translation-style"@,
            v@,
        ),
        a.context matches Some(v) ==> has_option(translate_command(a).args, "--context"@, v@),
        a.dictionary_language matches Some(v) ==> has_option(
            translate_command(a).args,
            "--dictionary-language"@,
            v@,
        ),
        a.time_format matches Some(v) ==> has_option(
            translate_command(a).args,
            "--time-format"@,
            v@,
        ),
        a.use_definition_context matches Some(b) ==> has_option(
            translate_command(a).args,
            "--use-definition-context"@,
            bool_text(b),
        ),
        a.enable_language_features matches Some(b) ==> has_option(
            translate_command(a).args,
            "--enable-language-features"@,
            bool_text(b),
        ),
        a.preserve_formatting matches Some(b) ==> has_option(
            translate_command(a).args,
            "--preserve-formatting"@,
            bool_text(b),
        ),
        a.context_memory_json matches Some(v) ==> has_option(
            translate_command(a).args,
            "--context-memory-json"@,
            v@,
        ),
        a.no_alternatives == Some(true) ==> has_switch(
            translate_command(a).args,
            "--no-alternatives"@,
        ),
        a.no_word_insights == Some(true) ==> has_switch(
            translate_command(a).args,
            "--no-word-insights"@,
        ),
        a.no_suggestions == Some(true) ==> has_switch(
            translate_command(a).args,
            "--no-suggestions"@,
        ),
        a.no_alignments == Some(true) ==> has_switch(translate_command(a).args, "--no-alignments"@),
{
    lemma_translate_starts_with_text(a);
    lemma_translate_passes_valued_0(a);
    lemma_translate_passes_valued_1(a);
    lemma_translate_passes_valued_2(a);
    lemma_translate_passes_switch(a);
}

proof fn lemma_assistant_repl_passes_valued(a: AssistantReplArgs)
    ensures
        a.thread_id matches Some(v) ==> has_option(
            assistant_repl_command(a).args,
            "--thread-id"@,
            v@,
        ),
        a.assistant matches Some(v) ==> has_option(
            assistant_repl_command(a).args,
            "--assistant"@,
            v@,
        ),
        a.model matches Some(v) ==> has_option(assistant_repl_command(a).args, "--model"@, v@),
        a.format matches Some(v) ==> has_option(assistant_repl_command(a).args, "--format"@, v@),
        a.export matches Some(v) ==> has_option(assistant_repl_command(a).args, "--export"@, v@),
{
    broadcast use group_options;
}

proof fn lemma_assistant_repl_passes_switch(a: AssistantReplArgs)
    ensures
        a.no_color == Some(true) ==> has_switch(assistant_repl_command(a).args, "--no-color"@),
{
    broadcast use group_options;
}

/// Everything an Assistant REPL request sets reaches the `kagi assistant
/// repl` arguments: the thread it continues and each other valued option
/// followed by its value, and `--no-color` when it is on.
pub proof fn lemma_assistant_repl_passes_every_option(a: AssistantReplArgs)
    ensures
        a.thread_id matches Some(v) ==> has_option(
            assistant_repl_command(a).args,
            "--thread-id"@,
            v@,
        ),
        a.assistant matches Some(v) ==> has_option(
            assistant_repl_command(a).args,
            "--assistant"@,
            v@,
        ),
        a.model matches Some(v) ==> has_option(assistant_repl_command(a).args, "--model"@, v@),
        a.format matches Some(v) ==> has_option(assistant_repl_command(a).args, "--format"@, v@),
        a.export matches Some(v) ==> has_option(assistant_repl_command(a).args, "--export"@, v@),
        a.no_color == Some(true) ==> has_switch(assistant_repl_command(a).args, "--no-color"@),
{
    lemma_assistant_repl_passes_valued(a);
    lemma_assistant_repl_passes_switch(a);
}

proof fn lemma_quick_passes_valued(a: QuickArgs)
    ensures
        a.format matches Some(v) ==> has_option(quick_command(a).args, "--format"@, v@),
        a.lens matches Some(v) ==> has_option(quick_command(a).args, "--lens"@, v@),
        a.cache_ttl matches Some(n) ==> has_option(
            quick_command(a).args,
            "--cache-ttl"@,
            decimal(n as nat),
        ),
{
    broadcast use group_options;
}

proof fn lemma_quick_passes_switch(a: QuickArgs)
    ensures
        a.no_color == Some(true) ==> has_switch(quick_command(a).args, "--no-color"@),
        a.local_cache == Some(true) ==> has_switch(quick_command(a).args, "--local-cache"@),
{
    broadcast use group_options;
}

proof fn lemma_quick_starts_with_query(a: QuickArgs)
    ensures
        option_at(quick_command(a).args, 0, "quick"@, a.query@),
{
    broadcast use lemma_option_at_prefix;
    assert(option_at(seq!["quick"@, a.query@], 0, "quick"@, a.query@));
}

/// Everything a quick-answer request sets reaches the `kagi quick`
/// arguments: the subcommand and then the query first, each valued option
/// followed by its value, and each switch that is on.
pub proof fn lemma_quick_passes_every_option(a: QuickArgs)
    ensures
        option_at(quick_command(a).args, 0, "quick"@, a.query@),
        a.format matches Some(v) ==> has_option(quick_command(a).args, "--format"@, v@),
        a.lens matches Some(v) ==> has_option(quick_command(a).args, "--lens"@, v@),
        a.cache_ttl matches Some(n) ==> has_option(
            quick_command(a).args,
            "--cache-ttl"@,
            decimal(n as nat),
        ),
        a.no_color == Some(true) ==> has_switch(quick_command(a).args, "--no-color"@),
        a.local_cache == Some(true) ==> has_switch(quick_command(a).args, "--local-cache"@),
{
    lemma_quick_starts_with_query(a);
    lemma_quick_passes_valued(a);
    lemma_quick_passes_switch(a);
}

proof fn lemma_news_passes_valued(a: NewsArgs)
    ensures
        a.category matches Some(v) ==> has_option(news_command(a).args, "--category"@, v@),
        a.limit matches Some(n) ==> has_option(news_command(a).args, "--limit"@, decimal(n as nat)),
        a.lang matches Some(v) ==> has_option(news_command(a).args, "--lang"@, v@),
        a.filter_mode matches Some(v) ==> has_option(news_command(a).args, "--filter-mode"@, v@),
        a.filter_scope matches Some(v) ==> has_option(news_command(a).args, "--filter-scope"@, v@),
{
    broadcast use group_options;
}

proof fn lemma_news_passes_switch(a: NewsArgs)
    ensures
        a.list_filter_presets == Some(true) ==> has_switch(
            news_command(a).args,
            "--list-filter-presets"@,
        ),
{
    broadcast use group_options;
}

proof fn lemma_news_passes_every_filter_preset(a: NewsArgs)
    ensures
        forall|k: int| 0 <= k < a.filter_preset.len() ==> has_option(
            news_command(a).args,
            "--filter-preset"@,
            #[trigger] a.filter_preset[k]@,
        ),
{
    assert forall|k: int| 0 <= k < a.filter_preset.len() implies has_option(
        news_command(a).args,
        "--filter-preset"@,
        #[trigger] a.filter_preset[k]@,
    ) by {
        broadcast use group_options;
        lemma_repeated_has_option("--filter-preset"@, a.filter_preset.deep_view(), k);
    }
}

proof fn lemma_news_passes_every_filter_keyword(a: NewsArgs)
    ensures
        forall|k: int| 0 <= k < a.filter_keyword.len() ==> has_option(
            news_command(a).args,
            "--filter-keyword"@,
            #[trigger] a.filter_keyword[k]@,
        ),
{
    assert forall|k: int| 0 <= k < a.filter_keyword.len() implies has_option(
        news_command(a).args,
        "--filter-keyword"@,
        #[trigger] a.filter_keyword[k]@,
    ) by {
        broadcast use group_options;
        lemma_repeated_has_option("--filter-keyword"@, a.filter_keyword.deep_view(), k);
    }
}

/// Everything a news request sets reaches the `kagi news` arguments: each
/// valued option followed by its value, every filter preset and keyword
/// after its own flag, and `--list-filter-presets` when it is on.
pub proof fn lemma_news_passes_every_option(a: NewsArgs)
    ensures
        a.category matches Some(v) ==> has_option(news_command(a).args, "--category"@, v@),
        a.limit matches Some(n) ==> has_option(news_command(a).args, "--limit"@, decimal(n as nat)),
        a.lang matches Some(v) ==> has_option(news_command(a).args, "--lang"@, v@),
        a.filter_mode matches Some(v) ==> has_option(news_command(a).args, "--filter-mode"@, v@),
        a.filter_scope matches Some(v) ==> has_option(news_command(a).args, "--filter-scope"@, v@),
        a.list_filter_presets == Some(true) ==> has_switch(
            news_command(a).args,
            "--list-filter-presets"@,
        ),
        forall|k: int| 0 <= k < a.filter_preset.len() ==> has_option(
            news_command(a).args,
            "--filter-preset"@,
            #[trigger] a.filter_preset[k]@,
        ),
        forall|k: int| 0 <= k < a.filter_keyword.len() ==> has_option(
            news_command(a).args,
            "--filter-keyword"@,
            #[trigger] a.filter_keyword[k]@,
        ),
{
    lemma_news_passes_valued(a);
    lemma_news_passes_switch(a);
    lemma_news_passes_every_filter_preset(a);
    lemma_news_passes_every_filter_keyword(a);
}

proof fn lemma_lens_options_passes_valued_0(a: LensOptions)
    ensures
        a.included_sites matches Some(v) ==> has_option(
            lens_options_args(a),
            "--included-sites"@,
            v@,
        ),
        a.included_keywords matches Some(v) ==> has_option(
            lens_options_args(a),
            "--included-keywords"@,
            v@,
        ),
        a.description matches Some(v) ==> has_option(lens_options_args(a), "--description"@, v@),
        a.region matches Some(v) ==> has_option(lens_options_args(a), "--region"@, v@),
        a.before_date matches Some(v) ==> has_option(lens_options_args(a), "--before-date"@, v@),
        a.after_date matches Some(v) ==> has_option(lens_options_args(a), "--after-date"@, v@),
        a.excluded_sites matches Some(v) ==> has_option(
            lens_options_args(a),
            "--excluded-sites"@,
            v@,
        ),
        a.excluded_keywords matches Some(v) ==> has_option(
            lens_options_args(a),
            "--excluded-keywords"@,
            v@,
        ),
{
    broadcast use group_options;
}

proof fn lemma_lens_options_passes_valued_1(a: LensOptions)
    ensures
        a.shortcut matches Some(v) ==> has_option(lens_options_args(a), "--shortcut"@, v@),
        a.template matches Some(v) ==> has_option(lens_options_args(a), "--template"@, v@),
        a.file_type matches Some(v) ==> has_option(lens_options_args(a), "--file-type"@, v@),
{
    broadcast use group_options;
}

proof fn lemma_lens_options_passes_switch(a: LensOptions)
    ensures
        a.autocomplete_keywords == Some(true) ==> has_switch(
            lens_options_args(a),
            "--autocomplete-keywords"@,
        ),
        a.no_autocomplete_keywords == Some(true) ==> has_switch(
            lens_options_args(a),
            "--no-autocomplete-keywords"@,
        ),
        a.share_with_team == Some(true) ==> has_switch(lens_options_args(a), "--share-with-team"@),
        a.no_share_with_team == Some(true) ==> has_switch(
            lens_options_args(a),
            "--no-share-with-team"@,
        ),
        a.share_copy_code == Some(true) ==> has_switch(lens_options_args(a), "--share-copy-code"@),
        a.no_share_copy_code == Some(true) ==> has_switch(
            lens_options_args(a),
            "--no-share-copy-code"@,
        ),
{
    broadcast use group_options;
}

/// Every lens option that is set reaches the arguments: each valued option
/// followed by its value, and each switch that is on.
pub proof fn lemma_lens_options_passes_every_option(a: LensOptions)
    ensures
        a.included_sites matches Some(v) ==> has_option(
            lens_options_args(a),
            "--included-sites"@,
            v@,
        ),
        a.included_keywords matches Some(v) ==> has_option(
            lens_options_args(a),
            "--included-keywords"@,
            v@,
        ),
        a.description matches Some(v) ==> has_option(lens_options_args(a), "--description"@, v@),
        a.region matches Some(v) ==> has_option(lens_options_args(a), "--region"@, v@),
        a.before_date matches Some(v) ==> has_option(lens_options_args(a), "--before-date"@, v@),
        a.after_date matches Some(v) ==> has_option(lens_options_args(a), "--after-date"@, v@),
        a.excluded_sites matches Some(v) ==> has_option(
            lens_options_args(a),
            "--excluded-sites"@,
            v@,
        ),
        a.excluded_keywords matches Some(v) ==> has_option(
            lens_options_args(a),
            "--excluded-keywords"@,
            v@,
        ),
        a.shortcut matches Some(v) ==> has_option(lens_options_args(a), "--shortcut"@, v@),
        a.template matches Some(v) ==> has_option(lens_options_args(a), "--template"@, v@),
        a.file_type matches Some(v) ==> has_option(lens_options_args(a), "--file-type"@, v@),
        a.autocomplete_keywords == Some(true) ==> has_switch(
            lens_options_args(a),
            "--autocomplete-keywords"@,
        ),
        a.no_autocomplete_keywords == Some(true) ==> has_switch(
            lens_options_args(a),
            "--no-autocomplete-keywords"@,
        ),
        a.share_with_team == Some(true) ==> has_switch(lens_options_args(a), "--share-with-team"@),
        a.no_share_with_team == Some(true) ==> has_switch(
            lens_options_args(a),
            "--no-share-with-team"@,
        ),
        a.share_copy_code == Some(true) ==> has_switch(lens_options_args(a), "--share-copy-code"@),
        a.no_share_copy_code == Some(true) ==> has_switch(
            lens_options_args(a),
            "--no-share-copy-code"@,
        ),
{
    lemma_lens_options_passes_valued_0(a);
    lemma_lens_options_passes_valued_1(a);
    lemma_lens_options_passes_switch(a);
}

proof fn lemma_assistant_custom_options_passes_valued(a: AssistantCustomOptions)
    ensures
        a.bang_trigger matches Some(v) ==> has_option(
            assistant_custom_options_args(a),
            "--bang-trigger"@,
            v@,
        ),
        a.lens matches Some(v) ==> has_option(assistant_custom_options_args(a), "--lens"@, v@),
        a.model matches Some(v) ==> has_option(assistant_custom_options_args(a), "--model"@, v@),
        a.instructions matches Some(v) ==> has_option(
            assistant_custom_options_args(a),
            "--instructions"@,
            v@,
        ),
{
    broadcast use group_options;
}

proof fn lemma_assistant_custom_options_passes_switch(a: AssistantCustomOptions)
    ensures
        a.web_access == Some(true) ==> has_switch(
            assistant_custom_options_args(a),
            "--web-access"@,
        ),
        a.no_web_access == Some(true) ==> has_switch(
            assistant_custom_options_args(a),
            "--no-web-access"@,
        ),
        a.personalized == Some(true) ==> has_switch(
            assistant_custom_options_args(a),
            "--personalized"@,
        ),
        a.no_personalized == Some(true) ==> has_switch(
            assistant_custom_options_args(a),
            "--no-personalized"@,
        ),
{
    broadcast use group_options;
}

/// Every custom-assistant option that is set reaches the arguments: each
/// valued option followed by its value, and each switch that is on.
pub proof fn lemma_assistant_custom_options_passes_every_option(a: AssistantCustomOptions)
    ensures
        a.bang_trigger matches Some(v) ==> has_option(
            assistant_custom_options_args(a),
            "--bang-trigger"@,
            v@,
        ),
        a.lens matches Some(v) ==> has_option(assistant_custom_options_args(a), "--lens"@, v@),
        a.model matches Some(v) ==> has_option(assistant_custom_options_args(a), "--model"@, v@),
        a.instructions matches Some(v) ==> has_option(
            assistant_custom_options_args(a),
            "--instructions"@,
            v@,
        ),
        a.web_access == Some(true) ==> has_switch(
            assistant_custom_options_args(a),
            "--web-access"@,
        ),
        a.no_web_access == Some(true) ==> has_switch(
            assistant_custom_options_args(a),
            "--no-web-access"@,
        ),
        a.personalized == Some(true) ==> has_switch(
            assistant_custom_options_args(a),
            "--personalized"@,
        ),
        a.no_personalized == Some(true) ==> has_switch(
            assistant_custom_options_args(a),
            "--no-personalized"@,
        ),
{
    lemma_assistant_custom_options_passes_valued(a);
    lemma_assistant_custom_options_passes_switch(a);
}

proof fn lemma_custom_bang_options_passes_valued(a: CustomBangOptions)
    ensures
        a.template matches Some(v) ==> has_option(custom_bang_options_args(a), "--template"@, v@),
        a.snap_domain matches Some(v) ==> has_option(
            custom_bang_options_args(a),
            "--snap-domain"@,
            v@,
        ),
        a.regex_pattern matches Some(v) ==> has_option(
            custom_bang_options_args(a),
            "--regex-pattern"@,
            v@,
        ),
{
    broadcast use group_options;
}

proof fn lemma_custom_bang_options_passes_switch_0(a: CustomBangOptions)
    ensures
        a.shortcut_menu == Some(true) ==> has_switch(
            custom_bang_options_args(a),
            "--shortcut-menu"@,
        ),
        a.no_shortcut_menu == Some(true) ==> has_switch(
            custom_bang_options_args(a),
            "--no-shortcut-menu"@,
        ),
        a.open_snap_domain == Some(true) ==> has_switch(
            custom_bang_options_args(a),
            "--open-snap-domain"@,
        ),
        a.no_open_snap_domain == Some(true) ==> has_switch(
            custom_bang_options_args(a),
            "--no-open-snap-domain"@,
        ),
        a.open_base_path == Some(true) ==> has_switch(
            custom_bang_options_args(a),
            "--open-base-path"@,
        ),
        a.no_open_base_path == Some(true) ==> has_switch(
            custom_bang_options_args(a),
            "--no-open-base-path"@,
        ),
        a.encode_placeholder == Some(true) ==> has_switch(
            custom_bang_options_args(a),
            "--encode-placeholder"@,
        ),
        a.no_encode_placeholder == Some(true) ==> has_switch(
            custom_bang_options_args(a),
            "--no-encode-placeholder"@,
        ),
{
    broadcast use group_options;
}

proof fn lemma_custom_bang_options_passes_switch_1(a: CustomBangOptions)
    ensures
        a.plus_for_space == Some(true) ==> has_switch(
            custom_bang_options_args(a),
            "--plus-for-space"@,
        ),
        a.no_plus_for_space == Some(true) ==> has_switch(
            custom_bang_options_args(a),
            "--no-plus-for-space"@,
        ),
{
    broadcast use group_options;
}

/// Every custom-bang option that is set reaches the arguments: each valued
/// option followed by its value, and each switch that is on.
pub proof fn lemma_custom_bang_options_passes_every_option(a: CustomBangOptions)
    ensures
        a.template matches Some(v) ==> has_option(custom_bang_options_args(a), "--template"@, v@),
        a.snap_domain matches Some(v) ==> has_option(
            custom_bang_options_args(a),
            "--snap-domain"@,
            v@,
        ),
        a.regex_pattern matches Some(v) ==> has_option(
            custom_bang_options_args(a),
            "--regex-pattern"@,
            v@,
        ),
        a.shortcut_menu == Some(true) ==> has_switch(
            custom_bang_options_args(a),
            "--shortcut-menu"@,
        ),
        a.no_shortcut_menu == Some(true) ==> has_switch(
            custom_bang_options_args(a),
            "--no-shortcut-menu"@,
        ),
        a.open_snap_domain == Some(true) ==> has_switch(
            custom_bang_options_args(a),
            "--open-snap-domain"@,
        ),
        a.no_open_snap_domain == Some(true) ==> has_switch(
            custom_bang_options_args(a),
            "--no-open-snap-domain"@,
        ),
        a.open_base_path == Some(true) ==> has_switch(
            custom_bang_options_args(a),
            "--open-base-path"@,
        ),
        a.no_open_base_path == Some(true) ==> has_switch(
            custom_bang_options_args(a),
            "--no-open-base-path"@,
        ),
        a.encode_placeholder == Some(true) ==> has_switch(
            custom_bang_options_args(a),
            "--encode-placeholder"@,
        ),
        a.no_encode_placeholder == Some(true) ==> has_switch(
            custom_bang_options_args(a),
            "--no-encode-placeholder"@,
        ),
        a.plus_for_space == Some(true) ==> has_switch(
            custom_bang_options_args(a),
            "--plus-for-space"@,
        ),
        a.no_plus_for_space == Some(true) ==> has_switch(
            custom_bang_options_args(a),
            "--no-plus-for-space"@,
        ),
{
    lemma_custom_bang_options_passes_valued(a);
    lemma_custom_bang_options_passes_switch_0(a);
    lemma_custom_bang_options_passes_switch_1(a);
}

/// With no format requested, output is read as TOON and the CLI is asked
/// for `--format toon`.
pub proof fn lemma_default_format_is_toon()
    ensures
        format_mode(None) == OutputMode::Toon,
        cli_format(None, format_mode(None)) == Some("toon"@),
{
}

/// Asking for `json` (or `compact`) gives structured JSON output; the
/// human-oriented formats give plain text.
pub proof fn lemma_json_format_is_structured()
    ensures
        format_mode(Some("json"@)) == OutputMode::Json,
        format_mode(Some("compact"@)) == OutputMode::Json,
        format_mode(Some("pretty"@)) == OutputMode::Text,
        format_mode(Some("markdown"@)) == OutputMode::Text,
        format_mode(Some("csv"@)) == OutputMode::Text,
{
    reveal_strlit("toon");
    reveal_strlit("json");
    reveal_strlit("compact");
    reveal_strlit("pretty");
    reveal_strlit("markdown");
    reveal_strlit("csv");
    assert("json"@[0] != "toon"@[0]);
    assert("compact"@.len() != "toon"@.len() && "compact"@.len() != "json"@.len());
    assert("pretty"@.len() != "toon"@.len() && "pretty"@.len() != "json"@.len()
        && "pretty"@.len() != "compact"@.len());
    assert("markdown"@.len() != "toon"@.len() && "markdown"@.len() != "json"@.len()
        && "markdown"@.len() != "compact"@.len() && "markdown"@.len() != "pretty"@.len());
    assert("csv"@.len() != "toon"@.len() && "csv"@.len() != "json"@.len()
        && "csv"@.len() != "compact"@.len() && "csv"@.len() != "pretty"@.len()
        && "csv"@.len() != "markdown"@.len());
}

/// A requested format is always handed to the CLI unchanged.
pub proof fn lemma_requested_format_passed_through(format: Seq<char>, mode: OutputMode)
    ensures
        cli_format(Some(format), mode) == Some(format),
{
}

/// Search, batch, assistant and quick requests without a format (and
/// without a template) read TOON.
pub proof fn lemma_tools_default_to_toon(s: SearchArgs, b: BatchArgs, a: AssistantArgs, q: QuickArgs)
    ensures
        s.format is None && s.template is None ==> search_command(s).output_mode == OutputMode::Toon,
        b.format is None && b.template is None ==> batch_command(b).output_mode == OutputMode::Toon,
        a.format is None ==> assistant_command(a).output_mode == OutputMode::Toon,
        q.format is None ==> quick_command(q).output_mode == OutputMode::Toon,
{
}

/// A result template always makes search and batch output plain text.
pub proof fn lemma_template_forces_text(s: SearchArgs, b: BatchArgs)
    ensures
        s.template is Some ==> search_command(s).output_mode == OutputMode::Text,
        b.template is Some ==> batch_command(b).output_mode == OutputMode::Text,
{
}

/// The unpersonalized preset defaults the region to `no_region` and turns
/// personalization off, unless the caller chose otherwise.
pub proof fn lemma_privacy_defaults(personalized: Option<bool>)
    ensures
        privacy_region(Some(PrivacyMode::Unpersonalized), None) == Some("no_region"@),
        personalized != Some(true) ==> privacy_no_personalized(
            Some(PrivacyMode::Unpersonalized),
            personalized,
            None,
            true,
        ) == Some(true),
{
}

/// The privacy preset never adds `--no-personalized` to a news search.
pub proof fn lemma_news_search_keeps_personalization(s: SearchArgs)
    requires
        s.news == Some(true),
    ensures
        privacy_no_personalized(s.privacy_mode, s.personalized, s.no_personalized, s.news != Some(true))
            == s.no_personalized,
{
}

/// Presets fill in only what the caller left out: an explicit value always
/// stays, a missing one takes the preset's value, and an inactive preset
/// changes nothing.
pub proof fn lemma_presets_respect_explicit_values<T>(value: T, default: T, other: Option<T>)
    ensures
        preset_default(true, Some(value), default) == Some(value),
        preset_default(true, None::<T>, default) == Some(default),
        preset_default(false, other, default) == other,
{
}

/// A per-call profile takes precedence over the runner's default; without
/// one the default applies, and the call is then prefixed by
/// `--profile <profile>` exactly when a profile applies.
pub proof fn lemma_profile_precedence(
    override_profile: Option<Seq<char>>,
    default_profile: Option<Seq<char>>,
)
    ensures
        override_profile matches Some(p) ==> chosen_profile(override_profile, default_profile)
            == Some(p),
        override_profile is None ==> chosen_profile(override_profile, default_profile)
            == default_profile,
        chosen_profile(override_profile, default_profile) matches Some(p) ==> profile_args(
            chosen_profile(override_profile, default_profile),
        ) == seq!["--profile"@, p],
        chosen_profile(override_profile, default_profile) is None ==> profile_args(
            chosen_profile(override_profile, default_profile),
        ).len() == 0,
{
}

/// A search or batch request's own profile is the profile its call runs
/// under, whatever the runner's default.
pub proof fn lemma_request_profile_wins(s: SearchArgs, b: BatchArgs, default_profile: Option<Seq<char>>)
    ensures
        s.profile is Some ==> chosen_profile(search_command(s).profile_override, default_profile)
            == s.profile.deep_view(),
        b.profile is Some ==> chosen_profile(batch_command(b).profile_override, default_profile)
            == b.profile.deep_view(),
{
}

/// The items as lines: each followed by a newline.
pub open spec fn terminated_lines(items: Seq<Seq<char>>) -> Seq<char>
    decreases items.len(),
{
    if items.len() == 0 {
        Seq::empty()
    } else {
        terminated_lines(items.drop_last()) + items.last() + "\n"@
    }
}

/// Stdin built from items is present exactly when there are items, and
/// then holds each item on a line of its own, every line ended by `\n`.
pub proof fn lemma_lines_input_is_terminated_lines(items: Seq<Seq<char>>)
    ensures
        lines_input(items) is Some <==> items.len() > 0,
        items.len() > 0 ==> lines_input(items) == Some(terminated_lines(items)),
    decreases items.len(),
{
    if items.len() > 1 {
        lemma_lines_input_is_terminated_lines(items.drop_last());
        assert(joined(items, "\n"@) + "\n"@ =~= joined(items.drop_last(), "\n"@) + "\n"@
            + items.last() + "\n"@);
    } else if items.len() == 1 {
        assert(items.drop_last().len() == 0);
        assert(terminated_lines(items.drop_last()) == Seq::<char>::empty());
        assert(terminated_lines(items) =~= items[0] + "\n"@);
    }
}

/// A summary request sends stdin exactly when it has filter items.
pub proof fn lemma_summarize_stdin_only_with_filter(a: SummarizeArgs)
    ensures
        summarize_command(a).stdin is Some <==> a.filter_items.len() > 0,
{
    lemma_lines_input_is_terminated_lines(a.filter_items.deep_view());
}

/// A REPL session always ends with `/exit`: its stdin is the prompts as
/// lines (nothing when they join to nothing), then `/exit\n`.
pub proof fn lemma_repl_always_exits(prompts: Seq<Seq<char>>)
    ensures
        joined(prompts, "\n"@).len() == 0 ==> repl_input(prompts) == "/exit\n"@,
        joined(prompts, "\n"@).len() > 0 ==> repl_input(prompts) == joined(prompts, "\n"@) + "\n"@
            + "/exit\n"@,
{
}

/// A configured timeout is never zero.
pub proof fn lemma_timeout_positive(value: Option<Seq<char>>)
    ensures
        configured_timeout(value) matches Ok(t) ==> t > 0,
{
    reveal_strlit("30000");
}

/// The stealth jitter lies in `[base, base + spread)`, where that range
/// fits in 64 bits.
pub proof fn lemma_jitter_bounds(stealth: StealthConfig, request_stealth: bool, args: Seq<Seq<char>>)
    requires
        stealth.jitter_base_ms + stealth.jitter_spread_ms <= u64_modulus(),
    ensures
        jitter_ms(stealth, request_stealth, args) matches Some(j) ==> stealth.jitter_base_ms <= j
            < stealth.jitter_base_ms + stealth.jitter_spread_ms,
{
    if stealth.jitter_spread_ms > 0 {
        let sum = stealth.jitter_base_ms + args_hash(args) % (stealth.jitter_spread_ms as nat);
        vstd::arithmetic::div_mod::lemma_small_mod(sum as nat, u64_modulus());
    }
}

/// A request that asks for stealth is jittered whatever the runner's own
/// stealth setting: exactly as it would be with stealth on for the runner.
pub proof fn lemma_stealth_request_is_jittered(stealth: StealthConfig, args: Seq<Seq<char>>)
    requires
        stealth.jitter_spread_ms > 0,
    ensures
        jitter_ms(stealth, true, args) is Some,
        jitter_ms(stealth, true, args) == jitter_ms(StealthConfig { enabled: true, ..stealth }, false, args),
{
}

/// Waiting as the rate limiter says puts calls at least `min_interval`
/// apart, and never waits longer than `min_interval`.
pub proof fn lemma_throttle_spacing(since_last: Option<u128>, min_interval: u128)
    ensures
        throttle_wait(since_last, min_interval) <= min_interval,
        since_last matches Some(e) ==> e + throttle_wait(since_last, min_interval) >= min_interval,
{
}

/// Calls paced by the rate limiter start at least the limiter's spacing,
/// and at least the spacing they asked for, after the previous call was let
/// through: a call arriving at `now` and waiting as told starts no earlier
/// than either.
pub proof fn lemma_rate_limiter_spacing(limiter: RateLimiter, now: u128, requested: u128)
    requires
        limiter.last_call is Some,
        now >= limiter.last_call->0,
    ensures
        now + limiter_wait(limiter, now, requested) >= limiter.last_call->0 + limiter.min_interval,
        now + limiter_wait(limiter, now, requested) >= limiter.last_call->0 + requested,
{
}

/// A request that asks for stealth is paced whatever the runner's own
/// stealth setting: it starts at least the stealth interval after the
/// previous call.
pub proof fn lemma_stealth_request_is_paced(stealth: StealthConfig, limiter: RateLimiter, now: u128)
    requires
        limiter.last_call is Some,
        now >= limiter.last_call->0,
    ensures
        now + limiter_wait(limiter, now, requested_interval(stealth, true))
            >= limiter.last_call->0 + stealth.min_interval_ms * NANOS_PER_MS,
{
}

/// A search or batch request with stealth mode on is run in stealth: it is
/// jittered and paced by the stealth interval whatever the runner's own
/// setting.
pub proof fn lemma_stealth_search_and_batch(
    s: SearchArgs,
    b: BatchArgs,
    stealth: StealthConfig,
    args: Seq<Seq<char>>,
)
    requires
        s.stealth_mode is Some,
        b.stealth_mode is Some,
        stealth.jitter_spread_ms > 0,
    ensures
        search_command(s).stealth,
        batch_command(b).stealth,
        jitter_ms(stealth, search_command(s).stealth, args) is Some,
        jitter_ms(stealth, batch_command(b).stealth, args) is Some,
        requested_interval(stealth, search_command(s).stealth) == stealth.min_interval_ms * NANOS_PER_MS,
        requested_interval(stealth, batch_command(b).stealth) == stealth.min_interval_ms * NANOS_PER_MS,
{
}

proof fn lemma_digit_char(k: nat)
    requires
        k < 10,
    ensures
        is_digit(digit_char(k)),
        (digit_char(k) as nat) - ('0' as nat) == k,
{
}

proof fn lemma_decimal_digits(n: nat)
    ensures
        decimal(n).len() > 0,
        forall|i: int| 0 <= i < decimal(n).len() ==> is_digit(#[trigger] decimal(n)[i]),
        digits_value(decimal(n)) == n,
    decreases n,
{
    lemma_digit_char(n % 10);
    if n < 10 {
        assert(decimal(n).drop_last() =~= Seq::<char>::empty());
        assert(decimal(n).last() == digit_char(n));
        assert(digits_value(Seq::<char>::empty()) == 0);
        assert(digits_value(decimal(n)) == digits_value(decimal(n).drop_last()) * 10
            + ((decimal(n).last() as nat) - ('0' as nat)) as nat);
    } else {
        lemma_decimal_digits(n / 10);
        let d = decimal(n);
        assert(d.drop_last() =~= decimal(n / 10));
        assert(d.last() == digit_char(n % 10));
        assert(digits_value(d) == digits_value(d.drop_last()) * 10
            + ((d.last() as nat) - ('0' as nat)) as nat);
        assert((n / 10) * 10 + n % 10 == n);
        assert forall|i: int| 0 <= i < d.len() implies is_digit(#[trigger] d[i]) by {
            if i < d.len() - 1 {
                assert(d[i] == decimal(n / 10)[i]);
            }
        }
    }
}

/// Reading back the decimal text of a number gives the number.
pub proof fn lemma_decimal_round_trip(n: u64)
    ensures
        parsed_u64(decimal(n as nat)) == Some(n),
{
    lemma_decimal_digits(n as nat);
    let d = decimal(n as nat);
    assert(is_digit(d[0]));
    assert(unsigned_digits(d) == d);
}

} // verus!
