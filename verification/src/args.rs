//! Parameters of every tool, as the MCP client sends them.

use vstd::prelude::*;
use crate::privacy::{PrivacyMode, StealthMode};

verus! {

/// Parameters of a web search.
#[derive(Clone, Debug, PartialEq, Eq)]
pub struct SearchArgs {
    /// Search query to send to Kagi.
    pub query: String,
    /// Optional Snap shortcut prefix, for example "reddit".
    pub snap: Option<String>,
    /// Optional Kagi lens index.
    pub lens: Option<String>,
    /// Optional region code (e.g., "us", "gb", "no_region").
    pub region: Option<String>,
    /// Optional time filter (day, week, month, year).
    pub time: Option<String>,
    /// Restrict results to pages updated on or after this date.
    pub from_date: Option<String>,
    /// Restrict results to pages updated on or before this date.
    pub to_date: Option<String>,
    /// Optional order (default, recency, website, trackers).
    pub order: Option<String>,
    /// Enable verbatim search mode.
    pub verbatim: Option<bool>,
    /// Force personalized search on.
    pub personalized: Option<bool>,
    /// Force personalized search off.
    pub no_personalized: Option<bool>,
    /// Optional privacy preset. "unpersonalized" disables personalization and defaults region to no_region.
    pub privacy_mode: Option<PrivacyMode>,
    /// Enable stealth mode for this request. Adds jitter, caching, and rate limiting.
    pub stealth_mode: Option<StealthMode>,
    /// Per-call CLI profile override. Takes precedence over KAGI_CLI_PROFILE.
    pub profile: Option<String>,
    /// Render each result with a lightweight template.
    pub template: Option<String>,
    /// Summarize the top N result URLs using subscriber summarizer.
    pub follow: Option<u64>,
    /// Maximum number of search results to return.
    pub limit: Option<u64>,
    /// Search the Kagi News tab instead of web results.
    pub news: Option<bool>,
    /// Locally cache this response.
    pub local_cache: Option<bool>,
    /// Override local cache TTL in seconds.
    pub cache_ttl: Option<u64>,
    /// Optional output format (toon, json, pretty, compact, markdown, csv).
    pub format: Option<String>,
    /// Disable colored terminal output for pretty format.
    pub no_color: Option<bool>,
}

/// Parameters of a summary of a URL, a text or a list of filter items.
#[derive(Clone, Debug, PartialEq, Eq)]
pub struct SummarizeArgs {
    /// URL to summarize.
    pub url: Option<String>,
    /// Text to summarize.
    pub text: Option<String>,
    /// Use subscriber summarizer mode.
    pub subscriber: Option<bool>,
    /// Subscriber mode only.
    pub length: Option<String>,
    /// Public API mode only.
    pub engine: Option<String>,
    /// Summary type or mode.
    pub summary_type: Option<String>,
    /// Target language code.
    pub target_language: Option<String>,
    /// Allow cached responses.
    pub cache: Option<bool>,
    /// URLs or text items to summarize through `kagi summarize --filter`.
    pub filter_items: Vec<String>,
    /// Locally cache this response.
    pub local_cache: Option<bool>,
    /// Override local cache TTL in seconds.
    pub cache_ttl: Option<u64>,
}

/// Parameters of a page extraction.
#[derive(Clone, Debug, PartialEq, Eq)]
pub struct ExtractArgs {
    /// HTTPS URL of the page to extract as markdown.
    pub url: String,
}

/// Parameters of a news feed request.
#[derive(Clone, Debug, PartialEq, Eq)]
pub struct NewsArgs {
    /// News category slug.
    pub category: Option<String>,
    /// Maximum number of stories.
    pub limit: Option<u32>,
    /// News language code.
    pub lang: Option<String>,
    /// List built-in content-filter presets instead of stories.
    pub list_filter_presets: Option<bool>,
    /// Built-in content-filter preset IDs to apply.
    pub filter_preset: Vec<String>,
    /// Custom keywords to filter out from the feed.
    pub filter_keyword: Vec<String>,
    /// Filter behavior for matching stories (hide, blur).
    pub filter_mode: Option<String>,
    /// Story fields to inspect (title, summary, all).
    pub filter_scope: Option<String>,
}

/// An optional language for the news categories and chaos index.
#[derive(Clone, Debug, PartialEq, Eq)]
pub struct LangArgs {
    /// Optional language code.
    pub lang: Option<String>,
}

/// Parameters of one Assistant prompt.
#[derive(Clone, Debug, PartialEq, Eq)]
pub struct AssistantArgs {
    /// Prompt to send to Kagi Assistant.
    pub query: String,
    /// Optional existing thread id.
    pub thread_id: Option<String>,
    /// Local files to attach to the prompt.
    pub attach: Vec<String>,
    /// Saved assistant name, id, or invoke profile slug.
    pub assistant: Option<String>,
    /// Output format (toon, json, pretty, compact, markdown).
    pub format: Option<String>,
    /// Override the Assistant model slug.
    pub model: Option<String>,
    /// Override the Assistant lens id.
    pub lens: Option<u64>,
    /// Force web access on.
    pub web_access: Option<bool>,
    /// Force web access off.
    pub no_web_access: Option<bool>,
    /// Force personalizations on.
    pub personalized: Option<bool>,
    /// Force personalizations off.
    pub no_personalized: Option<bool>,
    /// Export the Assistant transcript when the wrapped CLI supports it.
    pub export: Option<String>,
    /// Disable colored terminal output for pretty format.
    pub no_color: Option<bool>,
}

/// Parameters of a bounded Assistant REPL session.
#[derive(Clone, Debug, PartialEq, Eq)]
pub struct AssistantReplArgs {
    /// Prompts to feed to the Assistant REPL before sending `/exit`.
    pub prompts: Vec<String>,
    /// Optional existing thread id.
    pub thread_id: Option<String>,
    /// Saved assistant name, id, or invoke profile slug.
    pub assistant: Option<String>,
    /// Override the Assistant model slug.
    pub model: Option<String>,
    /// Output format for each response (toon, json, pretty, compact, markdown).
    pub format: Option<String>,
    /// Export the REPL transcript when the session exits.
    pub export: Option<String>,
    /// Disable colored terminal output.
    pub no_color: Option<bool>,
}

/// Parameters of a FastGPT prompt.
#[derive(Clone, Debug, PartialEq, Eq)]
pub struct FastGptArgs {
    /// Prompt to send to FastGPT.
    pub query: String,
    /// Allow cached responses.
    pub cache: Option<bool>,
    /// Enable web search.
    pub web_search: Option<bool>,
    /// Locally cache this response.
    pub local_cache: Option<bool>,
    /// Override local cache TTL in seconds.
    pub cache_ttl: Option<u64>,
}

/// Parameters of an enrichment query.
#[derive(Clone, Debug, PartialEq, Eq)]
pub struct EnrichArgs {
    /// Query to send to enrichment endpoints.
    pub query: String,
}

/// Parameters of a Small Web feed request.
#[derive(Clone, Debug, PartialEq, Eq)]
pub struct SmallWebArgs {
    /// Maximum number of feed entries.
    pub limit: Option<u32>,
}

/// Parameters of a quick answer.
#[derive(Clone, Debug, PartialEq, Eq)]
pub struct QuickArgs {
    /// Query to get a quick answer for.
    pub query: String,
    /// Optional output format (toon, json, pretty, compact, markdown).
    pub format: Option<String>,
    /// Disable colored terminal output for pretty format.
    pub no_color: Option<bool>,
    /// Scope quick answer to a Kagi lens by numeric index.
    pub lens: Option<String>,
    /// Locally cache this response.
    pub local_cache: Option<bool>,
    /// Override local cache TTL in seconds.
    pub cache_ttl: Option<u64>,
}

/// Parameters of a translation.
#[derive(Clone, Debug, PartialEq, Eq)]
pub struct TranslateArgs {
    /// Text to translate.
    pub text: String,
    /// Source language code (default: auto).
    pub from: Option<String>,
    /// Target language code (default: en).
    pub to: Option<String>,
    /// Translation quality preference.
    pub quality: Option<String>,
    /// Translation model override.
    pub model: Option<String>,
    /// Prediction text to bias the translation.
    pub prediction: Option<String>,
    /// Predicted source language code.
    pub predicted_language: Option<String>,
    /// Formality setting.
    pub formality: Option<String>,
    /// Speaker gender hint.
    pub speaker_gender: Option<String>,
    /// Addressee gender hint.
    pub addressee_gender: Option<String>,
    /// Language complexity setting.
    pub language_complexity: Option<String>,
    /// Translation style setting.
    pub translation_style: Option<String>,
    /// Extra translation context.
    pub context: Option<String>,
    /// Dictionary language override.
    pub dictionary_language: Option<String>,
    /// Time formatting style.
    pub time_format: Option<String>,
    /// Toggle definition-aware translation behavior.
    pub use_definition_context: Option<bool>,
    /// Toggle language-feature enrichment.
    pub enable_language_features: Option<bool>,
    /// Preserve source formatting when possible.
    pub preserve_formatting: Option<bool>,
    /// Raw JSON array passed through as context_memory.
    pub context_memory_json: Option<String>,
    /// Skip alternative translations.
    pub no_alternatives: Option<bool>,
    /// Skip word insights.
    pub no_word_insights: Option<bool>,
    /// Skip suggestions.
    pub no_suggestions: Option<bool>,
    /// Skip alignments.
    pub no_alignments: Option<bool>,
}

/// Parameters of a batch of searches run in parallel.
#[derive(Clone, Debug, PartialEq, Eq)]
pub struct BatchArgs {
    /// Search queries to run in parallel.
    pub queries: Vec<String>,
    /// Search queries to pass through stdin.
    pub stdin_queries: Vec<String>,
    /// Maximum concurrent requests (default: 3).
    pub concurrency: Option<u64>,
    /// Rate limit in requests per minute (default: 60).
    pub rate_limit: Option<u32>,
    /// Optional output format (toon, json, pretty, compact, markdown, csv).
    pub format: Option<String>,
    /// Optional Snap shortcut prefix for every query.
    pub snap: Option<String>,
    /// Scope all searches to a Kagi lens by numeric index.
    pub lens: Option<String>,
    /// Restrict results to a Kagi region code.
    pub region: Option<String>,
    /// Restrict results to a recent time window.
    pub time: Option<String>,
    /// Restrict results to pages updated on or after this date.
    pub from_date: Option<String>,
    /// Restrict results to pages updated on or before this date.
    pub to_date: Option<String>,
    /// Reorder search results.
    pub order: Option<String>,
    /// Enable verbatim search mode for all batch requests.
    pub verbatim: Option<bool>,
    /// Force personalized search on for all batch requests.
    pub personalized: Option<bool>,
    /// Force personalized search off for all batch requests.
    pub no_personalized: Option<bool>,
    /// Optional privacy preset. "unpersonalized" disables personalization and defaults region to no_region.
    pub privacy_mode: Option<PrivacyMode>,
    /// Enable stealth mode for this request. Adds jitter, caching, and rate limiting.
    pub stealth_mode: Option<StealthMode>,
    /// Per-call CLI profile override. Takes precedence over KAGI_CLI_PROFILE.
    pub profile: Option<String>,
    /// Render each result with a lightweight template.
    pub template: Option<String>,
    /// Maximum number of search results to return per query.
    pub limit: Option<u64>,
    /// Disable colored terminal output for pretty format.
    pub no_color: Option<bool>,
}

/// Parameters of a question about a web page.
#[derive(Clone, Debug, PartialEq, Eq)]
pub struct AskPageArgs {
    /// URL of the page to ask about.
    pub url: String,
    /// Question to ask about the page.
    pub question: String,
}

/// An Assistant thread.
#[derive(Clone, Debug, PartialEq, Eq)]
pub struct ThreadIdArgs {
    /// Assistant thread ID.
    pub thread_id: String,
}

/// Parameters of an Assistant thread export.
#[derive(Clone, Debug, PartialEq, Eq)]
pub struct ThreadExportArgs {
    /// Assistant thread ID.
    pub thread_id: String,
    /// Export format (markdown, json).
    pub format: Option<String>,
}

/// Parameters of a local history listing.
#[derive(Clone, Debug, PartialEq, Eq)]
pub struct HistoryListArgs {
    /// Maximum local history entries to return.
    pub limit: Option<u64>,
}

/// A domain preference to set.
#[derive(Clone, Debug, PartialEq, Eq)]
pub struct SitePrefSetArgs {
    /// Domain to configure.
    pub domain: String,
    /// Preference mode: block, lower, normal, higher, or pin.
    pub mode: String,
}

/// A domain whose preference is removed.
#[derive(Clone, Debug, PartialEq, Eq)]
pub struct SitePrefDomainArgs {
    /// Domain to remove.
    pub domain: String,
}

/// Credentials to save.
#[derive(Clone, Debug, PartialEq, Eq)]
pub struct AuthSetArgs {
    /// Kagi API token to save into `.kagi.toml`.
    pub api_token: Option<String>,
    /// Kagi session token or full Session Link URL to save into `.kagi.toml`.
    pub session_token: Option<String>,
}

/// A lens, by id or exact name.
#[derive(Clone, Debug, PartialEq, Eq)]
pub struct LensTargetArgs {
    /// Lens id or exact lens name.
    pub target: String,
}

/// A lens to create.
#[derive(Clone, Debug, PartialEq, Eq)]
pub struct LensCreateArgs {
    /// Lens display name.
    pub name: String,
    pub options: LensOptions,
}

/// Changes to a lens.
#[derive(Clone, Debug, PartialEq, Eq)]
pub struct LensUpdateArgs {
    /// Lens id or exact lens name.
    pub target: String,
    pub name: Option<String>,
    pub options: LensOptions,
}

/// Options shared by lens creation and update.
#[derive(Clone, Debug, PartialEq, Eq, Default)]
pub struct LensOptions {
    pub included_sites: Option<String>,
    pub included_keywords: Option<String>,
    pub description: Option<String>,
    pub region: Option<String>,
    pub before_date: Option<String>,
    pub after_date: Option<String>,
    pub excluded_sites: Option<String>,
    pub excluded_keywords: Option<String>,
    pub shortcut: Option<String>,
    pub autocomplete_keywords: Option<bool>,
    pub no_autocomplete_keywords: Option<bool>,
    pub template: Option<String>,
    pub file_type: Option<String>,
    pub share_with_team: Option<bool>,
    pub no_share_with_team: Option<bool>,
    pub share_copy_code: Option<bool>,
    pub no_share_copy_code: Option<bool>,
}

/// A custom assistant, by id or exact name.
#[derive(Clone, Debug, PartialEq, Eq)]
pub struct AssistantCustomTargetArgs {
    /// Custom assistant id or exact assistant name.
    pub target: String,
}

/// A custom assistant to create.
#[derive(Clone, Debug, PartialEq, Eq)]
pub struct AssistantCustomCreateArgs {
    /// Assistant name.
    pub name: String,
    pub options: AssistantCustomOptions,
}

/// Changes to a custom assistant.
#[derive(Clone, Debug, PartialEq, Eq)]
pub struct AssistantCustomUpdateArgs {
    /// Custom assistant id or exact assistant name.
    pub target: String,
    pub name: Option<String>,
    pub options: AssistantCustomOptions,
}

/// Options shared by custom assistant creation and update.
#[derive(Clone, Debug, PartialEq, Eq, Default)]
pub struct AssistantCustomOptions {
    pub bang_trigger: Option<String>,
    pub web_access: Option<bool>,
    pub no_web_access: Option<bool>,
    pub lens: Option<String>,
    pub personalized: Option<bool>,
    pub no_personalized: Option<bool>,
    pub model: Option<String>,
    pub instructions: Option<String>,
}

/// A custom bang, by id, exact name or trigger.
#[derive(Clone, Debug, PartialEq, Eq)]
pub struct CustomBangTargetArgs {
    /// Bang id, exact name, or trigger.
    pub target: String,
}

/// A custom bang to create.
#[derive(Clone, Debug, PartialEq, Eq)]
pub struct CustomBangCreateArgs {
    /// Bang display name.
    pub name: String,
    /// Bang trigger without the leading `!`.
    pub trigger: String,
    pub options: CustomBangOptions,
}

/// Changes to a custom bang.
#[derive(Clone, Debug, PartialEq, Eq)]
pub struct CustomBangUpdateArgs {
    /// Bang id, exact name, or trigger.
    pub target: String,
    pub name: Option<String>,
    pub trigger: Option<String>,
    pub options: CustomBangOptions,
}

/// Options shared by custom bang creation and update.
#[derive(Clone, Debug, PartialEq, Eq, Default)]
pub struct CustomBangOptions {
    pub template: Option<String>,
    pub snap_domain: Option<String>,
    pub regex_pattern: Option<String>,
    pub shortcut_menu: Option<bool>,
    pub no_shortcut_menu: Option<bool>,
    pub open_snap_domain: Option<bool>,
    pub no_open_snap_domain: Option<bool>,
    pub open_base_path: Option<bool>,
    pub no_open_base_path: Option<bool>,
    pub encode_placeholder: Option<bool>,
    pub no_encode_placeholder: Option<bool>,
    pub plus_for_space: Option<bool>,
    pub no_plus_for_space: Option<bool>,
}

/// A redirect rule, by id or exact rule text.
#[derive(Clone, Debug, PartialEq, Eq)]
pub struct RedirectTargetArgs {
    /// Redirect id or exact rule text.
    pub target: String,
}

/// A redirect rule to create.
#[derive(Clone, Debug, PartialEq, Eq)]
pub struct RedirectCreateArgs {
    /// Full regex|replacement redirect rule.
    pub rule: String,
}

/// A redirect rule and its replacement.
#[derive(Clone, Debug, PartialEq, Eq)]
pub struct RedirectUpdateArgs {
    /// Redirect id or exact rule text.
    pub target: String,
    /// Full replacement regex|replacement redirect rule.
    pub rule: String,
}

/// Parameters of a search watch.
#[derive(Clone, Debug, PartialEq, Eq)]
pub struct WatchArgs {
    /// Search query to monitor.
    pub query: String,
    /// Poll interval in seconds.
    pub interval: Option<u64>,
    /// Number of polls to run. Omit or pass 0 for CLI default behavior.
    pub count: Option<u32>,
    /// Optional output format (toon, json, pretty, compact, markdown, csv).
    pub format: Option<String>,
}

/// Parameters of a webhook notification.
#[derive(Clone, Debug, PartialEq, Eq)]
pub struct NotifyArgs {
    /// Search query to run before notifying.
    pub query: Option<String>,
    /// Kagi News category to fetch before notifying.
    pub news_category: Option<String>,
    /// Webhook endpoint that receives the JSON payload.
    pub webhook_url: String,
    /// Only send when `watch` detects a changed search result set.
    pub change_only: Option<bool>,
}

/// The shell to generate a completion script for.
#[derive(Clone, Debug, PartialEq, Eq)]
pub struct CompletionArgs {
    /// Shell completion target: bash, zsh, fish, or powershell.
    pub shell: String,
}

/// An embedded skill to load.
#[derive(Clone, Debug, PartialEq, Eq)]
pub struct SkillGetArgs {
    /// Embedded skill name. Defaults to the core `kagi` skill.
    pub name: Option<String>,
    /// Print the full skill body without frontmatter.
    pub full: Option<bool>,
}

/// An embedded skill to locate.
#[derive(Clone, Debug, PartialEq, Eq)]
pub struct SkillPathArgs {
    /// Embedded skill name. Omit to print the embedded skill root locator.
    pub name: Option<String>,
}
} // verus!
