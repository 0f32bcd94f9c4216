//! Search-style tools: `search`, `batch` and `quick`.

use vstd::prelude::*;
use crate::args::{BatchArgs, QuickArgs, SearchArgs};
use crate::argv::{
    nat_of_u32, nat_of_u64, opt_flag, opt_number, opt_text, push_opt_flag, push_opt_u32,
    push_opt_u64, push_opt_value, ArgList,
};
use crate::command::{
    cli_format, command_spec, format_mode, mode_of_format, plain_command, push_cli_format, CommandSpec,
    OutputMode, SpecCommand,
};
use crate::lines::{lines_input, lines_stdin, push_all};
use crate::privacy::{
    apply_privacy_mode, privacy_no_personalized, privacy_region,
    DEFAULT_STEALTH_CACHE_TTL_SECS,
};
use crate::text::{clone_opt, lit};

verus! {

/// A value that a preset fills in only when the caller left it out.
pub open spec fn preset_default<T>(active: bool, value: Option<T>, default: T) -> Option<T> {
    if active && value is None {
        Some(default)
    } else {
        value
    }
}

/// Output mode of a search-like request: plain text when a template renders
/// the results, otherwise the mode its format selects.
pub open spec fn templated_mode(template: Option<Seq<char>>, format: Option<Seq<char>>) -> OutputMode {
    if template is Some {
        OutputMode::Text
    } else {
        format_mode(format)
    }
}

/// The invocation for a search request.
pub open spec fn search_command(a: SearchArgs) -> SpecCommand {
    let mode = templated_mode(a.template.deep_view(), a.format.deep_view());
    let stealth = a.stealth_mode is Some;
    let region = privacy_region(a.privacy_mode, a.region.deep_view());
    let no_personalized = privacy_no_personalized(
        a.privacy_mode,
        a.personalized,
        a.no_personalized,
        a.news != Some(true),
    );
    let local_cache = preset_default(stealth, a.local_cache, true);
    let cache_ttl = preset_default(stealth, nat_of_u64(a.cache_ttl), DEFAULT_STEALTH_CACHE_TTL_SECS as nat);
    SpecCommand {
        args: seq!["search"@, a.query@]
            + opt_text("--snap"@, a.snap.deep_view())
            + opt_text("--lens"@, a.lens.deep_view())
            + opt_text("--region"@, region)
            + opt_text("--time"@, a.time.deep_view())
            + opt_text("--from-date"@, a.from_date.deep_view())
            + opt_text("--to-date"@, a.to_date.deep_view())
            + opt_text("--order"@, a.order.deep_view())
            + opt_flag("--verbatim"@, a.verbatim)
            + opt_flag("--personalized"@, a.personalized)
            + opt_flag("--no-personalized"@, no_personalized)
            + opt_text("--template"@, a.template.deep_view())
            + opt_number("--follow"@, nat_of_u64(a.follow))
            + opt_number("--limit"@, nat_of_u64(a.limit))
            + opt_flag("--news"@, a.news)
            + opt_flag("--local-cache"@, local_cache)
            + opt_number("--cache-ttl"@, cache_ttl)
            + opt_text("--format"@, cli_format(a.format.deep_view(), mode))
            + opt_flag("--no-color"@, a.no_color),
        stdin: None,
        output_mode: mode,
        profile_override: a.profile.deep_view(),
        stealth,
    }
}

/// Builds the `kagi search` invocation.
pub fn search(args: SearchArgs) -> (spec: CommandSpec)
    ensures
        spec@ == search_command(args),
{
    let ghost a = args;
    let SearchArgs {
        query, snap, lens, mut region, time, from_date, to_date, order, verbatim, personalized,
        mut no_personalized, privacy_mode, stealth_mode, profile, template, follow, limit, news,
        mut local_cache, mut cache_ttl, format, no_color,
    } = args;
    let output_mode = if template.is_some() {
        OutputMode::Text
    } else {
        mode_of_format(&format)
    };
    let stealth_active = stealth_mode.is_some();
    let is_news = match news {
        Some(b) => b,
        None => false,
    };
    apply_privacy_mode(privacy_mode, &mut region, personalized, &mut no_personalized, !is_news);
    if stealth_active {
        if local_cache.is_none() {
            local_cache = Some(true);
        }
        if cache_ttl.is_none() {
            cache_ttl = Some(DEFAULT_STEALTH_CACHE_TTL_SECS);
        }
    }
    let template_arg = clone_opt(&template);
    let mut argv = ArgList::two(lit("search"), query);
    push_opt_value(&mut argv, "--snap", snap);
    push_opt_value(&mut argv, "--lens", lens);
    push_opt_value(&mut argv, "--region", region);
    push_opt_value(&mut argv, "--time", time);
    push_opt_value(&mut argv, "--from-date", from_date);
    push_opt_value(&mut argv, "--to-date", to_date);
    push_opt_value(&mut argv, "--order", order);
    push_opt_flag(&mut argv, "--verbatim", verbatim);
    push_opt_flag(&mut argv, "--personalized", personalized);
    push_opt_flag(&mut argv, "--no-personalized", no_personalized);
    push_opt_value(&mut argv, "--template", template_arg);
    push_opt_u64(&mut argv, "--follow", follow);
    push_opt_u64(&mut argv, "--limit", limit);
    push_opt_flag(&mut argv, "--news", news);
    push_opt_flag(&mut argv, "--local-cache", local_cache);
    push_opt_u64(&mut argv, "--cache-ttl", cache_ttl);
    push_cli_format(&mut argv, format, output_mode);
    push_opt_flag(&mut argv, "--no-color", no_color);
    let mut spec = command_spec(argv.into_vec(), output_mode);
    spec.profile_override = profile;
    spec.stealth = stealth_active;
    assert(no_personalized == privacy_no_personalized(
        a.privacy_mode, a.personalized, a.no_personalized, a.news != Some(true)));
    assert(local_cache == preset_default(stealth_active, a.local_cache, true));
    assert(nat_of_u64(cache_ttl) == preset_default(
        stealth_active, nat_of_u64(a.cache_ttl), DEFAULT_STEALTH_CACHE_TTL_SECS as nat));
    assert(output_mode == templated_mode(a.template.deep_view(), a.format.deep_view()));
    spec
}

/// The local-cache setting a stealth batch adds: on, with the stealth TTL.
pub open spec fn stealth_cache(stealth: bool) -> (Option<bool>, Option<nat>) {
    if stealth {
        (Some(true), Some(DEFAULT_STEALTH_CACHE_TTL_SECS as nat))
    } else {
        (None, None)
    }
}

/// The invocation for a batch of searches.
pub open spec fn batch_command(a: BatchArgs) -> SpecCommand {
    let mode = templated_mode(a.template.deep_view(), a.format.deep_view());
    let stealth = a.stealth_mode is Some;
    let region = privacy_region(a.privacy_mode, a.region.deep_view());
    let no_personalized = privacy_no_personalized(a.privacy_mode, a.personalized, a.no_personalized, true);
    let concurrency = preset_default(stealth, nat_of_u64(a.concurrency), 1);
    let rate_limit = preset_default(stealth, nat_of_u32(a.rate_limit), 20);
    SpecCommand {
        args: seq!["batch"@] + a.queries.deep_view()
            + opt_number("--concurrency"@, concurrency)
            + opt_number("--rate-limit"@, rate_limit)
            + opt_text("--format"@, cli_format(a.format.deep_view(), mode))
            + opt_text("--snap"@, a.snap.deep_view())
            + opt_text("--lens"@, a.lens.deep_view())
            + opt_text("--region"@, region)
            + opt_text("--time"@, a.time.deep_view())
            + opt_text("--from-date"@, a.from_date.deep_view())
            + opt_text("--to-date"@, a.to_date.deep_view())
            + opt_text("--order"@, a.order.deep_view())
            + opt_flag("--verbatim"@, a.verbatim)
            + opt_flag("--personalized"@, a.personalized)
            + opt_flag("--no-personalized"@, no_personalized)
            + opt_text("--template"@, a.template.deep_view())
            + opt_number("--limit"@, nat_of_u64(a.limit))
            + opt_flag("--local-cache"@, stealth_cache(stealth).0)
            + opt_number("--cache-ttl"@, stealth_cache(stealth).1)
            + opt_flag("--no-color"@, a.no_color),
        stdin: lines_input(a.stdin_queries.deep_view()),
        output_mode: mode,
        profile_override: a.profile.deep_view(),
        stealth,
    }
}

/// Builds the `kagi batch` invocation.
pub fn batch(args: BatchArgs) -> (spec: CommandSpec)
    ensures
        spec@ == batch_command(args),
{
    let ghost a = args;
    let BatchArgs {
        queries, stdin_queries, mut concurrency, mut rate_limit, format, snap, lens, mut region,
        time, from_date, to_date, order, verbatim, personalized, mut no_personalized,
        privacy_mode, stealth_mode, profile, template, limit, no_color,
    } = args;
    let output_mode = if template.is_some() {
        OutputMode::Text
    } else {
        mode_of_format(&format)
    };
    let stealth_active = stealth_mode.is_some();
    apply_privacy_mode(privacy_mode, &mut region, personalized, &mut no_personalized, true);
    if stealth_active {
        if concurrency.is_none() {
            concurrency = Some(1);
        }
        if rate_limit.is_none() {
            rate_limit = Some(20);
        }
    }
    let template_arg = clone_opt(&template);
    let mut argv = ArgList::one(lit("batch"));
    push_all(&mut argv, &queries);
    push_opt_u64(&mut argv, "--concurrency", concurrency);
    push_opt_u32(&mut argv, "--rate-limit", rate_limit);
    push_cli_format(&mut argv, format, output_mode);
    push_opt_value(&mut argv, "--snap", snap);
    push_opt_value(&mut argv, "--lens", lens);
    push_opt_value(&mut argv, "--region", region);
    push_opt_value(&mut argv, "--time", time);
    push_opt_value(&mut argv, "--from-date", from_date);
    push_opt_value(&mut argv, "--to-date", to_date);
    push_opt_value(&mut argv, "--order", order);
    push_opt_flag(&mut argv, "--verbatim", verbatim);
    push_opt_flag(&mut argv, "--personalized", personalized);
    push_opt_flag(&mut argv, "--no-personalized", no_personalized);
    push_opt_value(&mut argv, "--template", template_arg);
    push_opt_u64(&mut argv, "--limit", limit);
    let (local_cache, cache_ttl) = if stealth_active {
        (Some(true), Some(DEFAULT_STEALTH_CACHE_TTL_SECS))
    } else {
        (None, None)
    };
    push_opt_flag(&mut argv, "--local-cache", local_cache);
    push_opt_u64(&mut argv, "--cache-ttl", cache_ttl);
    push_opt_flag(&mut argv, "--no-color", no_color);
    let stdin = lines_stdin(&stdin_queries);
    assert(no_personalized == privacy_no_personalized(a.privacy_mode, a.personalized, a.no_personalized, true));
    assert(nat_of_u64(concurrency) == preset_default(stealth_active, nat_of_u64(a.concurrency), 1));
    assert(nat_of_u32(rate_limit) == preset_default(stealth_active, nat_of_u32(a.rate_limit), 20));
    assert(output_mode == templated_mode(a.template.deep_view(), a.format.deep_view()));
    CommandSpec {
        args: argv.into_vec(),
        stdin,
        output_mode,
        profile_override: profile,
        stealth: stealth_active,
    }
}

/// The invocation for a quick answer.
pub open spec fn quick_command(a: QuickArgs) -> SpecCommand {
    let mode = format_mode(a.format.deep_view());
    plain_command(
        seq!["quick"@, a.query@]
            + opt_text("--format"@, cli_format(a.format.deep_view(), mode))
            + opt_flag("--no-color"@, a.no_color)
            + opt_text("--lens"@, a.lens.deep_view())
            + opt_flag("--local-cache"@, a.local_cache)
            + opt_number("--cache-ttl"@, nat_of_u64(a.cache_ttl)),
        mode,
    )
}

/// Builds the `kagi quick` invocation.
pub fn quick(args: QuickArgs) -> (spec: CommandSpec)
    ensures
        spec@ == quick_command(args),
{
    let output_mode = mode_of_format(&args.format);
    let mut argv = ArgList::two(lit("quick"), args.query);
    push_cli_format(&mut argv, args.format, output_mode);
    push_opt_flag(&mut argv, "--no-color", args.no_color);
    push_opt_value(&mut argv, "--lens", args.lens);
    push_opt_flag(&mut argv, "--local-cache", args.local_cache);
    push_opt_u64(&mut argv, "--cache-ttl", args.cache_ttl);
    command_spec(argv.into_vec(), output_mode)
}

} // verus!
