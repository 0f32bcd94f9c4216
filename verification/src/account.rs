//! Invocations of the account-setting tools: lenses, custom assistants,
//! custom bangs and redirect rules.

use vstd::prelude::*;
use crate::args::{
    AssistantCustomCreateArgs, AssistantCustomOptions, AssistantCustomTargetArgs,
    AssistantCustomUpdateArgs, CustomBangCreateArgs, CustomBangOptions, CustomBangTargetArgs,
    CustomBangUpdateArgs, LensCreateArgs, LensOptions, LensTargetArgs, LensUpdateArgs,
    RedirectCreateArgs, RedirectTargetArgs, RedirectUpdateArgs,
};
use crate::argv::{opt_flag, opt_text, push_list, push_opt_flag, push_opt_value, ArgList};
use crate::command::{command_spec, plain_command, CommandSpec, OutputMode};
use crate::options::{ends_with, group_options, has_option, lemma_option_at_prefix, option_at};
use crate::text::lit;

verus! {

/// The options of a lens, as command-line arguments.
pub open spec fn lens_options_args(o: LensOptions) -> Seq<Seq<char>> {
    opt_text("--included-sites"@, o.included_sites.deep_view())
        + opt_text("--included-keywords"@, o.included_keywords.deep_view())
        + opt_text("--description"@, o.description.deep_view())
        + opt_text("--region"@, o.region.deep_view())
        + opt_text("--before-date"@, o.before_date.deep_view())
        + opt_text("--after-date"@, o.after_date.deep_view())
        + opt_text("--excluded-sites"@, o.excluded_sites.deep_view())
        + opt_text("--excluded-keywords"@, o.excluded_keywords.deep_view())
        + opt_text("--shortcut"@, o.shortcut.deep_view())
        + opt_flag("--autocomplete-keywords"@, o.autocomplete_keywords)
        + opt_flag("--no-autocomplete-keywords"@, o.no_autocomplete_keywords)
        + opt_text("--template"@, o.template.deep_view())
        + opt_text("--file-type"@, o.file_type.deep_view())
        + opt_flag("--share-with-team"@, o.share_with_team)
        + opt_flag("--no-share-with-team"@, o.no_share_with_team)
        + opt_flag("--share-copy-code"@, o.share_copy_code)
        + opt_flag("--no-share-copy-code"@, o.no_share_copy_code)
}

/// Appends the options of a lens.
pub fn push_lens_options(argv: &mut ArgList, options: LensOptions)
    ensures
        final(argv)@ == old(argv)@ + lens_options_args(options),
{
    let mut opts = ArgList::new();
    let ghost o = options;
    push_opt_value(&mut opts, "--included-sites", options.included_sites);
    assert(opts@ == opt_text("--included-sites"@, o.included_sites.deep_view()));
    push_opt_value(&mut opts, "--included-keywords", options.included_keywords);
    push_opt_value(&mut opts, "--description", options.description);
    push_opt_value(&mut opts, "--region", options.region);
    push_opt_value(&mut opts, "--before-date", options.before_date);
    push_opt_value(&mut opts, "--after-date", options.after_date);
    push_opt_value(&mut opts, "--excluded-sites", options.excluded_sites);
    push_opt_value(&mut opts, "--excluded-keywords", options.excluded_keywords);
    push_opt_value(&mut opts, "--shortcut", options.shortcut);
    push_opt_flag(&mut opts, "--autocomplete-keywords", options.autocomplete_keywords);
    push_opt_flag(&mut opts, "--no-autocomplete-keywords", options.no_autocomplete_keywords);
    push_opt_value(&mut opts, "--template", options.template);
    push_opt_value(&mut opts, "--file-type", options.file_type);
    push_opt_flag(&mut opts, "--share-with-team", options.share_with_team);
    push_opt_flag(&mut opts, "--no-share-with-team", options.no_share_with_team);
    push_opt_flag(&mut opts, "--share-copy-code", options.share_copy_code);
    push_opt_flag(&mut opts, "--no-share-copy-code", options.no_share_copy_code);
    push_list(argv, opts);
}

/// The options of a custom assistant, as command-line arguments.
pub open spec fn assistant_custom_options_args(o: AssistantCustomOptions) -> Seq<Seq<char>> {
    opt_text("--bang-trigger"@, o.bang_trigger.deep_view())
        + opt_flag("--web-access"@, o.web_access)
        + opt_flag("--no-web-access"@, o.no_web_access)
        + opt_text("--lens"@, o.lens.deep_view())
        + opt_flag("--personalized"@, o.personalized)
        + opt_flag("--no-personalized"@, o.no_personalized)
        + opt_text("--model"@, o.model.deep_view())
        + opt_text("--instructions"@, o.instructions.deep_view())
}

/// Appends the options of a custom assistant.
pub fn push_assistant_custom_options(argv: &mut ArgList, options: AssistantCustomOptions)
    ensures
        final(argv)@ == old(argv)@ + assistant_custom_options_args(options),
{
    let mut opts = ArgList::new();
    let ghost o = options;
    push_opt_value(&mut opts, "--bang-trigger", options.bang_trigger);
    assert(opts@ == opt_text("--bang-trigger"@, o.bang_trigger.deep_view()));
    push_opt_flag(&mut opts, "--web-access", options.web_access);
    push_opt_flag(&mut opts, "--no-web-access", options.no_web_access);
    push_opt_value(&mut opts, "--lens", options.lens);
    push_opt_flag(&mut opts, "--personalized", options.personalized);
    push_opt_flag(&mut opts, "--no-personalized", options.no_personalized);
    push_opt_value(&mut opts, "--model", options.model);
    push_opt_value(&mut opts, "--instructions", options.instructions);
    push_list(argv, opts);
}

/// The options of a custom bang, as command-line arguments.
pub open spec fn custom_bang_options_args(o: CustomBangOptions) -> Seq<Seq<char>> {
    opt_text("--template"@, o.template.deep_view())
        + opt_text("--snap-domain"@, o.snap_domain.deep_view())
        + opt_text("--regex-pattern"@, o.regex_pattern.deep_view())
        + opt_flag("--shortcut-menu"@, o.shortcut_menu)
        + opt_flag("--no-shortcut-menu"@, o.no_shortcut_menu)
        + opt_flag("--open-snap-domain"@, o.open_snap_domain)
        + opt_flag("--no-open-snap-domain"@, o.no_open_snap_domain)
        + opt_flag("--open-base-path"@, o.open_base_path)
        + opt_flag("--no-open-base-path"@, o.no_open_base_path)
        + opt_flag("--encode-placeholder"@, o.encode_placeholder)
        + opt_flag("--no-encode-placeholder"@, o.no_encode_placeholder)
        + opt_flag("--plus-for-space"@, o.plus_for_space)
        + opt_flag("--no-plus-for-space"@, o.no_plus_for_space)
}

/// Appends the options of a custom bang.
pub fn push_custom_bang_options(argv: &mut ArgList, options: CustomBangOptions)
    ensures
        final(argv)@ == old(argv)@ + custom_bang_options_args(options),
{
    let mut opts = ArgList::new();
    let ghost o = options;
    push_opt_value(&mut opts, "--template", options.template);
    assert(opts@ == opt_text("--template"@, o.template.deep_view()));
    push_opt_value(&mut opts, "--snap-domain", options.snap_domain);
    push_opt_value(&mut opts, "--regex-pattern", options.regex_pattern);
    push_opt_flag(&mut opts, "--shortcut-menu", options.shortcut_menu);
    push_opt_flag(&mut opts, "--no-shortcut-menu", options.no_shortcut_menu);
    push_opt_flag(&mut opts, "--open-snap-domain", options.open_snap_domain);
    push_opt_flag(&mut opts, "--no-open-snap-domain", options.no_open_snap_domain);
    push_opt_flag(&mut opts, "--open-base-path", options.open_base_path);
    push_opt_flag(&mut opts, "--no-open-base-path", options.no_open_base_path);
    push_opt_flag(&mut opts, "--encode-placeholder", options.encode_placeholder);
    push_opt_flag(&mut opts, "--no-encode-placeholder", options.no_encode_placeholder);
    push_opt_flag(&mut opts, "--plus-for-space", options.plus_for_space);
    push_opt_flag(&mut opts, "--no-plus-for-space", options.no_plus_for_space);
    push_list(argv, opts);
}

/// Builds the `kagi lens list` invocation.
pub fn lens_list() -> (spec: CommandSpec)
    ensures
        spec@ == plain_command(seq!["lens"@, "list"@], OutputMode::JsonToToon),
{
    command_spec(ArgList::two(lit("lens"), lit("list")).into_vec(), OutputMode::JsonToToon)
}

/// Builds the `kagi lens get` invocation.
pub fn lens_get(args: LensTargetArgs) -> (spec: CommandSpec)
    ensures
        spec@ == plain_command(seq!["lens"@, "get"@, args.target@], OutputMode::JsonToToon),
{
    command_spec(
        ArgList::three(lit("lens"), lit("get"), args.target).into_vec(),
        OutputMode::JsonToToon,
    )
}

/// Builds the `kagi lens create` invocation.
pub fn lens_create(args: LensCreateArgs) -> (spec: CommandSpec)
    ensures
        spec@ == plain_command(
            seq!["lens"@, "create"@, args.name@] + lens_options_args(args.options),
            OutputMode::JsonToToon,
        ),
        ends_with(spec@.args, lens_options_args(args.options)),
{
    let mut argv = ArgList::three(lit("lens"), lit("create"), args.name);
    push_lens_options(&mut argv, args.options);
    let spec = command_spec(argv.into_vec(), OutputMode::JsonToToon);
    proof {
        broadcast use group_options, lemma_option_at_prefix;
    }
    spec
}

/// Builds the `kagi lens update` invocation.
pub fn lens_update(args: LensUpdateArgs) -> (spec: CommandSpec)
    ensures
        spec@ == plain_command(
            seq!["lens"@, "update"@, args.target@]
                + opt_text("--name"@, args.name.deep_view())
                + lens_options_args(args.options),
            OutputMode::JsonToToon,
        ),
        args.name matches Some(v) ==> has_option(spec@.args, "--name"@, v@),
        ends_with(spec@.args, lens_options_args(args.options)),
{
    let mut argv = ArgList::three(lit("lens"), lit("update"), args.target);
    push_opt_value(&mut argv, "--name", args.name);
    push_lens_options(&mut argv, args.options);
    let spec = command_spec(argv.into_vec(), OutputMode::JsonToToon);
    proof {
        broadcast use group_options, lemma_option_at_prefix;
    }
    spec
}

/// Builds the `kagi lens delete` invocation.
pub fn lens_delete(args: LensTargetArgs) -> (spec: CommandSpec)
    ensures
        spec@ == plain_command(seq!["lens"@, "delete"@, args.target@], OutputMode::JsonToToon),
{
    command_spec(
        ArgList::three(lit("lens"), lit("delete"), args.target).into_vec(),
        OutputMode::JsonToToon,
    )
}

/// Builds the `kagi lens enable` invocation.
pub fn lens_enable(args: LensTargetArgs) -> (spec: CommandSpec)
    ensures
        spec@ == plain_command(seq!["lens"@, "enable"@, args.target@], OutputMode::JsonToToon),
{
    command_spec(
        ArgList::three(lit("lens"), lit("enable"), args.target).into_vec(),
        OutputMode::JsonToToon,
    )
}

/// Builds the `kagi lens disable` invocation.
pub fn lens_disable(args: LensTargetArgs) -> (spec: CommandSpec)
    ensures
        spec@ == plain_command(seq!["lens"@, "disable"@, args.target@], OutputMode::JsonToToon),
{
    command_spec(
        ArgList::three(lit("lens"), lit("disable"), args.target).into_vec(),
        OutputMode::JsonToToon,
    )
}

/// Builds the `kagi assistant custom list` invocation.
pub fn assistant_custom_list() -> (spec: CommandSpec)
    ensures
        spec@ == plain_command(seq!["assistant"@, "custom"@, "list"@], OutputMode::JsonToToon),
{
    command_spec(
        ArgList::three(lit("assistant"), lit("custom"), lit("list")).into_vec(),
        OutputMode::JsonToToon,
    )
}

/// Builds the `kagi assistant custom get` invocation.
pub fn assistant_custom_get(args: AssistantCustomTargetArgs) -> (spec: CommandSpec)
    ensures
        spec@ == plain_command(
            seq!["assistant"@, "custom"@, "get"@, args.target@],
            OutputMode::JsonToToon,
        ),
{
    command_spec(
        ArgList::four(lit("assistant"), lit("custom"), lit("get"), args.target).into_vec(),
        OutputMode::JsonToToon,
    )
}

/// Builds the `kagi assistant custom create` invocation.
pub fn assistant_custom_create(args: AssistantCustomCreateArgs) -> (spec: CommandSpec)
    ensures
        spec@ == plain_command(
            seq!["assistant"@, "custom"@, "create"@, args.name@]
                + assistant_custom_options_args(args.options),
            OutputMode::JsonToToon,
        ),
        ends_with(spec@.args, assistant_custom_options_args(args.options)),
{
    let mut argv = ArgList::four(lit("assistant"), lit("custom"), lit("create"), args.name);
    push_assistant_custom_options(&mut argv, args.options);
    let spec = command_spec(argv.into_vec(), OutputMode::JsonToToon);
    proof {
        broadcast use group_options, lemma_option_at_prefix;
    }
    spec
}

/// Builds the `kagi assistant custom update` invocation.
pub fn assistant_custom_update(args: AssistantCustomUpdateArgs) -> (spec: CommandSpec)
    ensures
        spec@ == plain_command(
            seq!["assistant"@, "custom"@, "update"@, args.target@]
                + opt_text("--name"@, args.name.deep_view())
                + assistant_custom_options_args(args.options),
            OutputMode::JsonToToon,
        ),
        args.name matches Some(v) ==> has_option(spec@.args, "--name"@, v@),
        ends_with(spec@.args, assistant_custom_options_args(args.options)),
{
    let mut argv = ArgList::four(lit("assistant"), lit("custom"), lit("update"), args.target);
    push_opt_value(&mut argv, "--name", args.name);
    push_assistant_custom_options(&mut argv, args.options);
    let spec = command_spec(argv.into_vec(), OutputMode::JsonToToon);
    proof {
        broadcast use group_options, lemma_option_at_prefix;
    }
    spec
}

/// Builds the `kagi assistant custom delete` invocation.
pub fn assistant_custom_delete(args: AssistantCustomTargetArgs) -> (spec: CommandSpec)
    ensures
        spec@ == plain_command(
            seq!["assistant"@, "custom"@, "delete"@, args.target@],
            OutputMode::JsonToToon,
        ),
{
    command_spec(
        ArgList::four(lit("assistant"), lit("custom"), lit("delete"), args.target).into_vec(),
        OutputMode::JsonToToon,
    )
}

/// Builds the `kagi bang custom list` invocation.
pub fn bang_custom_list() -> (spec: CommandSpec)
    ensures
        spec@ == plain_command(seq!["bang"@, "custom"@, "list"@], OutputMode::JsonToToon),
{
    command_spec(
        ArgList::three(lit("bang"), lit("custom"), lit("list")).into_vec(),
        OutputMode::JsonToToon,
    )
}

/// Builds the `kagi bang custom get` invocation.
pub fn bang_custom_get(args: CustomBangTargetArgs) -> (spec: CommandSpec)
    ensures
        spec@ == plain_command(
            seq!["bang"@, "custom"@, "get"@, args.target@],
            OutputMode::JsonToToon,
        ),
{
    command_spec(
        ArgList::four(lit("bang"), lit("custom"), lit("get"), args.target).into_vec(),
        OutputMode::JsonToToon,
    )
}

/// Builds the `kagi bang custom create` invocation.
pub fn bang_custom_create(args: CustomBangCreateArgs) -> (spec: CommandSpec)
    ensures
        spec@ == plain_command(
            seq!["bang"@, "custom"@, "create"@, args.name@]
                + seq!["--trigger"@, args.trigger@]
                + custom_bang_options_args(args.options),
            OutputMode::JsonToToon,
        ),
        has_option(spec@.args, "--trigger"@, args.trigger@),
        ends_with(spec@.args, custom_bang_options_args(args.options)),
{
    let ghost pair = seq!["--trigger"@, args.trigger@];
    let mut argv = ArgList::four(lit("bang"), lit("custom"), lit("create"), args.name);
    crate::argv::push_pair(&mut argv, lit("--trigger"), args.trigger);
    push_custom_bang_options(&mut argv, args.options);
    let spec = command_spec(argv.into_vec(), OutputMode::JsonToToon);
    proof {
        broadcast use group_options, lemma_option_at_prefix;
        assert(option_at(pair, 0, "--trigger"@, pair[1]));
    }
    spec
}

/// Builds the `kagi bang custom update` invocation.
pub fn bang_custom_update(args: CustomBangUpdateArgs) -> (spec: CommandSpec)
    ensures
        spec@ == plain_command(
            seq!["bang"@, "custom"@, "update"@, args.target@]
                + opt_text("--name"@, args.name.deep_view())
                + opt_text("--trigger"@, args.trigger.deep_view())
                + custom_bang_options_args(args.options),
            OutputMode::JsonToToon,
        ),
        args.name matches Some(v) ==> has_option(spec@.args, "--name"@, v@),
        args.trigger matches Some(v) ==> has_option(spec@.args, "--trigger"@, v@),
        ends_with(spec@.args, custom_bang_options_args(args.options)),
{
    let mut argv = ArgList::four(lit("bang"), lit("custom"), lit("update"), args.target);
    push_opt_value(&mut argv, "--name", args.name);
    push_opt_value(&mut argv, "--trigger", args.trigger);
    push_custom_bang_options(&mut argv, args.options);
    let spec = command_spec(argv.into_vec(), OutputMode::JsonToToon);
    proof {
        broadcast use group_options, lemma_option_at_prefix;
    }
    spec
}

/// Builds the `kagi bang custom delete` invocation.
pub fn bang_custom_delete(args: CustomBangTargetArgs) -> (spec: CommandSpec)
    ensures
        spec@ == plain_command(
            seq!["bang"@, "custom"@, "delete"@, args.target@],
            OutputMode::JsonToToon,
        ),
{
    command_spec(
        ArgList::four(lit("bang"), lit("custom"), lit("delete"), args.target).into_vec(),
        OutputMode::JsonToToon,
    )
}

/// Builds the `kagi redirect list` invocation.
pub fn redirect_list() -> (spec: CommandSpec)
    ensures
        spec@ == plain_command(seq!["redirect"@, "list"@], OutputMode::JsonToToon),
{
    command_spec(ArgList::two(lit("redirect"), lit("list")).into_vec(), OutputMode::JsonToToon)
}

/// Builds the `kagi redirect get` invocation.
pub fn redirect_get(args: RedirectTargetArgs) -> (spec: CommandSpec)
    ensures
        spec@ == plain_command(seq!["redirect"@, "get"@, args.target@], OutputMode::JsonToToon),
{
    command_spec(
        ArgList::three(lit("redirect"), lit("get"), args.target).into_vec(),
        OutputMode::JsonToToon,
    )
}

/// Builds the `kagi redirect create` invocation.
pub fn redirect_create(args: RedirectCreateArgs) -> (spec: CommandSpec)
    ensures
        spec@ == plain_command(seq!["redirect"@, "create"@, args.rule@], OutputMode::JsonToToon),
{
    command_spec(
        ArgList::three(lit("redirect"), lit("create"), args.rule).into_vec(),
        OutputMode::JsonToToon,
    )
}

/// Builds the `kagi redirect update` invocation.
pub fn redirect_update(args: RedirectUpdateArgs) -> (spec: CommandSpec)
    ensures
        spec@ == plain_command(
            seq!["redirect"@, "update"@, args.target@, args.rule@],
            OutputMode::JsonToToon,
        ),
{
    command_spec(
        ArgList::four(lit("redirect"), lit("update"), args.target, args.rule).into_vec(),
        OutputMode::JsonToToon,
    )
}

/// Builds the `kagi redirect delete` invocation.
pub fn redirect_delete(args: RedirectTargetArgs) -> (spec: CommandSpec)
    ensures
        spec@ == plain_command(seq!["redirect"@, "delete"@, args.target@], OutputMode::JsonToToon),
{
    command_spec(
        ArgList::three(lit("redirect"), lit("delete"), args.target).into_vec(),
        OutputMode::JsonToToon,
    )
}

/// Builds the `kagi redirect enable` invocation.
pub fn redirect_enable(args: RedirectTargetArgs) -> (spec: CommandSpec)
    ensures
        spec@ == plain_command(seq!["redirect"@, "enable"@, args.target@], OutputMode::JsonToToon),
{
    command_spec(
        ArgList::three(lit("redirect"), lit("enable"), args.target).into_vec(),
        OutputMode::JsonToToon,
    )
}

/// Builds the `kagi redirect disable` invocation.
pub fn redirect_disable(args: RedirectTargetArgs) -> (spec: CommandSpec)
    ensures
        spec@ == plain_command(seq!["redirect"@, "disable"@, args.target@], OutputMode::JsonToToon),
{
    command_spec(
        ArgList::three(lit("redirect"), lit("disable"), args.target).into_vec(),
        OutputMode::JsonToToon,
    )
}

} // verus!
