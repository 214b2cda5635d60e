//! What holds of the texts of the slide for logging in, of errors in documents, and of what is
//! stored.
use crate::docker_containers::fallback_host;
use crate::json::{JsonView, compact_text};
use crate::local_multi_agent::config::{
    AgentConfigView, distinct_onto, is_token_count, listed_model,
};
use crate::local_multi_agent::manager::{ManagerEffectView, TestStatusView, fresh_manager};
use crate::local_multi_agent::service_laws::law_bytes_read_back;
use crate::local_multi_agent::stored::{config_json, config_members, fingerprint, sha256_of};
use crate::login_slide::{
    AuthManagerEvent, LoginContextView, LoginEffectView, LoginFailureReason, LoginSlideAction,
    LoginSlideSource, LoginStep, LoginTelemetry, LoginView, OnboardingIntention,
    UserAuthenticationError, failure_of, first_step, form_status, skip_dialog_of, visual_path,
};
use crate::shape::{
    Shape, entries_fault, entry_fault, flag_fault, missing_field, optional_text_fault, text_fault,
};
use crate::ssh_transport::failure_text;
use crate::text::{decimal, signed_decimal, words};
use crate::text_laws::law_decimal_reads_back;
use crate::warpify::{is_wsl_shell_flag, starts_wsl_shell};
use vstd::prelude::*;

verus! {

proof fn lemma_theme_names()
    ensures
        "Phenomenon"@ != "Light"@,
        "Phenomenon"@ != "Adeberry"@,
        "Light"@ != "Adeberry"@,
{
    reveal_strlit("Phenomenon");
    reveal_strlit("Light");
    reveal_strlit("Adeberry");
    assert("Phenomenon"@.len() == 10);
    assert("Light"@.len() == 5);
    assert("Adeberry"@.len() == 8);
}

/// The picture goes by what the user wants, by the theme and by the side that the tabs are on.
pub proof fn law_picture(intention: OnboardingIntention, theme_name: Seq<char>, vertical: bool)
    ensures
        visual_path(OnboardingIntention::Terminal, "Light"@, true)
            == "async/png/onboarding/"@ + "terminal_intention"@ + "/theme/theme_"@ + "light"@
            + "_vertical.png"@,
        visual_path(OnboardingIntention::AgentDrivenDevelopment, "Phenomenon"@, false)
            == "async/png/onboarding/"@ + "agent_intention"@ + "/theme/theme_"@ + "phenomenon"@
            + "_horizontal.png"@,
        visual_path(intention, "Adeberry"@, vertical) == "async/png/onboarding/"@ + (if intention
            == OnboardingIntention::Terminal {
            "terminal_intention"@
        } else {
            "agent_intention"@
        }) + "/theme/theme_"@ + "adeberry"@ + (if vertical {
            "_vertical.png"@
        } else {
            "_horizontal.png"@
        }),
        theme_name != "Phenomenon"@ && theme_name != "Light"@ && theme_name != "Adeberry"@
            ==> visual_path(intention, theme_name, vertical) == "async/png/onboarding/"@ + (
        if intention == OnboardingIntention::Terminal {
            "terminal_intention"@
        } else {
            "agent_intention"@
        }) + "/theme/theme_"@ + "dark"@ + (if vertical {
            "_vertical.png"@
        } else {
            "_horizontal.png"@
        }),
{
    lemma_theme_names();
}

/// Each way to the slide starts with its own step.
pub proof fn law_first_step(source: LoginSlideSource)
    ensures
        first_step(source) == LoginStep::SelectAuthPathway <==> source
            == LoginSlideSource::OnboardingFlow,
        first_step(source) == LoginStep::BrowserOpen <==> source
            == LoginSlideSource::LoginExistingUserFromWelcome,
        first_step(source) == LoginStep::PrivacySettings <==> source
            == LoginSlideSource::PrivacySettingsFromTerminalIntentionTheme,
{
}

/// Every failure to log in is shown as what it is, and nothing else is shown as a failure.
pub proof fn law_login_failures(error: UserAuthenticationError)
    ensures
        failure_of(AuthManagerEvent::AuthFailed(error)) is Some,
        failure_of(AuthManagerEvent::Other) is None,
        failure_of(AuthManagerEvent::AuthFailed(UserAuthenticationError::InvalidStateParameter))
            == Some(LoginFailureReason::InvalidStateParameter),
        failure_of(AuthManagerEvent::AuthFailed(UserAuthenticationError::MissingStateParameter))
            == Some(LoginFailureReason::MissingStateParameter),
        failure_of(AuthManagerEvent::MintCustomTokenFailed) == Some(
            LoginFailureReason::FailedMintCustomToken,
        ),
        failure_of(AuthManagerEvent::CreateAnonymousUserFailed) == Some(
            LoginFailureReason::FailedUserAuthentication,
        ),
{
}

/// The slide speaks of the provider exactly where one is to be set up, and then has the form and no
/// link to the terms; the product's own build does not speak of privacy.
pub proof fn law_slide_content(view: LoginView, product_name: Seq<char>, status: TestStatusView)
    ensures
        ({
            let content = view.select_auth_content(product_name, status);
            &&& (content.form is Some <==> view.has_provider_setup())
            &&& (content.has_terms_link <==> !view.has_provider_setup())
            &&& (content.privacy_prefix is None <==> product_name == "Slipstream"@)
            &&& (view.has_provider_setup() ==> content.title == "Connect your AI provider"@)
            &&& (!view.has_provider_setup() && view.intention == OnboardingIntention::Terminal
                ==> content.title == "Get started with "@ + product_name + " Drive"@)
            &&& (!view.has_provider_setup() && view.intention != OnboardingIntention::Terminal
                ==> content.title == "Get started with AI"@)
            &&& (content.form matches Some((verified, told)) ==> (verified <==> status is Passed)
                && told == form_status(view.setup_error, status))
        }),
{
}

/// The dialog speaks of what the user came for.
pub proof fn law_skip_dialog(product_name: Seq<char>, drive_name: Seq<char>)
    ensures
        skip_dialog_of(
            OnboardingIntention::Terminal,
            product_name,
            drive_name,
        ).lists_drive_features,
        !skip_dialog_of(
            OnboardingIntention::AgentDrivenDevelopment,
            product_name,
            drive_name,
        ).lists_drive_features,
        skip_dialog_of(OnboardingIntention::Terminal, product_name, drive_name).cancel_label
            == "Enable "@ + drive_name,
        skip_dialog_of(
            OnboardingIntention::AgentDrivenDevelopment,
            product_name,
            drive_name,
        ).cancel_label == "Enable AI features"@,
{
}

/// The text can be edited exactly where an input is shown.
pub proof fn law_inputs(view: LoginView)
    ensures
        view.step == LoginStep::BrowserOpen ==> (view.allows_text_input()
            <==> view.token_input_shown),
        view.step == LoginStep::SelectAuthPathway ==> (view.allows_text_input()
            <==> view.has_provider_setup()),
        view.step == LoginStep::PrivacySettings ==> !view.allows_text_input(),
{
}

/// A command starts a shell of a subsystem where it names the program alone, or with a flag of a
/// shell next; with any other word next it does not.
pub proof fn law_subsystem_shell(command: Seq<char>, flag: Seq<char>)
    ensures
        words(command).len() == 0 ==> !starts_wsl_shell(command),
        words(command).len() == 1 ==> (starts_wsl_shell(command) <==> words(command)[0] == "wsl"@
            || words(command)[0] == "wsl.exe"@),
        words(command).len() > 1 && words(command)[0] == "wsl"@ ==> (starts_wsl_shell(command)
            <==> is_wsl_shell_flag(words(command)[1])),
        words(command).len() > 0 && words(command)[0] != "wsl"@ && words(command)[0] != "wsl.exe"@
            ==> !starts_wsl_shell(command),
        is_wsl_shell_flag("-d"@) && is_wsl_shell_flag("--distribution"@) && is_wsl_shell_flag("-u"@)
            && is_wsl_shell_flag("--cd"@) && is_wsl_shell_flag("--system"@) && is_wsl_shell_flag(
            "--shell-type"@,
        ),
        is_wsl_shell_flag(flag) ==> flag == "-d"@ || flag == "--distribution"@ || flag == "-u"@
            || flag == "--cd"@ || flag == "--system"@ || flag == "--shell-type"@,
{
}

/// The first member at fault is told before any later one, and a missing one only where none is at
/// fault.
pub proof fn law_first_fault_is_told<S: Shape>(entries: Seq<(Seq<char>, JsonView)>, i: int)
    requires
        0 <= i < entries.len(),
        entry_fault::<S>(entries, i) is Some,
        forall|j: int| 0 <= j < i ==> (#[trigger] entry_fault::<S>(entries, j)) is None,
    ensures
        entries_fault::<S>(entries, 0) == entry_fault::<S>(entries, i),
{
    lemma_first_fault::<S>(entries, 0, i);
}

proof fn lemma_first_fault<S: Shape>(entries: Seq<(Seq<char>, JsonView)>, a: int, i: int)
    requires
        0 <= a <= i < entries.len(),
        entry_fault::<S>(entries, i) is Some,
        forall|j: int| a <= j < i ==> (#[trigger] entry_fault::<S>(entries, j)) is None,
    ensures
        entries_fault::<S>(entries, a) == entry_fault::<S>(entries, i),
    decreases i - a,
{
    if a < i {
        assert(entry_fault::<S>(entries, a) is None);
        lemma_first_fault::<S>(entries, a + 1, i);
    }
}

/// What is wrong with a member is told with its name, its kind and the kind that was expected; a
/// member that nothing asks for is not looked at.
pub proof fn law_fault_of_a_member<S: Shape>(
    entries: Seq<(Seq<char>, JsonView)>,
    i: int,
    j: int,
    name: Seq<char>,
    text: Seq<char>,
    b: bool,
)
    ensures
        text_fault(name, JsonView::Text(text)) is None,
        text_fault(name, JsonView::Null) == Some(
            "invalid type: "@ + "null"@ + ", expected "@ + "a string"@ + " in field `"@ + name
                + "`"@,
        ),
        optional_text_fault(name, JsonView::Null) is None,
        flag_fault(name, JsonView::Bool(b)) is None,
        flag_fault(name, JsonView::Text(text)) is Some,
        missing_field(name) == "missing field `"@ + name + "`"@,
        0 <= i < entries.len() && !S::names().contains(
            entries[i].0
        ) ==> entry_fault::<S>(entries, i)
            is None,
        0 <= j < i < entries.len() && entries[j].0 == entries[i].0 && S::names().contains(
            entries[i].0,
        ) ==> entry_fault::<S>(entries, i) == Some("duplicate field `"@ + entries[i].0 + "`"@),
{
}

/// Each member of a stored configuration is written under its name, in order, with its value.
pub proof fn law_stored_members(config: AgentConfigView)
    ensures
        config_members(config).len() == 13,
        config_members(config)[0] == "\"host\":"@ + compact_text(JsonView::Text(config.host)),
        config_members(config)[1] == "\"port\":"@ + decimal(config.port as nat),
        config.openai_model is None ==> config_members(config)[3] == "\"openai_model\":"@ + "null"@,
        config.openai_model matches Some(model) ==> config_members(config)[3]
            == "\"openai_model\":"@ + compact_text(JsonView::Text(model)),
        config_members(config)[6] == "\"local_enable_tools\":"@ + (if config.local_enable_tools {
            "true"@
        } else {
            "false"@
        }),
        config_members(config)[7] == "\"local_max_history_messages\":"@ + decimal(
            config.local_max_history_messages as nat,
        ),
        config_members(config)[10] == "\"log_level\":"@ + compact_text(
            JsonView::Text(config.log_level),
        ),
        config_json(config).len() >= 2,
        config_json(config)[0] == "{"@[0],
{
    reveal_strlit("{");
    reveal_strlit("}");
}

/// The fingerprint of a configuration has sixteen digits, and is that of the stored text alone.
pub proof fn law_fingerprint(a: AgentConfigView, b: AgentConfigView)
    requires
        sha256_of(config_json(a)).len() == 32,
    ensures
        fingerprint(a).len() == 16,
        config_json(a) == config_json(b) ==> fingerprint(a) == fingerprint(b),
{
    law_bytes_read_back(sha256_of(config_json(a)).take(8));
}

/// A fresh manager starts the service without the cloud, and leaves it off with the cloud.
pub proof fn law_fresh_manager(config: AgentConfigView)
    ensures
        fresh_manager(config, true).0.status is Restarting,
        fresh_manager(config, true).0.restart_planned,
        fresh_manager(config, true).1.contains(ManagerEffectView::ScheduleRestart),
        fresh_manager(config, false).0.status is Disabled,
        !fresh_manager(config, false).0.restart_planned,
        !fresh_manager(config, true).0.has_child,
        !fresh_manager(config, false).0.has_child,
        fresh_manager(config, true).0.config == config,
        fresh_manager(config, false).0.config == config,
{
    let told = fresh_manager(config, true).1;
    assert(told[told.len() - 1] == ManagerEffectView::ScheduleRestart);
}

/// A failing command is told with its exit code, or with minus one where it has none.
pub proof fn law_failing_command(what: Seq<char>, code: i32, stderr: Seq<char>)
    ensures
        failure_text(what, Some(code), stderr) == what + " exited with code "@ + signed_decimal(
            code as int,
        ) + ": "@ + stderr,
        failure_text(what, None, stderr) == what + " exited with code "@ + signed_decimal(-1)
            + ": "@ + stderr,
        code >= 0 ==> signed_decimal(code as int) == decimal(code as nat),
        code < 0 ==> signed_decimal(code as int) == "-"@ + decimal((-(code as int)) as nat),
{
}

/// A host is named with its user exactly where both are known.
pub proof fn law_named_host(user: Seq<char>, hostname: Seq<char>)
    ensures
        user.len() > 0 && hostname.len() > 0 ==> fallback_host(user, hostname) == user + "@"@
            + hostname,
        user.len() == 0 || hostname.len() == 0 ==> fallback_host(user, hostname) == hostname,
{
}

/// A model in a list is a text, or the identifier of an object.
pub proof fn law_model_in_a_list(item: JsonView, id: Seq<char>)
    ensures
        listed_model(JsonView::Text(id)) == Some(id),
        item.get("id"@) == Some(JsonView::Text(id)) ==> listed_model(item) == Some(id),
        item is Object && item.get("id"@) is None ==> listed_model(item) is None,
        item is Null ==> listed_model(item) is None,
{
}

/// A count of tokens is a whole number above zero that 32 bits hold.
pub proof fn law_token_count(n: u64)
    ensures
        is_token_count(decimal(n as nat)) <==> 0 < n <= 0xffff_ffff,
{
    law_decimal_reads_back(n);
}

/// Texts are added in order, each once, behind those that are there.
pub proof fn law_texts_are_added_once(
    first: Seq<Seq<char>>,
    texts: Seq<Seq<char>>,
    last: Seq<char>,
)
    ensures
        distinct_onto(first, texts.push(last)).contains(last),
        distinct_onto(first, texts).contains(last) ==> distinct_onto(first, texts.push(last))
            == distinct_onto(first, texts),
        !distinct_onto(first, texts).contains(last) ==> distinct_onto(first, texts.push(last))
            == distinct_onto(first, texts).push(last),
        distinct_onto(first, Seq::empty()) == first,
{
    assert(texts.push(last).drop_last() =~= texts);
    let before = distinct_onto(first, texts);
    if !before.contains(last) {
        assert(before.push(last)[before.len() as int] == last);
    }
}

/// What the user does is reported: at once where the slide ends or leaves its steps, else when there
/// is time.
pub proof fn law_reported_actions(view: LoginView, ctx: LoginContextView)
    ensures
        !view.dialog_open && !view.has_provider_setup() ==> view.after(
            LoginSlideAction::Enter,
            ctx,
        ).1[0] == (LoginEffectView::Telemetry {
            event: LoginTelemetry::LoginButtonClicked,
            at_once: false,
        }),
        view.after(LoginSlideAction::ShowSkipDialog, ctx).1[0] == (LoginEffectView::Telemetry {
            event: LoginTelemetry::LoginLaterButtonClicked,
            at_once: false,
        }),
        view.after(LoginSlideAction::ConfirmSkip, ctx).1[0] == (LoginEffectView::Telemetry {
            event: LoginTelemetry::LoginLaterConfirmationButtonClicked,
            at_once: true,
        }),
        ctx.product_name != "Slipstream"@ ==> view.after(
            LoginSlideAction::ShowPrivacySettings,
            ctx,
        ).1[0] == (LoginEffectView::Telemetry {
            event: LoginTelemetry::OpenAuthPrivacySettings,
            at_once: true,
        }),
        view.after(LoginSlideAction::ToggleTelemetry, ctx).1[0] == LoginEffectView::ToggleTelemetry,
        view.after(LoginSlideAction::ToggleCrashReporting, ctx).1[0]
            == LoginEffectView::ToggleCrashReporting,
        view.after(LoginSlideAction::ToggleCloudConversationStorage, ctx).1[0]
            == LoginEffectView::ToggleCloudConversationStorage,
        view.after(LoginSlideAction::CopyLoginUrl, ctx).1 == seq![LoginEffectView::CopySignInUrl],
{
}

} // verus!
