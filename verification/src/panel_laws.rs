//! What holds of the panel of containers, of the slide for logging in and of the page for sharing.
use crate::cloud_sharing_page::{SharingEffectView, relay_status, save_asked, stored};
use crate::docker_containers::{
    ContainerView, DockerContainerSortColumn, SortDirection, log_tail_command, logs_command,
};
use crate::docker_panel::{
    CommandContextView, DockerContainersLoadState, DockerEffectView, DockerPanelView, SessionLookup,
    container_before, container_with_id, is_found, session_context, shown_containers,
};
use crate::local_multi_agent::config::{AgentConfigView, config_error};
use crate::local_multi_agent::manager::TestStatusView;
use crate::login_slide::{
    LoginContextView, LoginEffectView, LoginSlideAction, LoginSlideEvent, LoginSlideSource,
    LoginStep, LoginView, SelectAuthNavView, StatusTone, entered_api_key, entered_base_url,
    form_status, layout_of, selected_choice,
};
use crate::server_url::url_parse;
use crate::shared_session::{
    RelayChangeView, SharingErrorView, normalized_relay, relay_change, sharing_error_message,
};
use crate::text::{contains_text, is_blank, lemma_trim_empty, lower, text_lt, trim, trim_end_char};
use crate::text_laws::law_lower;
use vstd::prelude::*;

verus! {

/// Containers are ordered by name or by image without regard to case, and by age with the earliest
/// first and those of unknown age last.
pub proof fn law_columns(a: ContainerView, b: ContainerView)
    ensures
        container_before(a, b, DockerContainerSortColumn::Name) <==> text_lt(
            lower(a.name),
            lower(b.name),
        ),
        container_before(a, b, DockerContainerSortColumn::Image) <==> text_lt(
            lower(a.image_name + ":"@ + a.image_tag),
            lower(b.image_name + ":"@ + b.image_tag),
        ),
        a.created_at is Some && b.created_at is Some ==> (container_before(
            a,
            b,
            DockerContainerSortColumn::Age,
        ) <==> a.created_at->0.before(b.created_at->0)),
        a.created_at is Some && b.created_at is None ==> container_before(
            a,
            b,
            DockerContainerSortColumn::Age,
        ),
        a.created_at is None ==> !container_before(a, b, DockerContainerSortColumn::Age),
{
}

/// A search without text finds every container; any other finds those whose name, image, tag or
/// identifier holds the text, without regard to case.
pub proof fn law_search(c: ContainerView, query: Seq<char>)
    ensures
        is_blank(query) ==> is_found(c, query),
        contains_text(lower(c.name), lower(trim(query))) ==> is_found(c, query),
        contains_text(lower(c.image_name), lower(trim(query))) ==> is_found(c, query),
        contains_text(lower(c.image_tag), lower(trim(query))) ==> is_found(c, query),
        contains_text(lower(c.id), lower(trim(query))) ==> is_found(c, query),
        lower(trim(query)).len() > 0 && is_found(c, query) ==> contains_text(
            lower(c.name),
            lower(trim(query)),
        ) || contains_text(lower(c.image_name), lower(trim(query))) || contains_text(
            lower(c.image_tag),
            lower(trim(query)),
        ) || contains_text(lower(c.id), lower(trim(query))),
{
    lemma_trim_empty(query);
    if is_blank(query) {
        assert(trim(query) =~= Seq::empty());
        law_lower(trim(query));
    }
}

/// The containers shown the other way round are the same in reverse.
pub proof fn law_direction(
    all: Seq<ContainerView>,
    query: Seq<char>,
    column: DockerContainerSortColumn,
)
    ensures
        shown_containers(all, query, column, SortDirection::Desc) == shown_containers(
            all,
            query,
            column,
            SortDirection::Asc,
        ).reverse(),
{
}

/// The containers are listed in the session that is found; else what is missing is told, and what
/// was listed stays.
pub proof fn law_containers_are_listed(
    panel: DockerPanelView,
    context: CommandContextView,
    containers: Seq<ContainerView>,
    error: Seq<char>,
)
    ensures
        panel.refreshed(Ok(context)).1.contains(DockerEffectView::ListContainers { context }),
        panel.refreshed(Ok(context)).0.load_state == DockerContainersLoadState::Loading,
        panel.refreshed(Ok(context)).0.containers == panel.containers,
        panel.refreshed(Err(error)).0.last_error == Some(error),
        panel.refreshed(Err(error)).0.containers == panel.containers,
        panel.refresh_finished(context, Ok(containers)).0.containers == containers,
        panel.refresh_finished(context, Ok(containers)).0.last_context == Some(context),
        panel.refresh_finished(context, Ok(containers)).0.last_error is None,
        panel.refresh_finished(context, Err(error)).0.containers == panel.containers,
        panel.refresh_finished(context, Err(error)).0.last_error == Some(error),
        panel.refresh_finished(context, Err(error)).0.last_context == panel.last_context,
        panel.refresh_finished(context, Err(error)).0.load_state
            == DockerContainersLoadState::Loaded,
{
    assert(panel.refreshed(Ok(context)).1[1] == (DockerEffectView::ListContainers { context }));
}

/// A container is found by its identifier where one has it.
pub proof fn law_container_by_id(all: Seq<ContainerView>, id: Seq<char>)
    ensures
        match container_with_id(all, id) {
            Some(c) => all.contains(c) && c.id == id,
            None => forall|i: int| 0 <= i < all.len() ==> (#[trigger] all[i]).id != id,
        },
    decreases all.len(),
{
    if all.len() > 0 {
        let rest = all.skip(1);
        law_container_by_id(rest, id);
        assert(all[0] == all[0]);
        if all[0].id != id {
            match container_with_id(rest, id) {
                Some(c) => {
                    let i = choose|i: int| 0 <= i < rest.len() && rest[i] == c;
                    assert(all[i + 1] == c);
                },
                None => {
                    assert forall|i: int| 0 <= i < all.len() implies (#[trigger] all[i]).id
                        != id by {
                        if i > 0 {
                            assert(rest[i - 1] == all[i]);
                        }
                    }
                },
            }
        }
    }
}

/// The log of a listed container is opened with the command that follows it where the containers
/// were listed, else in the active session; the log of any other is not.
pub proof fn law_log_is_opened(
    panel: DockerPanelView,
    id: Seq<char>,
    active: Result<CommandContextView, Seq<char>>,
    container: ContainerView,
    context: CommandContextView,
)
    ensures
        container_with_id(panel.containers, id) is None ==> panel.logs_opened(id, active).len()
            == 0,
        container_with_id(panel.containers, id) == Some(container) && panel.last_context == Some(
            context,
        ) ==> panel.logs_opened(id, active) == seq![
            DockerEffectView::OpenLogs {
                container_id: id,
                container_name: container.name,
                command: log_tail_command(id, context.log_target),
            },
        ],
        container_with_id(panel.containers, id) == Some(container) && panel.last_context is None
            && active == Ok::<CommandContextView, Seq<char>>(context) ==> panel.logs_opened(
            id,
            active,
        ) == seq![
            DockerEffectView::OpenLogs {
                container_id: id,
                container_name: container.name,
                command: log_tail_command(id, context.log_target),
            },
        ],
        container_with_id(panel.containers, id) == Some(container) && panel.last_context is None
            && active is Err ==> panel.logs_opened(id, active) == seq![
            DockerEffectView::OpenLogs {
                container_id: id,
                container_name: container.name,
                command: logs_command(id),
            },
        ],
{
    law_container_by_id(panel.containers, id);
}

/// A container is stopped where the containers were listed, else in the active session; where there
/// is neither, the reason is told and none is stopped.
pub proof fn law_container_is_stopped(
    panel: DockerPanelView,
    id: Seq<char>,
    active: Result<CommandContextView, Seq<char>>,
    context: CommandContextView,
    error: Seq<char>,
)
    ensures
        panel.last_context == Some(context) ==> panel.stop_asked(id, active).1.contains(
            DockerEffectView::StopContainer { context, container_id: id },
        ) && panel.stop_asked(id, active).0.stopping == panel.stopping.insert(id),
        panel.last_context is None && active == Ok::<CommandContextView, Seq<char>>(context)
            ==> panel.stop_asked(id, active).1.contains(
            DockerEffectView::StopContainer { context, container_id: id },
        ),
        panel.last_context is None && active == Err::<CommandContextView, Seq<char>>(error)
            ==> panel.stop_asked(id, active).0.last_error == Some(error) && panel.stop_asked(
            id,
            active,
        ).0.stopping == panel.stopping,
        panel.stop_finished(Err(error), active).0.last_error == Some(error),
        panel.stop_finished(Err(error), active).0.containers == panel.containers,
{
    if panel.last_context == Some(context) || (panel.last_context is None && active == Ok::<
        CommandContextView,
        Seq<char>,
    >(context)) {
        assert(panel.stop_asked(id, active).1[1] == (DockerEffectView::StopContainer {
            context,
            container_id: id,
        }));
    }
}

/// Each thing that is missing for a session is told in its own words.
pub proof fn law_missing_session(lookup: SessionLookup)
    ensures
        session_context(lookup) is Ok <==> lookup is Found,
        lookup matches SessionLookup::Found(context) ==> session_context(lookup) == Ok::<
            CommandContextView,
            Seq<char>,
        >(context@),
{
}

/// A connection is verified exactly where its test passed, a model is chosen, and what was tested
/// is what is entered.
pub proof fn law_verified_connection(view: LoginView, ctx: LoginContextView)
    ensures
        view.connection_verified(ctx) ==> ctx.test_status is Passed && view.ai_enabled && view.source
            == LoginSlideSource::OnboardingFlow && entered_api_key(ctx) == ctx.stored_api_key
            && ctx.config.openai_model is Some,
        !(ctx.test_status is Passed) ==> !view.connection_verified(ctx),
        ctx.config.openai_model is None ==> !view.connection_verified(ctx),
        ctx.config.openai_model matches Some(model) ==> (is_blank(model)
            ==> !view.connection_verified(ctx)),
        view.has_provider_setup() && ctx.test_status is Passed && (ctx.config.openai_model matches
            Some(model) && !is_blank(model)) && entered_api_key(ctx) == ctx.stored_api_key && (
        ctx.config.openai_base_url matches Some(url) && entered_base_url(ctx) == Some(
            trim_end_char(trim(url), '/'),
        )) ==> view.connection_verified(ctx),
{
}

/// A provider is saved with the address and the key that are entered, exactly where there is an
/// address and a key where one is needed; else what is missing is told.
pub proof fn law_provider_is_saved(view: LoginView, require_api_key: bool, ctx: LoginContextView)
    ensures
        ({
            let (next, told, ok) = view.provider_persisted(require_api_key, ctx);
            &&& (entered_base_url(ctx) is None ==> told.len() == 0 && !ok && next.setup_error
                == Some("OpenAI Base URL is required."@))
            &&& (entered_base_url(ctx) is Some && require_api_key && entered_api_key(ctx) is None
                ==> told.len() == 0 && !ok && next.setup_error == Some(
                "OpenAI API key is required."@,
            ))
            &&& (entered_base_url(ctx) matches Some(base_url) ==> (!require_api_key
                || entered_api_key(ctx) is Some ==> told == seq![
                LoginEffectView::SaveProvider { base_url, api_key: entered_api_key(ctx) },
            ] && (ok <==> config_error(
                AgentConfigView { openai_base_url: Some(base_url), ..ctx.config },
            ) is None)))
            &&& (ok ==> next.setup_error is None)
            &&& next.step == view.step
        }),
{
}

/// Logging in later makes no anonymous user where that is skipped, and one where it is not, and ends
/// the slide.
pub proof fn law_login_later(view: LoginView, ctx: LoginContextView)
    ensures
        view.login_later(ctx).contains(LoginEffectView::SkipLogin) <==> ctx.skips_anonymous_user,
        view.login_later(ctx).contains(LoginEffectView::CreateAnonymousUser)
            <==> !ctx.skips_anonymous_user,
        view.login_later(ctx).contains(
            LoginEffectView::Emit { event: LoginSlideEvent::LoginLaterConfirmed },
        ),
{
    let told = view.login_later(ctx);
    assert(told[2] == (LoginEffectView::Emit { event: LoginSlideEvent::LoginLaterConfirmed }));
    assert(told[1] == (if ctx.skips_anonymous_user {
        LoginEffectView::SkipLogin
    } else {
        LoginEffectView::CreateAnonymousUser
    }));
}

/// What each action leads to: which step is shown, and what is asked of the rest of the program.
pub proof fn law_actions(view: LoginView, ctx: LoginContextView)
    ensures
        view.after(LoginSlideAction::ShowSkipDialog, ctx).0.dialog_open,
        !view.after(LoginSlideAction::DismissDialog, ctx).0.dialog_open,
        !view.after(LoginSlideAction::ConfirmSkip, ctx).0.dialog_open,
        view.after(LoginSlideAction::Back, ctx).1 == seq![
            LoginEffectView::Emit { event: LoginSlideEvent::BackToOnboarding },
        ],
        view.after(LoginSlideAction::EnterToken, ctx).0.token_input_shown,
        ctx.product_name != "Slipstream"@ ==> view.after(
            LoginSlideAction::ShowPrivacySettings,
            ctx,
        ).0.step == LoginStep::PrivacySettings,
        ctx.product_name == "Slipstream"@ ==> view.after(
            LoginSlideAction::ShowPrivacySettings,
            ctx,
        ) == (view, Seq::<LoginEffectView>::empty()),
        view.after(LoginSlideAction::DismissNotification, ctx).0.failure is None,
        ctx.clipboard.len() > 0 ==> view.after(LoginSlideAction::PasteAuthUrl, ctx).1 == seq![
            LoginEffectView::ReadAuthUrl { url: ctx.clipboard },
        ],
        ctx.clipboard.len() == 0 ==> view.after(LoginSlideAction::PasteAuthUrl, ctx).1.len() == 0,
        view.source == LoginSlideSource::OnboardingFlow ==> view.after(
            LoginSlideAction::BackToSelectAuthPathway,
            ctx,
        ).0.step == LoginStep::SelectAuthPathway,
        !view.dialog_open && !view.has_provider_setup() ==> view.after(
            LoginSlideAction::Enter,
            ctx,
        ).0.step == LoginStep::BrowserOpen && view.after(LoginSlideAction::Enter, ctx).1.contains(
            LoginEffectView::OpenSignUpUrl,
        ),
{
    if !view.dialog_open && !view.has_provider_setup() {
        assert(view.after(LoginSlideAction::Enter, ctx).1[1] == LoginEffectView::OpenSignUpUrl);
    }
}

/// An error in the form is told before the state of the test; a test that was not run is not told
/// of.
pub proof fn law_form_status(error: Option<Seq<char>>, status: TestStatusView)
    ensures
        error matches Some(text) ==> form_status(error, status) == Some(
            (text, StatusTone::Failure),
        ),
        error is None ==> (form_status(error, status) is None <==> status is NotRun),
        error is None ==> (status matches TestStatusView::Failed { message } ==> form_status(
            error,
            status,
        ) == Some(("Connection failed: "@ + message, StatusTone::Failure))),
        error is None ==> (form_status(error, status) matches Some((text, tone)) ==> (tone
            == StatusTone::Success <==> status is Passed)),
{
}

/// The user can continue exactly where the connection is verified, and test exactly where an address
/// is entered and no test runs.
pub proof fn law_buttons(view: LoginView, ctx: LoginContextView, drive_name: Seq<char>)
    ensures
        view.select_auth_nav(ctx, drive_name) is Provider <==> view.has_provider_setup(),
        view.select_auth_nav(ctx, drive_name) matches SelectAuthNavView::Provider {
            can_test,
            can_continue,
            ..
        } ==> (can_continue <==> view.connection_verified(ctx)) && (can_test
            <==> entered_base_url(ctx) is Some && !(ctx.test_status is Testing)),
{
}

/// The choice that is marked is the configured one where it is offered, else the first; there is one
/// wherever anything is offered.
pub proof fn law_marked_choice(model: Option<Seq<char>>, choices: Seq<Seq<char>>)
    ensures
        selected_choice(model, choices) is Some <==> choices.len() > 0,
        selected_choice(model, choices) matches Some(choice) ==> choices.contains(choice),
        model is Some && choices.contains(model->0) ==> selected_choice(model, choices) == model,
        choices.len() > 0 && (model is None || !choices.contains(model->0)) ==> selected_choice(
            model,
            choices,
        ) == Some(choices[0]),
{
    if choices.len() > 0 {
        assert(choices.contains(choices[0]));
    }
}

/// The image shines through as much as it is opaque.
pub proof fn law_overlay(view: LoginView, opacity: u8)
    ensures
        layout_of(view, None).overlay_opacity is None,
        opacity <= 100 ==> (layout_of(view, Some(opacity)).overlay_opacity matches Some(overlay)
            && overlay + opacity == 100),
        opacity > 100 ==> layout_of(view, Some(opacity)).overlay_opacity == Some(0u8),
        layout_of(view, Some(opacity)).shows_skip_dialog <==> view.dialog_open,
        layout_of(view, Some(opacity)).shows_failure <==> view.failure is Some,
{
}

/// A relay is taken exactly where its address is one of a socket, without the blanks around it;
/// where none is given, none is taken.
pub proof fn law_relay(text: Seq<char>)
    ensures
        is_blank(text) ==> normalized_relay(text) == Ok::<Option<Seq<char>>, SharingErrorView>(
            None,
        ),
        !is_blank(text) ==> (normalized_relay(text) is Ok <==> (url_parse(trim(text)) matches Ok(url)
            && (url.scheme == "ws"@ || url.scheme == "wss"@))),
        !is_blank(text) && normalized_relay(text) is Ok ==> normalized_relay(text) == Ok::<
            Option<Seq<char>>,
            SharingErrorView,
        >(Some(trim(text))),
        !is_blank(text) && url_parse(trim(text)) is Err ==> normalized_relay(text) == Err::<
            Option<Seq<char>>,
            SharingErrorView,
        >(SharingErrorView::NotAUrl),
{
    lemma_trim_empty(text);
}

/// With the cloud the relay stays as it is. Without it, the relay that is given is used, and none
/// where none is given; a blank one is refused.
pub proof fn law_relay_change(
    relay_url: Option<Seq<char>>,
    text: Seq<char>,
    update_feature_flag: bool,
)
    ensures
        relay_change(false, relay_url, update_feature_flag) == Ok::<
            RelayChangeView,
            SharingErrorView,
        >(RelayChangeView::Keep),
        relay_change(true, None, update_feature_flag) == Ok::<RelayChangeView, SharingErrorView>(
            RelayChangeView::Clear { disable_sharing: update_feature_flag },
        ),
        is_blank(text) ==> relay_change(true, Some(text), update_feature_flag) == Err::<
            RelayChangeView,
            SharingErrorView,
        >(SharingErrorView::Empty),
        !is_blank(text) && normalized_relay(text) is Ok ==> relay_change(
            true,
            Some(text),
            update_feature_flag,
        ) == Ok::<RelayChangeView, SharingErrorView>(
            RelayChangeView::Use { address: trim(text), enable_sharing: update_feature_flag },
        ),
        normalized_relay(text) matches Err(error) ==> relay_change(
            true,
            Some(text),
            update_feature_flag,
        ) == Err::<RelayChangeView, SharingErrorView>(error),
{
    law_relay(text);
}

/// A relay is stored exactly where it is taken, as it is taken; else the reason is told, and nothing
/// is stored.
pub proof fn law_relay_is_stored(message: Option<Seq<char>>, input: Seq<char>)
    ensures
        normalized_relay(input) is Ok ==> save_asked(message, input).1 == seq![
            SharingEffectView::StoreRelay {
                value: if is_blank(input) {
                    Seq::<char>::empty()
                } else {
                    trim(input)
                },
            },
        ] && save_asked(message, input).0 == message,
        normalized_relay(input) matches Err(error) ==> save_asked(message, input).0 == Some(
            sharing_error_message(error),
        ) && save_asked(message, input).1 == seq![SharingEffectView::Notify],
{
    law_relay(input);
}

/// What was stored is applied, and the success told; where it could not be stored or applied, the
/// reason is told instead.
pub proof fn law_stored_relay_is_applied(
    relay: Option<Seq<char>>,
    store_error: Option<Seq<char>>,
    no_cloud: bool,
    store_failure: Seq<char>,
    apply_failure: Seq<char>,
    success: Seq<char>,
    change: RelayChangeView,
)
    ensures
        ({
            let (message, told) = stored(
                relay,
                store_error,
                no_cloud,
                store_failure,
                apply_failure,
                success,
            );
            &&& (store_error matches Some(error) ==> message == Some(store_failure + error) && told
                == seq![SharingEffectView::Notify])
            &&& (store_error is None && relay_change(no_cloud, relay, true) == Ok::<
                RelayChangeView,
                SharingErrorView,
            >(change) ==> message is None && told.contains(SharingEffectView::ApplyRelay { change })
                && told.contains(SharingEffectView::Toast { message: success }))
            &&& (store_error is None ==> (relay_change(no_cloud, relay, true) matches Err(error)
                ==> message == Some(apply_failure + sharing_error_message(error)) && told == seq![
                SharingEffectView::Notify,
            ]))
        }),
{
    let told = stored(relay, store_error, no_cloud, store_failure, apply_failure, success).1;
    if store_error is None && relay_change(no_cloud, relay, true) == Ok::<
        RelayChangeView,
        SharingErrorView,
    >(change) {
        assert(told[0] == (SharingEffectView::ApplyRelay { change }));
        assert(told[1] == (SharingEffectView::Toast { message: success }));
    }
}

/// The relay that is active is told before the one that is configured; with the cloud, that it is
/// kept for later.
pub proof fn law_relay_status(active: Seq<char>, configured: Seq<char>, other: Option<Seq<char>>)
    ensures
        relay_status(true, Some(active), other) == "Active relay: "@ + active,
        relay_status(true, None, Some(configured)) == "Configured relay: "@ + configured,
        relay_status(false, other, Some(configured)) == "Saved for no-cloud mode: "@ + configured,
        relay_status(true, None, None) == "No relay configured"@,
        relay_status(false, other, None) == "No-cloud mode is off"@,
{
}

} // verus!
