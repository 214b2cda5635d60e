//! The page of the settings on which the relay for shared sessions is entered.
use crate::shared_session::{
    RelayChange, RelayChangeView, apply_session_sharing_server_url, law_relay_is_normal,
    normalize_session_sharing_server_url, normalized_relay, relay_change, sharing_error_message,
};
use crate::text::{blank, concat2, is_blank, opt_str_view, opt_view};
use vstd::prelude::*;

verus! {

/// What the user asks for.
#[derive(Clone, Copy, Debug, PartialEq, Eq, Structural)]
pub enum CloudSharingPageAction {
    SaveRelayUrl,
    ClearRelayUrl,
}

/// What the page asks of its surroundings.
#[derive(Debug, PartialEq, Eq)]
pub enum CloudSharingEffect {
    /// Draw the page again.
    Notify,
    /// Put a text into the input.
    SetInput { text: String },
    /// Store the relay in the settings; the page is told what came of it.
    StoreRelay { value: String },
    /// Change the relay that is used.
    ApplyRelay { change: RelayChange },
    /// Show a message for a while.
    Toast { message: String },
}

/// The model of a `CloudSharingEffect`.
pub enum SharingEffectView {
    Notify,
    SetInput { text: Seq<char> },
    StoreRelay { value: Seq<char> },
    ApplyRelay { change: RelayChangeView },
    Toast { message: Seq<char> },
}

impl CloudSharingEffect {
    pub open spec fn view(&self) -> SharingEffectView {
        match self {
            CloudSharingEffect::Notify => SharingEffectView::Notify,
            CloudSharingEffect::SetInput { text } => SharingEffectView::SetInput { text: text@ },
            CloudSharingEffect::StoreRelay { value } => SharingEffectView::StoreRelay {
                value: value@,
            },
            CloudSharingEffect::ApplyRelay { change } => SharingEffectView::ApplyRelay {
                change: change@,
            },
            CloudSharingEffect::Toast { message } => SharingEffectView::Toast { message: message@ },
        }
    }
}

/// The models of a list of effects.
pub open spec fn sharing_effects(effects: Seq<CloudSharingEffect>) -> Seq<SharingEffectView> {
    effects.map_values(|e: CloudSharingEffect| e@)
}

/// What the page says of the relay.
pub open spec fn relay_status(
    is_no_cloud: bool,
    active: Option<Seq<char>>,
    configured: Option<Seq<char>>,
) -> Seq<char> {
    match (is_no_cloud, active, configured) {
        (true, Some(active), _) => "Active relay: "@ + active,
        (true, None, Some(configured)) => "Configured relay: "@ + configured,
        (true, None, None) => "No relay configured"@,
        (false, _, Some(configured)) => "Saved for no-cloud mode: "@ + configured,
        (false, _, None) => "No-cloud mode is off"@,
    }
}

/// What the page says of the relay.
pub fn status_text(is_no_cloud: bool, active: Option<&str>, configured: Option<&str>) -> (r: String)
    ensures
        r@ == relay_status(is_no_cloud, opt_str_view(active), opt_str_view(configured)),
{
    match (is_no_cloud, active, configured) {
        (true, Some(active), _) => concat2("Active relay: ", active),
        (true, None, Some(configured)) => concat2("Configured relay: ", configured),
        (true, None, None) => "No relay configured".to_owned(),
        (false, _, Some(configured)) => concat2("Saved for no-cloud mode: ", configured),
        (false, _, None) => "No-cloud mode is off".to_owned(),
    }
}

/// What was entered can be saved: nothing, or the address of a relay.
pub fn can_save(input: &str) -> (r: bool)
    ensures
        r == (is_blank(input@) || normalized_relay(input@) is Ok),
{
    blank(input) || normalize_session_sharing_server_url(input).is_ok()
}

/// What is stored for a relay: nothing where there is none.
pub open spec fn stored_relay(relay: Option<Seq<char>>) -> Seq<char> {
    match relay {
        Some(relay) => relay,
        None => Seq::empty(),
    }
}

/// The relay that was entered is stored, or what is wrong with it is said.
pub open spec fn save_asked(message: Option<Seq<char>>, input: Seq<char>) -> (
    Option<Seq<char>>,
    Seq<SharingEffectView>,
) {
    match normalized_relay(input) {
        Ok(relay) => (
            message,
            seq![SharingEffectView::StoreRelay { value: stored_relay(relay) }],
        ),
        Err(error) => (Some(sharing_error_message(error)), seq![SharingEffectView::Notify]),
    }
}

/// What follows after a relay was stored: it is used, or what went wrong is said.
pub open spec fn stored(
    relay: Option<Seq<char>>,
    store_error: Option<Seq<char>>,
    no_cloud: bool,
    store_failure: Seq<char>,
    apply_failure: Seq<char>,
    success: Seq<char>,
) -> (Option<Seq<char>>, Seq<SharingEffectView>) {
    match store_error {
        Some(error) => (Some(store_failure + error), seq![SharingEffectView::Notify]),
        None => match relay_change(no_cloud, relay, true) {
            Err(error) => (
                Some(apply_failure + sharing_error_message(error)),
                seq![SharingEffectView::Notify],
            ),
            Ok(change) => (
                None,
                seq![
                    SharingEffectView::ApplyRelay { change },
                    SharingEffectView::Toast { message: success },
                    SharingEffectView::Notify,
                ],
            ),
        },
    }
}

/// A relay that was saved and stored is used as it was stored: the address is taken over without
/// an error, with the cloud or without.
pub proof fn law_saved_relay_is_used(input: Seq<char>, no_cloud: bool)
    requires
        normalized_relay(input) is Ok,
    ensures
        relay_change(no_cloud, normalized_relay(input)->Ok_0, true) is Ok,
{
    if let Ok(Some(address)) = normalized_relay(input) {
        law_relay_is_normal(input, address);
    }
}

/// The page: what is wrong with what was entered.
#[derive(Debug)]
pub struct CloudSharingPageView {
    validation_message: Option<String>,
}

fn push_sharing(effects: &mut Vec<CloudSharingEffect>, effect: CloudSharingEffect)
    ensures
        sharing_effects(final(effects)@) == sharing_effects(old(effects)@).push(effect@),
{
    let ghost before = sharing_effects(effects@);
    effects.push(effect);
    assert(sharing_effects(effects@) =~= before.push(effect@));
}

fn no_sharing_effects() -> (r: Vec<CloudSharingEffect>)
    ensures
        sharing_effects(r@) == Seq::<SharingEffectView>::empty(),
{
    let r: Vec<CloudSharingEffect> = Vec::new();
    assert(sharing_effects(r@) =~= Seq::empty());
    r
}

impl CloudSharingPageView {
    pub closed spec fn view(&self) -> Option<Seq<char>> {
        opt_view(self.validation_message)
    }

    /// A page without a message.
    pub fn new() -> (r: Self)
        ensures
            r@ is None,
    {
        CloudSharingPageView { validation_message: None }
    }

    /// What is wrong with what was entered.
    pub fn validation_message(&self) -> (r: Option<&str>)
        ensures
            opt_str_view(r) == self@,
    {
        match &self.validation_message {
            Some(message) => Some(message.as_str()),
            None => None,
        }
    }

    /// Something was typed: the message goes.
    pub fn handle_edit(&mut self) -> (r: Vec<CloudSharingEffect>)
        ensures
            final(self)@ is None,
            sharing_effects(r@) == seq![SharingEffectView::Notify],
    {
        self.validation_message = None;
        let mut effects = no_sharing_effects();
        push_sharing(&mut effects, CloudSharingEffect::Notify);
        assert(sharing_effects(effects@) =~= seq![SharingEffectView::Notify]);
        effects
    }

    /// Saves the relay that was entered.
    pub fn save_relay_url(&mut self, input: &str) -> (r: Vec<CloudSharingEffect>)
        ensures
            (final(self)@, sharing_effects(r@)) == save_asked(old(self)@, input@),
    {
        let ghost result = save_asked(self@, input@);
        let mut effects = no_sharing_effects();
        match normalize_session_sharing_server_url(input) {
            Ok(relay) => {
                let value = match relay {
                    Some(relay) => relay,
                    None => {
                        let none = String::new();
                        assert(none@ =~= Seq::empty());
                        none
                    },
                };
                push_sharing(&mut effects, CloudSharingEffect::StoreRelay { value });
            },
            Err(error) => {
                self.validation_message = Some(error.message());
                push_sharing(&mut effects, CloudSharingEffect::Notify);
            },
        }
        assert(sharing_effects(effects@) =~= result.1);
        effects
    }

    /// Empties the input and clears the relay.
    pub fn clear_relay_url(&self) -> (r: Vec<CloudSharingEffect>)
        ensures
            sharing_effects(r@) == seq![
                SharingEffectView::SetInput { text: Seq::empty() },
                SharingEffectView::StoreRelay { value: Seq::empty() },
            ],
    {
        let mut effects = no_sharing_effects();
        let text = String::new();
        let value = String::new();
        assert(text@ =~= Seq::empty());
        assert(value@ =~= Seq::empty());
        push_sharing(&mut effects, CloudSharingEffect::SetInput { text });
        push_sharing(&mut effects, CloudSharingEffect::StoreRelay { value });
        assert(sharing_effects(effects@) =~= seq![
            SharingEffectView::SetInput { text: Seq::empty() },
            SharingEffectView::StoreRelay { value: Seq::empty() },
        ]);
        effects
    }

    fn finish(
        &mut self,
        relay: Option<&str>,
        store_error: Option<&str>,
        no_cloud: bool,
        store_failure: &str,
        apply_failure: &str,
        success: &str,
    ) -> (r: Vec<CloudSharingEffect>)
        ensures
            (final(self)@, sharing_effects(r@)) == stored(
                opt_str_view(relay),
                opt_str_view(store_error),
                no_cloud,
                store_failure@,
                apply_failure@,
                success@,
            ),
    {
        let ghost result = stored(
            opt_str_view(relay),
            opt_str_view(store_error),
            no_cloud,
            store_failure@,
            apply_failure@,
            success@,
        );
        let mut effects = no_sharing_effects();
        if let Some(error) = store_error {
            self.validation_message = Some(concat2(store_failure, error));
        } else {
            match apply_session_sharing_server_url(no_cloud, relay, true) {
                Err(error) => {
                    self.validation_message = Some(
                        concat2(apply_failure, error.message().as_str()),
                    );
                },
                Ok(change) => {
                    self.validation_message = None;
                    push_sharing(&mut effects, CloudSharingEffect::ApplyRelay { change });
                    push_sharing(
                        &mut effects,
                        CloudSharingEffect::Toast { message: success.to_owned() },
                    );
                },
            }
        }
        push_sharing(&mut effects, CloudSharingEffect::Notify);
        assert(sharing_effects(effects@) =~= result.1);
        effects
    }

    /// Takes up what came of storing the relay that was saved.
    pub fn finish_save(&mut self, relay: Option<&str>, store_error: Option<&str>, no_cloud: bool) -> (r:
        Vec<CloudSharingEffect>)
        ensures
            (final(self)@, sharing_effects(r@)) == stored(
                opt_str_view(relay),
                opt_str_view(store_error),
                no_cloud,
                "Failed to save relay URL: "@,
                "Failed to apply relay URL: "@,
                "Sharing settings saved"@,
            ),
    {
        self.finish(
            relay,
            store_error,
            no_cloud,
            "Failed to save relay URL: ",
            "Failed to apply relay URL: ",
            "Sharing settings saved",
        )
    }

    /// Takes up what came of storing that there is no relay.
    pub fn finish_clear(&mut self, store_error: Option<&str>, no_cloud: bool) -> (r: Vec<
        CloudSharingEffect,
    >)
        ensures
            (final(self)@, sharing_effects(r@)) == stored(
                None,
                opt_str_view(store_error),
                no_cloud,
                "Failed to clear relay URL: "@,
                "Failed to clear relay URL: "@,
                "Sharing settings cleared"@,
            ),
    {
        self.finish(
            None,
            store_error,
            no_cloud,
            "Failed to clear relay URL: ",
            "Failed to clear relay URL: ",
            "Sharing settings cleared",
        )
    }

    /// Does what the user asks for.
    pub fn handle_action(&mut self, action: CloudSharingPageAction, input: &str) -> (r: Vec<
        CloudSharingEffect,
    >)
        ensures
            match action {
                CloudSharingPageAction::SaveRelayUrl => (final(self)@, sharing_effects(r@))
                    == save_asked(old(self)@, input@),
                CloudSharingPageAction::ClearRelayUrl => final(self)@ == old(self)@
                    && sharing_effects(r@) == seq![
                    SharingEffectView::SetInput { text: Seq::empty() },
                    SharingEffectView::StoreRelay { value: Seq::empty() },
                ],
            },
    {
        match action {
            CloudSharingPageAction::SaveRelayUrl => self.save_relay_url(input),
            CloudSharingPageAction::ClearRelayUrl => self.clear_relay_url(),
        }
    }
}

} // verus!
