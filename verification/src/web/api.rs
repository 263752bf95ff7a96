//! The configuration store of the control server and the handlers that
//! read and write it. A handler changes the configuration in memory and
//! says what must be written to the durable store; the caller writes it and
//! reports back, and the answer to the client follows from that report.

use crate::cli::OperatingMode;
use crate::config::{
    AppConfig,
    AppConfigView,
    TelegramConfig,
    TelegramConfigView,
};
use vstd::prelude::*;
use vstd::string::*;

verus! {

/// Name under which the application presents itself.
pub const APP_NAME: &'static str = "寸止";

/// Name of the mode that the control server reports.
pub const WEB_MODE: &'static str = "web";

/// The text that stands for "go on" in a synthetic decision.
pub const CONTINUE_PROMPT: &'static str = "继续";

/// Status of an answer to a handled request.
pub const STATUS_OK: u16 = 200;

/// Status of the answer when the configuration could not be written out.
pub const STATUS_INTERNAL_SERVER_ERROR: u16 = 500;

/// Who decides on a request for approval.
#[derive(Clone, Copy, Debug, PartialEq, Eq, Structural)]
pub enum DecisionProvider {
    /// A person at the window: the request stays open until they answer.
    Interactive,
    /// Nobody: every request is told to go on at once.
    Immediate,
}

/// What a decision provider makes of a request for approval.
#[derive(Debug, PartialEq, Eq)]
pub enum PopupOutcome {
    /// Go on, with the given prompt.
    Continue(String),
    /// Undecided: the answer has to wait for the user.
    AwaitUser,
}

/// Mathematical value of a [`PopupOutcome`].
pub enum PopupOutcomeView {
    Continue(Seq<char>),
    AwaitUser,
}

impl View for PopupOutcome {
    type V = PopupOutcomeView;

    open spec fn view(&self) -> PopupOutcomeView {
        match self {
            PopupOutcome::Continue(prompt) => PopupOutcomeView::Continue(prompt@),
            PopupOutcome::AwaitUser => PopupOutcomeView::AwaitUser,
        }
    }
}

impl DecisionProvider {
    /// The provider that goes with an operating mode: only the control
    /// server has nobody to ask.
    pub open spec fn of_mode(mode: crate::cli::ModeView) -> DecisionProvider {
        if mode is Server {
            DecisionProvider::Immediate
        } else {
            DecisionProvider::Interactive
        }
    }

    /// What the provider makes of a request.
    pub open spec fn outcome(self) -> PopupOutcomeView {
        match self {
            DecisionProvider::Immediate => PopupOutcomeView::Continue(CONTINUE_PROMPT@),
            DecisionProvider::Interactive => PopupOutcomeView::AwaitUser,
        }
    }

    /// Selects the provider for an operating mode.
    pub fn for_mode(mode: &OperatingMode) -> (provider: DecisionProvider)
        ensures
            provider == Self::of_mode(mode@),
    {
        match mode {
            OperatingMode::Server(_) => DecisionProvider::Immediate,
            _ => DecisionProvider::Interactive,
        }
    }

    /// Decides on a request for approval.
    pub fn decide(&self) -> (outcome: PopupOutcome)
        ensures
            outcome@ == self.outcome(),
    {
        match self {
            DecisionProvider::Immediate => PopupOutcome::Continue(CONTINUE_PROMPT.to_owned()),
            DecisionProvider::Interactive => PopupOutcome::AwaitUser,
        }
    }
}

/// The state that all handlers of the control server share: the
/// configuration in memory, and what the server says of itself. The caller
/// keeps it behind one lock, so that each handler sees and leaves a whole
/// configuration.
#[derive(Debug, PartialEq, Eq)]
pub struct WebAppState {
    /// The configuration as the server holds it.
    pub config: AppConfig,
    /// Version of the running program.
    pub version: String,
    /// Who answers requests for approval.
    pub decisions: DecisionProvider,
}

/// Mathematical value of a [`WebAppState`].
pub struct WebAppStateView {
    pub config: AppConfigView,
    pub version: Seq<char>,
    pub decisions: DecisionProvider,
}

impl View for WebAppState {
    type V = WebAppStateView;

    open spec fn view(&self) -> WebAppStateView {
        WebAppStateView {
            config: self.config@,
            version: self.version@,
            decisions: self.decisions,
        }
    }
}

/// What the server reports of itself.
#[derive(Debug, PartialEq, Eq)]
pub struct AppInfo {
    pub name: String,
    pub version: String,
    pub mode: String,
}

/// Mathematical value of an [`AppInfo`].
pub struct AppInfoView {
    pub name: Seq<char>,
    pub version: Seq<char>,
    pub mode: Seq<char>,
}

impl View for AppInfo {
    type V = AppInfoView;

    open spec fn view(&self) -> AppInfoView {
        AppInfoView { name: self.name@, version: self.version@, mode: self.mode@ }
    }
}

/// The configuration that a server starts with: the loaded one, or the
/// defaults where loading failed.
pub open spec fn starting_config(loaded: Option<AppConfig>) -> AppConfigView {
    match loaded {
        Some(config) => config@,
        None => AppConfigView::initial(),
    }
}

impl WebAppState {
    /// The state of a server that starts. `loaded` is the configuration
    /// from the durable store, or `None` where it could not be loaded; the
    /// server then starts on the defaults. `version` is the version of the
    /// program.
    pub fn new(loaded: Option<AppConfig>, version: String) -> (state: Self)
        ensures
            state@.config == starting_config(loaded),
            state@.version == version@,
            state@.decisions == DecisionProvider::Immediate,
    {
        let config = match loaded {
            Some(config) => config,
            None => AppConfig::default(),
        };
        WebAppState { config, version, decisions: DecisionProvider::Immediate }
    }

    /// Name, version and mode of the server.
    pub fn get_app_info(&self) -> (info: AppInfo)
        ensures
            info@ == (AppInfoView { name: APP_NAME@, version: self@.version, mode: WEB_MODE@ }),
    {
        AppInfo {
            name: APP_NAME.to_owned(),
            version: self.version.clone(),
            mode: WEB_MODE.to_owned(),
        }
    }

    /// Version of the program.
    pub fn get_current_version(&self) -> (version: String)
        ensures
            version@ == self@.version,
    {
        self.version.clone()
    }

    /// A copy of the whole configuration.
    pub fn get_config(&self) -> (config: AppConfig)
        ensures
            config@ == self@.config,
    {
        self.config.clone()
    }

    /// Replaces the whole configuration. Returns the configuration to write
    /// to the durable store: the new one.
    pub fn update_config(&mut self, config: AppConfig) -> (snapshot: AppConfig)
        ensures
            final(self)@ == (WebAppStateView { config: config@, ..old(self)@ }),
            snapshot@ == final(self)@.config,
    {
        self.config = config;
        self.config.clone()
    }

    /// The theme.
    pub fn get_theme(&self) -> (theme: String)
        ensures
            theme@ == self@.config.ui_config.theme,
    {
        self.config.ui_config.theme.clone()
    }

    /// Sets the theme. Returns the configuration to write to the durable
    /// store.
    pub fn set_theme(&mut self, theme: String) -> (snapshot: AppConfig)
        ensures
            final(self)@ == (WebAppStateView {
                config: old(self)@.config.with_theme(theme@),
                ..old(self)@
            }),
            snapshot@ == final(self)@.config,
    {
        self.config.ui_config.theme = theme;
        self.config.clone()
    }

    /// Whether the window is to stay on top.
    pub fn get_always_on_top(&self) -> (always_on_top: bool)
        ensures
            always_on_top == self@.config.ui_config.always_on_top,
    {
        self.config.ui_config.always_on_top
    }

    /// Records whether the window is to stay on top. The server has no
    /// window: the value is kept in memory and nothing is written out.
    pub fn set_always_on_top(&mut self, always_on_top: bool)
        ensures
            final(self)@ == (WebAppStateView {
                config: old(self)@.config.with_always_on_top(always_on_top),
                ..old(self)@
            }),
    {
        self.config.ui_config.always_on_top = always_on_top;
    }

    /// Whether a sound announces a request.
    pub fn get_audio_notification_enabled(&self) -> (enabled: bool)
        ensures
            enabled == self@.config.audio_config.notification_enabled,
    {
        self.config.audio_config.notification_enabled
    }

    /// Switches the notification sound. Returns the configuration to write
    /// to the durable store.
    pub fn set_audio_notification_enabled(&mut self, enabled: bool) -> (snapshot: AppConfig)
        ensures
            final(self)@ == (WebAppStateView {
                config: old(self)@.config.with_audio_enabled(enabled),
                ..old(self)@
            }),
            snapshot@ == final(self)@.config,
    {
        self.config.audio_config.notification_enabled = enabled;
        self.config.clone()
    }

    /// Address of the custom notification sound.
    pub fn get_audio_url(&self) -> (url: String)
        ensures
            url@ == self@.config.audio_config.custom_url,
    {
        self.config.audio_config.custom_url.clone()
    }

    /// Sets the address of the custom notification sound. Returns the
    /// configuration to write to the durable store.
    pub fn set_audio_url(&mut self, url: String) -> (snapshot: AppConfig)
        ensures
            final(self)@ == (WebAppStateView {
                config: old(self)@.config.with_audio_url(url@),
                ..old(self)@
            }),
            snapshot@ == final(self)@.config,
    {
        self.config.audio_config.custom_url = url;
        self.config.clone()
    }

    /// Answers a request for approval through the decision provider.
    pub fn handle_mcp_popup(&self) -> (outcome: PopupOutcome)
        ensures
            outcome@ == self@.decisions.outcome(),
    {
        self.decisions.decide()
    }

    /// Takes note of a response to a request for approval. Nothing changes.
    pub fn send_mcp_response(&self) {
    }

    /// The settings of the messaging channel.
    pub fn get_telegram_config(&self) -> (config: TelegramConfig)
        ensures
            config@ == self@.config.telegram_config,
    {
        self.config.telegram_config.clone()
    }

    /// Replaces the settings of the messaging channel. Returns the
    /// configuration to write to the durable store.
    pub fn set_telegram_config(&mut self, config: TelegramConfig) -> (snapshot: AppConfig)
        ensures
            final(self)@ == (WebAppStateView {
                config: old(self)@.config.with_telegram(config@),
                ..old(self)@
            }),
            snapshot@ == final(self)@.config,
    {
        self.config.telegram_config = config;
        self.config.clone()
    }
}

/// A request to the control server, with what its body carries.
#[derive(Debug, PartialEq, Eq)]
pub enum ApiRequest {
    GetAppInfo,
    GetCurrentVersion,
    GetConfig,
    UpdateConfig(AppConfig),
    GetTheme,
    SetTheme(String),
    GetAlwaysOnTop,
    SetAlwaysOnTop(bool),
    GetAudioNotificationEnabled,
    SetAudioNotificationEnabled(bool),
    GetAudioUrl,
    SetAudioUrl(String),
    McpPopup,
    McpResponse,
    GetTelegramConfig,
    SetTelegramConfig(TelegramConfig),
}

/// Mathematical value of an [`ApiRequest`].
pub enum ApiRequestView {
    GetAppInfo,
    GetCurrentVersion,
    GetConfig,
    UpdateConfig(AppConfigView),
    GetTheme,
    SetTheme(Seq<char>),
    GetAlwaysOnTop,
    SetAlwaysOnTop(bool),
    GetAudioNotificationEnabled,
    SetAudioNotificationEnabled(bool),
    GetAudioUrl,
    SetAudioUrl(Seq<char>),
    McpPopup,
    McpResponse,
    GetTelegramConfig,
    SetTelegramConfig(TelegramConfigView),
}

impl View for ApiRequest {
    type V = ApiRequestView;

    open spec fn view(&self) -> ApiRequestView {
        match self {
            ApiRequest::GetAppInfo => ApiRequestView::GetAppInfo,
            ApiRequest::GetCurrentVersion => ApiRequestView::GetCurrentVersion,
            ApiRequest::GetConfig => ApiRequestView::GetConfig,
            ApiRequest::UpdateConfig(config) => ApiRequestView::UpdateConfig(config@),
            ApiRequest::GetTheme => ApiRequestView::GetTheme,
            ApiRequest::SetTheme(theme) => ApiRequestView::SetTheme(theme@),
            ApiRequest::GetAlwaysOnTop => ApiRequestView::GetAlwaysOnTop,
            ApiRequest::SetAlwaysOnTop(flag) => ApiRequestView::SetAlwaysOnTop(*flag),
            ApiRequest::GetAudioNotificationEnabled => ApiRequestView::GetAudioNotificationEnabled,
            ApiRequest::SetAudioNotificationEnabled(flag) =>
                ApiRequestView::SetAudioNotificationEnabled(*flag),
            ApiRequest::GetAudioUrl => ApiRequestView::GetAudioUrl,
            ApiRequest::SetAudioUrl(url) => ApiRequestView::SetAudioUrl(url@),
            ApiRequest::McpPopup => ApiRequestView::McpPopup,
            ApiRequest::McpResponse => ApiRequestView::McpResponse,
            ApiRequest::GetTelegramConfig => ApiRequestView::GetTelegramConfig,
            ApiRequest::SetTelegramConfig(config) => ApiRequestView::SetTelegramConfig(config@),
        }
    }
}

/// What a handler answers.
#[derive(Debug, PartialEq, Eq)]
pub enum ApiReply {
    AppInfo(AppInfo),
    Version(String),
    Config(AppConfig),
    Theme(String),
    AlwaysOnTop(bool),
    AudioEnabled(bool),
    AudioUrl(String),
    Popup(PopupOutcome),
    Telegram(TelegramConfig),
    /// The request was carried out.
    Success,
}

/// Mathematical value of an [`ApiReply`].
pub enum ApiReplyView {
    AppInfo(AppInfoView),
    Version(Seq<char>),
    Config(AppConfigView),
    Theme(Seq<char>),
    AlwaysOnTop(bool),
    AudioEnabled(bool),
    AudioUrl(Seq<char>),
    Popup(PopupOutcomeView),
    Telegram(TelegramConfigView),
    Success,
}

impl View for ApiReply {
    type V = ApiReplyView;

    open spec fn view(&self) -> ApiReplyView {
        match self {
            ApiReply::AppInfo(info) => ApiReplyView::AppInfo(info@),
            ApiReply::Version(version) => ApiReplyView::Version(version@),
            ApiReply::Config(config) => ApiReplyView::Config(config@),
            ApiReply::Theme(theme) => ApiReplyView::Theme(theme@),
            ApiReply::AlwaysOnTop(flag) => ApiReplyView::AlwaysOnTop(*flag),
            ApiReply::AudioEnabled(flag) => ApiReplyView::AudioEnabled(*flag),
            ApiReply::AudioUrl(url) => ApiReplyView::AudioUrl(url@),
            ApiReply::Popup(outcome) => ApiReplyView::Popup(outcome@),
            ApiReply::Telegram(config) => ApiReplyView::Telegram(config@),
            ApiReply::Success => ApiReplyView::Success,
        }
    }
}

/// The configuration in memory after a request has been handled.
pub open spec fn config_after(config: AppConfigView, request: ApiRequestView) -> AppConfigView {
    match request {
        ApiRequestView::UpdateConfig(replacement) => replacement,
        ApiRequestView::SetTheme(theme) => config.with_theme(theme),
        ApiRequestView::SetAlwaysOnTop(flag) => config.with_always_on_top(flag),
        ApiRequestView::SetAudioNotificationEnabled(flag) => config.with_audio_enabled(flag),
        ApiRequestView::SetAudioUrl(url) => config.with_audio_url(url),
        ApiRequestView::SetTelegramConfig(telegram) => config.with_telegram(telegram),
        _ => config,
    }
}

/// Whether handling a request ends with a write to the durable store:
/// every request that changes the configuration does, but for the
/// always-on-top flag, which lives in memory alone.
pub open spec fn persists(request: ApiRequestView) -> bool {
    request is UpdateConfig || request is SetTheme || request is SetAudioNotificationEnabled
        || request is SetAudioUrl || request is SetTelegramConfig
}

/// What a handler answers to a request, given the state it finds.
pub open spec fn reply_to(state: WebAppStateView, request: ApiRequestView) -> ApiReplyView {
    match request {
        ApiRequestView::GetAppInfo => ApiReplyView::AppInfo(
            AppInfoView { name: APP_NAME@, version: state.version, mode: WEB_MODE@ },
        ),
        ApiRequestView::GetCurrentVersion => ApiReplyView::Version(state.version),
        ApiRequestView::GetConfig => ApiReplyView::Config(state.config),
        ApiRequestView::GetTheme => ApiReplyView::Theme(state.config.ui_config.theme),
        ApiRequestView::GetAlwaysOnTop => ApiReplyView::AlwaysOnTop(
            state.config.ui_config.always_on_top,
        ),
        ApiRequestView::GetAudioNotificationEnabled => ApiReplyView::AudioEnabled(
            state.config.audio_config.notification_enabled,
        ),
        ApiRequestView::GetAudioUrl => ApiReplyView::AudioUrl(state.config.audio_config.custom_url),
        ApiRequestView::McpPopup => ApiReplyView::Popup(state.decisions.outcome()),
        ApiRequestView::GetTelegramConfig => ApiReplyView::Telegram(state.config.telegram_config),
        _ => ApiReplyView::Success,
    }
}

/// A request that a handler has carried out in memory: the answer it
/// prepared, and the configuration that is to be written to the durable
/// store before the answer goes out, if any.
#[derive(Debug, PartialEq, Eq)]
pub struct Handled {
    pub reply: ApiReply,
    pub persist: Option<AppConfig>,
}

/// Mathematical value of a [`Handled`].
pub struct HandledView {
    pub reply: ApiReplyView,
    pub persist: Option<AppConfigView>,
}

impl View for Handled {
    type V = HandledView;

    open spec fn view(&self) -> HandledView {
        HandledView {
            reply: self.reply@,
            persist: match self.persist {
                Some(config) => Some(config@),
                None => None,
            },
        }
    }
}

/// What handling a request leaves to do, given the state it finds.
pub open spec fn handled(state: WebAppStateView, request: ApiRequestView) -> HandledView {
    HandledView {
        reply: reply_to(state, request),
        persist: if persists(request) {
            Some(config_after(state.config, request))
        } else {
            None
        },
    }
}

impl WebAppState {
    /// Carries a request out in memory. The configuration changes as the
    /// request asks; where the change is one that is persisted, the whole
    /// new configuration comes back to be written out.
    pub fn handle(&mut self, request: ApiRequest) -> (result: Handled)
        ensures
            final(self)@ == (WebAppStateView {
                config: config_after(old(self)@.config, request@),
                ..old(self)@
            }),
            result@ == handled(old(self)@, request@),
    {
        match request {
            ApiRequest::GetAppInfo => Handled {
                reply: ApiReply::AppInfo(self.get_app_info()),
                persist: None,
            },
            ApiRequest::GetCurrentVersion => Handled {
                reply: ApiReply::Version(self.get_current_version()),
                persist: None,
            },
            ApiRequest::GetConfig => Handled {
                reply: ApiReply::Config(self.get_config()),
                persist: None,
            },
            ApiRequest::UpdateConfig(config) => {
                let snapshot = self.update_config(config);
                Handled { reply: ApiReply::Success, persist: Some(snapshot) }
            },
            ApiRequest::GetTheme => Handled {
                reply: ApiReply::Theme(self.get_theme()),
                persist: None,
            },
            ApiRequest::SetTheme(theme) => {
                let snapshot = self.set_theme(theme);
                Handled { reply: ApiReply::Success, persist: Some(snapshot) }
            },
            ApiRequest::GetAlwaysOnTop => Handled {
                reply: ApiReply::AlwaysOnTop(self.get_always_on_top()),
                persist: None,
            },
            ApiRequest::SetAlwaysOnTop(flag) => {
                self.set_always_on_top(flag);
                Handled { reply: ApiReply::Success, persist: None }
            },
            ApiRequest::GetAudioNotificationEnabled => Handled {
                reply: ApiReply::AudioEnabled(self.get_audio_notification_enabled()),
                persist: None,
            },
            ApiRequest::SetAudioNotificationEnabled(flag) => {
                let snapshot = self.set_audio_notification_enabled(flag);
                Handled { reply: ApiReply::Success, persist: Some(snapshot) }
            },
            ApiRequest::GetAudioUrl => Handled {
                reply: ApiReply::AudioUrl(self.get_audio_url()),
                persist: None,
            },
            ApiRequest::SetAudioUrl(url) => {
                let snapshot = self.set_audio_url(url);
                Handled { reply: ApiReply::Success, persist: Some(snapshot) }
            },
            ApiRequest::McpPopup => Handled {
                reply: ApiReply::Popup(self.handle_mcp_popup()),
                persist: None,
            },
            ApiRequest::McpResponse => {
                self.send_mcp_response();
                Handled { reply: ApiReply::Success, persist: None }
            },
            ApiRequest::GetTelegramConfig => Handled {
                reply: ApiReply::Telegram(self.get_telegram_config()),
                persist: None,
            },
            ApiRequest::SetTelegramConfig(config) => {
                let snapshot = self.set_telegram_config(config);
                Handled { reply: ApiReply::Success, persist: Some(snapshot) }
            },
        }
    }
}

/// What goes back to the client.
#[derive(Debug, PartialEq, Eq)]
pub struct ApiResponse {
    /// HTTP status code.
    pub status: u16,
    /// The answer to put in the body; none with an error status.
    pub body: Option<ApiReply>,
}

/// Mathematical value of an [`ApiResponse`].
pub struct ApiResponseView {
    pub status: u16,
    pub body: Option<ApiReplyView>,
}

impl View for ApiResponse {
    type V = ApiResponseView;

    open spec fn view(&self) -> ApiResponseView {
        ApiResponseView {
            status: self.status,
            body: match self.body {
                Some(reply) => Some(reply@),
                None => None,
            },
        }
    }
}

/// The response to a handled request. `saved` tells whether the write to
/// the durable store succeeded; it counts only where a write was due.
pub open spec fn response_to(result: HandledView, saved: bool) -> ApiResponseView {
    if result.persist is Some && !saved {
        ApiResponseView { status: STATUS_INTERNAL_SERVER_ERROR, body: None }
    } else {
        ApiResponseView { status: STATUS_OK, body: Some(result.reply) }
    }
}

impl Handled {
    /// Turns a handled request into the response, once the caller has
    /// written out what was to be persisted and knows whether that
    /// succeeded. A failed write is a server error; everything else is
    /// answered with status 200.
    pub fn respond(self, saved: bool) -> (response: ApiResponse)
        ensures
            response@ == response_to(self@, saved),
    {
        if self.persist.is_some() && !saved {
            ApiResponse { status: STATUS_INTERNAL_SERVER_ERROR, body: None }
        } else {
            ApiResponse { status: STATUS_OK, body: Some(self.reply) }
        }
    }
}

/// The two HTTP methods that the API answers.
#[derive(Clone, Copy, Debug, PartialEq, Eq, Structural)]
pub enum Method {
    Get,
    Post,
}

/// The handlers of the API, one per route.
#[derive(Clone, Copy, Debug, PartialEq, Eq, Structural)]
pub enum Endpoint {
    GetAppInfo,
    GetCurrentVersion,
    GetConfig,
    UpdateConfig,
    GetTheme,
    SetTheme,
    GetAlwaysOnTop,
    SetAlwaysOnTop,
    GetAudioNotificationEnabled,
    SetAudioNotificationEnabled,
    GetAudioUrl,
    SetAudioUrl,
    McpPopup,
    McpResponse,
    GetTelegramConfig,
    SetTelegramConfig,
}

impl Endpoint {
    /// The method that the endpoint answers.
    pub open spec fn method_of(self) -> Method {
        match self {
            Endpoint::GetAppInfo
            | Endpoint::GetCurrentVersion
            | Endpoint::GetConfig
            | Endpoint::GetTheme
            | Endpoint::GetAlwaysOnTop
            | Endpoint::GetAudioNotificationEnabled
            | Endpoint::GetAudioUrl
            | Endpoint::GetTelegramConfig => Method::Get,
            _ => Method::Post,
        }
    }

    /// The path that the endpoint is bound to.
    pub open spec fn path_of(self) -> Seq<char> {
        match self {
            Endpoint::GetAppInfo => "/api/app/info"@,
            Endpoint::GetCurrentVersion => "/api/app/version"@,
            Endpoint::GetConfig | Endpoint::UpdateConfig => "/api/config"@,
            Endpoint::GetTheme | Endpoint::SetTheme => "/api/theme"@,
            Endpoint::GetAlwaysOnTop | Endpoint::SetAlwaysOnTop => "/api/window/always-on-top"@,
            Endpoint::GetAudioNotificationEnabled | Endpoint::SetAudioNotificationEnabled =>
                "/api/audio/enabled"@,
            Endpoint::GetAudioUrl | Endpoint::SetAudioUrl => "/api/audio/url"@,
            Endpoint::McpPopup => "/api/mcp/popup"@,
            Endpoint::McpResponse => "/api/mcp/response"@,
            Endpoint::GetTelegramConfig | Endpoint::SetTelegramConfig => "/api/telegram/config"@,
        }
    }

    /// The method that the endpoint answers.
    pub fn method(&self) -> (method: Method)
        ensures
            method == self.method_of(),
    {
        match self {
            Endpoint::GetAppInfo
            | Endpoint::GetCurrentVersion
            | Endpoint::GetConfig
            | Endpoint::GetTheme
            | Endpoint::GetAlwaysOnTop
            | Endpoint::GetAudioNotificationEnabled
            | Endpoint::GetAudioUrl
            | Endpoint::GetTelegramConfig => Method::Get,
            _ => Method::Post,
        }
    }

    /// The path that the endpoint is bound to.
    pub fn path(&self) -> (path: &'static str)
        ensures
            path@ == self.path_of(),
    {
        match self {
            Endpoint::GetAppInfo => "/api/app/info",
            Endpoint::GetCurrentVersion => "/api/app/version",
            Endpoint::GetConfig | Endpoint::UpdateConfig => "/api/config",
            Endpoint::GetTheme | Endpoint::SetTheme => "/api/theme",
            Endpoint::GetAlwaysOnTop | Endpoint::SetAlwaysOnTop => "/api/window/always-on-top",
            Endpoint::GetAudioNotificationEnabled | Endpoint::SetAudioNotificationEnabled =>
                "/api/audio/enabled",
            Endpoint::GetAudioUrl | Endpoint::SetAudioUrl => "/api/audio/url",
            Endpoint::McpPopup => "/api/mcp/popup",
            Endpoint::McpResponse => "/api/mcp/response",
            Endpoint::GetTelegramConfig | Endpoint::SetTelegramConfig => "/api/telegram/config",
        }
    }
}

impl ApiRequestView {
    /// The endpoint that handles the request.
    pub open spec fn endpoint(self) -> Endpoint {
        match self {
            ApiRequestView::GetAppInfo => Endpoint::GetAppInfo,
            ApiRequestView::GetCurrentVersion => Endpoint::GetCurrentVersion,
            ApiRequestView::GetConfig => Endpoint::GetConfig,
            ApiRequestView::UpdateConfig(_) => Endpoint::UpdateConfig,
            ApiRequestView::GetTheme => Endpoint::GetTheme,
            ApiRequestView::SetTheme(_) => Endpoint::SetTheme,
            ApiRequestView::GetAlwaysOnTop => Endpoint::GetAlwaysOnTop,
            ApiRequestView::SetAlwaysOnTop(_) => Endpoint::SetAlwaysOnTop,
            ApiRequestView::GetAudioNotificationEnabled => Endpoint::GetAudioNotificationEnabled,
            ApiRequestView::SetAudioNotificationEnabled(_) => Endpoint::SetAudioNotificationEnabled,
            ApiRequestView::GetAudioUrl => Endpoint::GetAudioUrl,
            ApiRequestView::SetAudioUrl(_) => Endpoint::SetAudioUrl,
            ApiRequestView::McpPopup => Endpoint::McpPopup,
            ApiRequestView::McpResponse => Endpoint::McpResponse,
            ApiRequestView::GetTelegramConfig => Endpoint::GetTelegramConfig,
            ApiRequestView::SetTelegramConfig(_) => Endpoint::SetTelegramConfig,
        }
    }
}

impl ApiRequest {
    /// The endpoint that handles the request.
    pub fn endpoint(&self) -> (endpoint: Endpoint)
        ensures
            endpoint == self@.endpoint(),
    {
        match self {
            ApiRequest::GetAppInfo => Endpoint::GetAppInfo,
            ApiRequest::GetCurrentVersion => Endpoint::GetCurrentVersion,
            ApiRequest::GetConfig => Endpoint::GetConfig,
            ApiRequest::UpdateConfig(_) => Endpoint::UpdateConfig,
            ApiRequest::GetTheme => Endpoint::GetTheme,
            ApiRequest::SetTheme(_) => Endpoint::SetTheme,
            ApiRequest::GetAlwaysOnTop => Endpoint::GetAlwaysOnTop,
            ApiRequest::SetAlwaysOnTop(_) => Endpoint::SetAlwaysOnTop,
            ApiRequest::GetAudioNotificationEnabled => Endpoint::GetAudioNotificationEnabled,
            ApiRequest::SetAudioNotificationEnabled(_) => Endpoint::SetAudioNotificationEnabled,
            ApiRequest::GetAudioUrl => Endpoint::GetAudioUrl,
            ApiRequest::SetAudioUrl(_) => Endpoint::SetAudioUrl,
            ApiRequest::McpPopup => Endpoint::McpPopup,
            ApiRequest::McpResponse => Endpoint::McpResponse,
            ApiRequest::GetTelegramConfig => Endpoint::GetTelegramConfig,
            ApiRequest::SetTelegramConfig(_) => Endpoint::SetTelegramConfig,
        }
    }
}

/// The endpoints in the order in which their routes are bound.
pub open spec fn api_routes() -> Seq<Endpoint> {
    seq![
        Endpoint::GetAppInfo,
        Endpoint::GetCurrentVersion,
        Endpoint::GetConfig,
        Endpoint::UpdateConfig,
        Endpoint::GetTheme,
        Endpoint::SetTheme,
        Endpoint::GetAlwaysOnTop,
        Endpoint::SetAlwaysOnTop,
        Endpoint::GetAudioNotificationEnabled,
        Endpoint::SetAudioNotificationEnabled,
        Endpoint::GetAudioUrl,
        Endpoint::SetAudioUrl,
        Endpoint::McpPopup,
        Endpoint::McpResponse,
        Endpoint::GetTelegramConfig,
        Endpoint::SetTelegramConfig,
    ]
}

/// The routes of the API: every endpoint once, each to be bound to its
/// method and path.
pub fn create_api_routes() -> (routes: Vec<Endpoint>)
    ensures
        routes@ == api_routes(),
{
    let mut routes: Vec<Endpoint> = Vec::new();
    routes.push(Endpoint::GetAppInfo);
    routes.push(Endpoint::GetCurrentVersion);
    routes.push(Endpoint::GetConfig);
    routes.push(Endpoint::UpdateConfig);
    routes.push(Endpoint::GetTheme);
    routes.push(Endpoint::SetTheme);
    routes.push(Endpoint::GetAlwaysOnTop);
    routes.push(Endpoint::SetAlwaysOnTop);
    routes.push(Endpoint::GetAudioNotificationEnabled);
    routes.push(Endpoint::SetAudioNotificationEnabled);
    routes.push(Endpoint::GetAudioUrl);
    routes.push(Endpoint::SetAudioUrl);
    routes.push(Endpoint::McpPopup);
    routes.push(Endpoint::McpResponse);
    routes.push(Endpoint::GetTelegramConfig);
    routes.push(Endpoint::SetTelegramConfig);
    assert(routes@ =~= api_routes());
    routes
}

/// No two endpoints answer the same method on the same path, so the routes
/// never overlap; and every endpoint is among the routes.
pub proof fn lemma_routes_do_not_overlap(a: Endpoint, b: Endpoint)
    ensures
        a.method_of() == b.method_of() && a.path_of() == b.path_of() ==> a == b,
        api_routes().contains(a),
{
    reveal_strlit("/api/app/info");
    reveal_strlit("/api/app/version");
    reveal_strlit("/api/config");
    reveal_strlit("/api/theme");
    reveal_strlit("/api/window/always-on-top");
    reveal_strlit("/api/audio/enabled");
    reveal_strlit("/api/audio/url");
    reveal_strlit("/api/mcp/popup");
    reveal_strlit("/api/mcp/response");
    reveal_strlit("/api/telegram/config");
    assert("/api/app/info"@.len() == 13);
    assert("/api/app/version"@.len() == 16);
    assert("/api/config"@.len() == 11);
    assert("/api/theme"@.len() == 10);
    assert("/api/window/always-on-top"@.len() == 25);
    assert("/api/audio/enabled"@.len() == 18);
    assert("/api/audio/url"@.len() == 14);
    assert("/api/mcp/popup"@.len() == 14);
    assert("/api/mcp/response"@.len() == 17);
    assert("/api/telegram/config"@.len() == 20);
    assert("/api/audio/url"@[5] != "/api/mcp/popup"@[5]);
    let routes = api_routes();
    assert(routes[0] == Endpoint::GetAppInfo);
    assert(routes[1] == Endpoint::GetCurrentVersion);
    assert(routes[2] == Endpoint::GetConfig);
    assert(routes[3] == Endpoint::UpdateConfig);
    assert(routes[4] == Endpoint::GetTheme);
    assert(routes[5] == Endpoint::SetTheme);
    assert(routes[6] == Endpoint::GetAlwaysOnTop);
    assert(routes[7] == Endpoint::SetAlwaysOnTop);
    assert(routes[8] == Endpoint::GetAudioNotificationEnabled);
    assert(routes[9] == Endpoint::SetAudioNotificationEnabled);
    assert(routes[10] == Endpoint::GetAudioUrl);
    assert(routes[11] == Endpoint::SetAudioUrl);
    assert(routes[12] == Endpoint::McpPopup);
    assert(routes[13] == Endpoint::McpResponse);
    assert(routes[14] == Endpoint::GetTelegramConfig);
    assert(routes[15] == Endpoint::SetTelegramConfig);
}

} // verus!
