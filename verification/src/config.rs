//! The application configuration: one aggregate of independent
//! sub-configurations, each field with a defined default.

use vstd::prelude::*;
use vstd::string::*;

verus! {

/// Interface preferences.
#[derive(Debug, PartialEq, Eq)]
pub struct UiConfig {
    /// Identifier of the colour theme.
    pub theme: String,
    /// Whether the window stays above all others.
    pub always_on_top: bool,
}

/// Mathematical value of a [`UiConfig`].
pub struct UiConfigView {
    pub theme: Seq<char>,
    pub always_on_top: bool,
}

impl View for UiConfig {
    type V = UiConfigView;

    open spec fn view(&self) -> UiConfigView {
        UiConfigView { theme: self.theme@, always_on_top: self.always_on_top }
    }
}

impl UiConfigView {
    /// The interface preferences of a fresh installation.
    pub open spec fn initial() -> UiConfigView {
        UiConfigView { theme: "dark"@, always_on_top: true }
    }
}

impl Clone for UiConfig {
    fn clone(&self) -> (copy: Self)
        ensures
            copy@ == self@,
    {
        UiConfig { theme: self.theme.clone(), always_on_top: self.always_on_top }
    }
}

impl Default for UiConfig {
    fn default() -> (config: Self)
        ensures
            config@ == UiConfigView::initial(),
    {
        UiConfig { theme: "dark".to_owned(), always_on_top: true }
    }
}

/// Audio preferences.
#[derive(Debug, PartialEq, Eq)]
pub struct AudioConfig {
    /// Whether a sound announces a new request.
    pub notification_enabled: bool,
    /// Address of a custom notification sound; empty for the built-in one.
    pub custom_url: String,
}

/// Mathematical value of an [`AudioConfig`].
pub struct AudioConfigView {
    pub notification_enabled: bool,
    pub custom_url: Seq<char>,
}

impl View for AudioConfig {
    type V = AudioConfigView;

    open spec fn view(&self) -> AudioConfigView {
        AudioConfigView {
            notification_enabled: self.notification_enabled,
            custom_url: self.custom_url@,
        }
    }
}

impl AudioConfigView {
    /// The audio preferences of a fresh installation.
    pub open spec fn initial() -> AudioConfigView {
        AudioConfigView { notification_enabled: false, custom_url: ""@ }
    }
}

impl Clone for AudioConfig {
    fn clone(&self) -> (copy: Self)
        ensures
            copy@ == self@,
    {
        AudioConfig {
            notification_enabled: self.notification_enabled,
            custom_url: self.custom_url.clone(),
        }
    }
}

impl Default for AudioConfig {
    fn default() -> (config: Self)
        ensures
            config@ == AudioConfigView::initial(),
    {
        AudioConfig { notification_enabled: false, custom_url: "".to_owned() }
    }
}

/// Settings of the automated-messaging channel.
#[derive(Debug, PartialEq, Eq)]
pub struct TelegramConfig {
    /// Whether requests are announced over the channel at all.
    pub enabled: bool,
    /// Whether the interactive window is suppressed while the channel is in use.
    pub hide_frontend_popup: bool,
    /// Credential of the bot that sends the messages.
    pub bot_token: String,
    /// Conversation that receives the messages.
    pub chat_id: String,
    /// Base address of the messaging service.
    pub api_base_url: String,
}

/// Mathematical value of a [`TelegramConfig`].
pub struct TelegramConfigView {
    pub enabled: bool,
    pub hide_frontend_popup: bool,
    pub bot_token: Seq<char>,
    pub chat_id: Seq<char>,
    pub api_base_url: Seq<char>,
}

impl View for TelegramConfig {
    type V = TelegramConfigView;

    open spec fn view(&self) -> TelegramConfigView {
        TelegramConfigView {
            enabled: self.enabled,
            hide_frontend_popup: self.hide_frontend_popup,
            bot_token: self.bot_token@,
            chat_id: self.chat_id@,
            api_base_url: self.api_base_url@,
        }
    }
}

impl TelegramConfigView {
    /// The channel settings of a fresh installation: switched off, without
    /// credentials.
    pub open spec fn initial() -> TelegramConfigView {
        TelegramConfigView {
            enabled: false,
            hide_frontend_popup: false,
            bot_token: ""@,
            chat_id: ""@,
            api_base_url: "https://api.telegram.org/bot"@,
        }
    }

    /// The user asked both for the channel and for the window to stay away.
    pub open spec fn suppresses_window(self) -> bool {
        self.enabled && self.hide_frontend_popup
    }
}

impl Clone for TelegramConfig {
    fn clone(&self) -> (copy: Self)
        ensures
            copy@ == self@,
    {
        TelegramConfig {
            enabled: self.enabled,
            hide_frontend_popup: self.hide_frontend_popup,
            bot_token: self.bot_token.clone(),
            chat_id: self.chat_id.clone(),
            api_base_url: self.api_base_url.clone(),
        }
    }
}

impl Default for TelegramConfig {
    fn default() -> (config: Self)
        ensures
            config@ == TelegramConfigView::initial(),
    {
        TelegramConfig {
            enabled: false,
            hide_frontend_popup: false,
            bot_token: "".to_owned(),
            chat_id: "".to_owned(),
            api_base_url: "https://api.telegram.org/bot".to_owned(),
        }
    }
}

/// The whole persisted configuration.
#[derive(Debug, PartialEq, Eq)]
pub struct AppConfig {
    pub ui_config: UiConfig,
    pub audio_config: AudioConfig,
    pub telegram_config: TelegramConfig,
}

/// Mathematical value of an [`AppConfig`].
pub struct AppConfigView {
    pub ui_config: UiConfigView,
    pub audio_config: AudioConfigView,
    pub telegram_config: TelegramConfigView,
}

impl View for AppConfig {
    type V = AppConfigView;

    open spec fn view(&self) -> AppConfigView {
        AppConfigView {
            ui_config: self.ui_config@,
            audio_config: self.audio_config@,
            telegram_config: self.telegram_config@,
        }
    }
}

impl AppConfigView {
    /// The configuration that stands in when none can be loaded.
    pub open spec fn initial() -> AppConfigView {
        AppConfigView {
            ui_config: UiConfigView::initial(),
            audio_config: AudioConfigView::initial(),
            telegram_config: TelegramConfigView::initial(),
        }
    }
}

impl AppConfigView {
    /// The configuration with another theme.
    pub open spec fn with_theme(self, theme: Seq<char>) -> AppConfigView {
        AppConfigView { ui_config: UiConfigView { theme, ..self.ui_config }, ..self }
    }

    /// The configuration with another always-on-top flag.
    pub open spec fn with_always_on_top(self, always_on_top: bool) -> AppConfigView {
        AppConfigView { ui_config: UiConfigView { always_on_top, ..self.ui_config }, ..self }
    }

    /// The configuration with the notification sound switched.
    pub open spec fn with_audio_enabled(self, enabled: bool) -> AppConfigView {
        AppConfigView {
            audio_config: AudioConfigView { notification_enabled: enabled, ..self.audio_config },
            ..self
        }
    }

    /// The configuration with another custom notification sound.
    pub open spec fn with_audio_url(self, url: Seq<char>) -> AppConfigView {
        AppConfigView {
            audio_config: AudioConfigView { custom_url: url, ..self.audio_config },
            ..self
        }
    }

    /// The configuration with other settings of the messaging channel.
    pub open spec fn with_telegram(self, telegram: TelegramConfigView) -> AppConfigView {
        AppConfigView { telegram_config: telegram, ..self }
    }
}

impl Clone for AppConfig {
    fn clone(&self) -> (copy: Self)
        ensures
            copy@ == self@,
    {
        AppConfig {
            ui_config: self.ui_config.clone(),
            audio_config: self.audio_config.clone(),
            telegram_config: self.telegram_config.clone(),
        }
    }
}

impl Default for AppConfig {
    fn default() -> (config: Self)
        ensures
            config@ == AppConfigView::initial(),
    {
        AppConfig {
            ui_config: UiConfig::default(),
            audio_config: AudioConfig::default(),
            telegram_config: TelegramConfig::default(),
        }
    }
}

} // verus!
