//! What holds of the configuration over sequences of requests: no write
//! to a field is lost, and after every successful write the durable store
//! holds what memory holds.

use crate::config::{AppConfigView, TelegramConfigView};
use crate::web::api::{
    config_after,
    handled,
    persists,
    reply_to,
    response_to,
    ApiReplyView,
    ApiRequestView,
    ApiResponseView,
    WebAppStateView,
};
use vstd::prelude::*;

verus! {

/// The configuration in memory after a sequence of requests, handled one
/// after the other.
pub open spec fn config_after_all(
    config: AppConfigView,
    requests: Seq<ApiRequestView>,
) -> AppConfigView
    decreases requests.len(),
{
    if requests.len() == 0 {
        config
    } else {
        config_after(config_after_all(config, requests.drop_last()), requests.last())
    }
}

/// The parts of the configuration that the API writes one by one.
pub enum ConfigField {
    Theme,
    AlwaysOnTop,
    AudioEnabled,
    AudioUrl,
    Telegram,
}

/// The value of one such part.
pub enum FieldValue {
    Text(Seq<char>),
    Flag(bool),
    Telegram(TelegramConfigView),
}

/// The value that a configuration holds in a field.
pub open spec fn field_of(config: AppConfigView, field: ConfigField) -> FieldValue {
    match field {
        ConfigField::Theme => FieldValue::Text(config.ui_config.theme),
        ConfigField::AlwaysOnTop => FieldValue::Flag(config.ui_config.always_on_top),
        ConfigField::AudioEnabled => FieldValue::Flag(config.audio_config.notification_enabled),
        ConfigField::AudioUrl => FieldValue::Text(config.audio_config.custom_url),
        ConfigField::Telegram => FieldValue::Telegram(config.telegram_config),
    }
}

/// The value that a request writes to a field, if it writes to it at all.
/// A replacement of the whole configuration writes to every field.
pub open spec fn written(request: ApiRequestView, field: ConfigField) -> Option<FieldValue> {
    match (request, field) {
        (ApiRequestView::UpdateConfig(replacement), _) => Some(field_of(replacement, field)),
        (ApiRequestView::SetTheme(theme), ConfigField::Theme) => Some(FieldValue::Text(theme)),
        (ApiRequestView::SetAlwaysOnTop(flag), ConfigField::AlwaysOnTop) => Some(
            FieldValue::Flag(flag),
        ),
        (ApiRequestView::SetAudioNotificationEnabled(flag), ConfigField::AudioEnabled) => Some(
            FieldValue::Flag(flag),
        ),
        (ApiRequestView::SetAudioUrl(url), ConfigField::AudioUrl) => Some(FieldValue::Text(url)),
        (ApiRequestView::SetTelegramConfig(telegram), ConfigField::Telegram) => Some(
            FieldValue::Telegram(telegram),
        ),
        _ => None,
    }
}

/// `requests[i]` is the last request of the sequence that writes to `field`.
pub open spec fn is_latest_write(requests: Seq<ApiRequestView>, field: ConfigField, i: int) -> bool {
    &&& 0 <= i < requests.len()
    &&& written(requests[i], field) is Some
    &&& forall|j: int| i < j < requests.len() ==> written(#[trigger] requests[j], field) is None
}

/// No request of the sequence writes to `field`.
pub open spec fn never_written(requests: Seq<ApiRequestView>, field: ConfigField) -> bool {
    forall|j: int| 0 <= j < requests.len() ==> written(#[trigger] requests[j], field) is None
}

/// A request changes a field to what it writes there, and leaves alone
/// every field that it does not write to.
pub proof fn lemma_request_writes_field(
    config: AppConfigView,
    request: ApiRequestView,
    field: ConfigField,
)
    ensures
        field_of(config_after(config, request), field) == match written(request, field) {
            Some(value) => value,
            None => field_of(config, field),
        },
{
}

/// Two configurations that agree in all five fields are the same.
pub proof fn lemma_fields_determine_config(a: AppConfigView, b: AppConfigView)
    requires
        forall|field: ConfigField| field_of(a, field) == field_of(b, field),
    ensures
        a == b,
{
    assert(field_of(a, ConfigField::Theme) == field_of(b, ConfigField::Theme));
    assert(field_of(a, ConfigField::AlwaysOnTop) == field_of(b, ConfigField::AlwaysOnTop));
    assert(field_of(a, ConfigField::AudioEnabled) == field_of(b, ConfigField::AudioEnabled));
    assert(field_of(a, ConfigField::AudioUrl) == field_of(b, ConfigField::AudioUrl));
    assert(field_of(a, ConfigField::Telegram) == field_of(b, ConfigField::Telegram));
}

/// After any sequence of requests, handled one after the other, the
/// configuration holds in each field the value of the latest write to that
/// field, or the value it started with where the field was never written:
/// no update is lost. A read of the whole configuration returns just that.
pub proof fn lemma_read_reflects_latest_writes(
    state: WebAppStateView,
    requests: Seq<ApiRequestView>,
    field: ConfigField,
)
    ensures
        forall|i: int| #[trigger]
            is_latest_write(requests, field, i) ==> field_of(
                config_after_all(state.config, requests),
                field,
            ) == written(requests[i], field)->0,
        never_written(requests, field) ==> field_of(
            config_after_all(state.config, requests),
            field,
        ) == field_of(state.config, field),
        reply_to(
            WebAppStateView { config: config_after_all(state.config, requests), ..state },
            ApiRequestView::GetConfig,
        ) == ApiReplyView::Config(config_after_all(state.config, requests)),
    decreases requests.len(),
{
    if requests.len() > 0 {
        let earlier = requests.drop_last();
        let last = requests.last();
        lemma_read_reflects_latest_writes(state, earlier, field);
        lemma_request_writes_field(config_after_all(state.config, earlier), last, field);
        assert forall|i: int| #[trigger] is_latest_write(requests, field, i) implies field_of(
            config_after_all(state.config, requests),
            field,
        ) == written(requests[i], field)->0 by {
            if i < requests.len() - 1 {
                assert(written(requests[requests.len() - 1], field) is None);
                assert forall|j: int| i < j < earlier.len() implies written(
                    #[trigger] earlier[j],
                    field,
                ) is None by {
                    assert(earlier[j] == requests[j]);
                }
                assert(earlier[i] == requests[i]);
                assert(is_latest_write(earlier, field, i));
            }
        }
        if never_written(requests, field) {
            assert(written(requests[requests.len() - 1], field) is None);
            assert forall|j: int| 0 <= j < earlier.len() implies written(
                #[trigger] earlier[j],
                field,
            ) is None by {
                assert(earlier[j] == requests[j]);
            }
        }
    }
}

/// The configuration in its two places: in the memory of the server and
/// in the durable store.
pub struct StoreView {
    pub memory: AppConfigView,
    pub durable: AppConfigView,
}

/// The two places after a request. The request is carried out in memory;
/// where it is one that persists, the whole configuration is then written
/// out, and `saved` tells whether that write succeeded. A failed write
/// leaves the durable store as it was and does not undo the change in
/// memory.
pub open spec fn store_after(store: StoreView, request: ApiRequestView, saved: bool) -> StoreView {
    let memory = config_after(store.memory, request);
    StoreView {
        memory,
        durable: if persists(request) && saved {
            memory
        } else {
            store.durable
        },
    }
}

/// After every write that succeeds, the durable store holds exactly the
/// configuration in memory; the client is told so with status 200. After
/// one that fails the client gets status 500, the durable store is
/// unchanged, and memory keeps the new value.
pub proof fn lemma_durable_matches_memory(
    state: WebAppStateView,
    durable: AppConfigView,
    request: ApiRequestView,
    saved: bool,
)
    requires
        persists(request),
    ensures
        handled(state, request).persist == Some(config_after(state.config, request)),
        saved ==> store_after(StoreView { memory: state.config, durable }, request, saved).durable
            == store_after(StoreView { memory: state.config, durable }, request, saved).memory,
        saved <==> response_to(handled(state, request), saved).status == 200,
        !saved <==> response_to(handled(state, request), saved).status == 500,
        !saved ==> store_after(StoreView { memory: state.config, durable }, request, saved)
            == (StoreView { memory: config_after(state.config, request), durable }),
{
}

/// Requests that do not persist are always answered with status 200, and
/// leave the durable store alone.
pub proof fn lemma_other_requests_succeed(
    state: WebAppStateView,
    durable: AppConfigView,
    request: ApiRequestView,
    saved: bool,
)
    requires
        !persists(request),
    ensures
        response_to(handled(state, request), saved) == (ApiResponseView {
            status: 200,
            body: Some(reply_to(state, request)),
        }),
        store_after(StoreView { memory: state.config, durable }, request, saved).durable
            == durable,
{
}

} // verus!
