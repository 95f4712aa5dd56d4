//! The handling of one utterance: whether it is the greeting that the
//! assistant answers, the wording of the reply, and what is recorded.
//!
//! Handling goes in steps, between which the caller does what takes the
//! outside world. `handle_message` says whether there is anything to look up.
//! `compose` takes the outcome of the two lookups and words the reply.
//! `complete` takes the outcome of speech synthesis and gives the record to
//! store and the reply to send. `conclude` takes the store's answer and hands
//! the reply on. A lookup that failed never stops a step: its stand-in is
//! used.

use vstd::prelude::*;
use vstd::string::*;
use crate::models::audio::{SynthesisResult, SynthesisResultView};
use crate::models::date::{DateInfo, DateInfoView};
use crate::models::event::InteractionEvent;
use crate::models::message::{
    AudioAttachment,
    AudioAttachmentView,
    MessageInput,
    MessageResponse,
    MessageResponseView,
};
use crate::models::news::{titles, Article};
use crate::models::provider::FailureKind;
use crate::models::weather::{WeatherInfo, WeatherInfoView};
use crate::services::audio_service::{audio_file_name, audio_file_name_of};
use crate::services::database_service::{message_event, message_event_of};
use crate::services::news_service::{
    format_news_articles,
    headlines_or_none,
    news_block,
    usable_headlines,
};
use crate::services::weather_service::{
    celsius_rounded,
    to_celsius,
    unavailable_text,
    usable_weather,
    weather_or_default,
};
use crate::utils::date_utils::{
    get_current_date_info,
    get_month_name,
    is_month_name,
    is_weekday_name,
    month_name,
};
use crate::utils::text::{
    decimal,
    lemma_decimal_nonempty,
    lemma_occurs_between,
    lemma_occurs_widen,
    occurs_in,
    push_decimal,
    push_signed_decimal,
    signed_decimal,
};

verus! {

/// The lower-case form of a text, as `str::to_lowercase` gives it.
pub uninterp spec fn lowercased(text: Seq<char>) -> Seq<char>;

/// Calls `str::to_lowercase` of std. Trusted: what comes back depends on the
/// text alone. std documents it as the lower-case equivalent of the text by
/// the rules of Unicode, which are not written out here: the result goes by
/// the name `lowercased`.
#[verifier::external_body]
fn to_lowercase(text: &str) -> (folded: String)
    ensures
        folded@ == lowercased(text@),
{
    text.to_lowercase()
}

/// The greeting that the assistant answers, in lower case.
pub open spec fn trigger_phrase() -> Seq<char> {
    "oi márcia"@
}

/// Whether an utterance is the greeting: its lower-case form is the phrase,
/// character for character. Nothing is trimmed and no accent is dropped.
pub open spec fn is_trigger(utterance: Seq<char>) -> bool {
    lowercased(utterance) == trigger_phrase()
}

/// Whether a text that is already in lower case is the greeting.
pub fn matches_trigger(folded: &str) -> (hit: bool)
    ensures
        hit == (folded@ == trigger_phrase()),
{
    let phrase = String::from_str("oi márcia");
    let folded = String::from_str(folded);
    folded == phrase
}

/// Whether an utterance is the greeting.
pub fn recognizes(utterance: &str) -> (hit: bool)
    ensures
        hit == is_trigger(utterance@),
{
    let folded = to_lowercase(utterance);
    matches_trigger(folded.as_str())
}

/// The reply to everything that is not the greeting.
pub open spec fn fallback_text() -> Seq<char> {
    "Desculpe, não entendi. Você quis dizer 'Oi Marcia'?"@
}

/// The answer to everything that is not the greeting: the fixed reply, and
/// no audio.
pub open spec fn fallback_reply() -> MessageResponseView {
    MessageResponseView { reply: fallback_text(), additional_data: None }
}

/// The words up to the day of the month.
pub open spec fn opening_text() -> Seq<char> {
    "Olá! Rosiii!! ... tudo bem ?? tudo joinha com você ? ..... dormiu mais que a cama ? ...... Hoje é "@
}

/// The words that lead from the date to the highest temperature.
pub open spec fn forecast_opening_text() -> Seq<char> {
    "...... vamos ver se o tempo vai estar jururû ou bem humorado..... deixa eu procurar aqui.... Aqui, achei. Em Osasco, a temperatura máxima está "@
}

/// The words that lead from the forecast to the headlines.
pub open spec fn news_opening_text() -> Seq<char> {
    ". ula ia heim!!! .... agora deixa eu ver aqui o que aconteceu no mundo enquanto você dormia. ... Aqui... la vai algumas notícias do Brasil:"@
}

/// The part of the reply that tells the date: the day of the month, the
/// month's name and the weekday's name.
pub open spec fn date_sentence(date: DateInfoView) -> Seq<char> {
    opening_text() + decimal(date.day as nat) + " de "@ + month_name(date.month) + ", dia de "@
        + date.weekday
}

/// The part of the reply that tells the forecast: the highest and the lowest
/// temperature in whole degrees Celsius, then the descriptions of the day and
/// of the night.
pub open spec fn forecast_sentence(weather: WeatherInfoView) -> Seq<char> {
    forecast_opening_text() + signed_decimal(celsius_rounded(weather.max_temperature))
        + " graus, mínima "@ + signed_decimal(celsius_rounded(weather.min_temperature))
        + " graus, com previsão para o dia: "@ + weather.description_day + ", e para a noite: "@
        + weather.description_night
}

/// The part of the reply that tells the news.
pub open spec fn news_sentence(titles: Seq<Seq<char>>) -> Seq<char> {
    news_opening_text() + news_block(titles)
}

/// The reply to the greeting.
pub open spec fn reply_text(
    date: DateInfoView,
    weather: WeatherInfoView,
    titles: Seq<Seq<char>>,
) -> Seq<char> {
    date_sentence(date) + forecast_sentence(weather) + news_sentence(titles)
}

/// Words the date.
fn write_date_sentence(date: &DateInfo) -> (text: String)
    ensures
        text@ == date_sentence(date@),
{
    let mut text = String::from_str(
        "Olá! Rosiii!! ... tudo bem ?? tudo joinha com você ? ..... dormiu mais que a cama ? ...... Hoje é ",
    );
    push_decimal(&mut text, date.day as u64);
    text.append(" de ");
    text.append(get_month_name(date.month).as_str());
    text.append(", dia de ");
    text.append(date.weekday.as_str());
    text
}

/// Words the forecast.
fn write_forecast_sentence(weather: &WeatherInfo) -> (text: String)
    ensures
        text@ == forecast_sentence(weather@),
{
    let mut text = String::from_str(
        "...... vamos ver se o tempo vai estar jururû ou bem humorado..... deixa eu procurar aqui.... Aqui, achei. Em Osasco, a temperatura máxima está ",
    );
    push_signed_decimal(&mut text, to_celsius(weather.max_temperature));
    text.append(" graus, mínima ");
    push_signed_decimal(&mut text, to_celsius(weather.min_temperature));
    text.append(" graus, com previsão para o dia: ");
    text.append(weather.description_day.as_str());
    text.append(", e para a noite: ");
    text.append(weather.description_night.as_str());
    text
}

/// Words the news.
fn write_news_sentence(articles: &Vec<Article>) -> (text: String)
    ensures
        text@ == news_sentence(titles(articles@)),
{
    let mut text = String::from_str(
        ". ula ia heim!!! .... agora deixa eu ver aqui o que aconteceu no mundo enquanto você dormia. ... Aqui... la vai algumas notícias do Brasil:",
    );
    text.append(format_news_articles(articles.as_slice()).as_str());
    text
}

/// Words the reply to the greeting from the date, the forecast and the
/// headlines.
pub fn compose_reply(date: &DateInfo, weather: &WeatherInfo, articles: &Vec<Article>) -> (text:
    String)
    ensures
        text@ == reply_text(date@, weather@, titles(articles@)),
{
    let mut text = write_date_sentence(date);
    text.append(write_forecast_sentence(weather).as_str());
    text.append(write_news_sentence(articles).as_str());
    text
}

/// A recognized greeting for which the lookups are still to be made.
#[derive(Clone, Debug, PartialEq, Eq)]
pub struct Pending {
    pub utterance: String,
    pub date: DateInfo,
}

/// What is to be done about an utterance.
#[derive(Clone, Debug, PartialEq, Eq)]
pub enum Step {
    /// It is not the greeting: `reply` is the answer, and nothing is looked
    /// up, synthesized or recorded.
    Unrecognized { reply: MessageResponse },
    /// It is the greeting: the forecast and the headlines are to be looked
    /// up, each once, in any order.
    Gather { pending: Pending },
}

/// A worded reply for which the audio is still to be synthesized, under the
/// name `file_name`.
#[derive(Clone, Debug, PartialEq, Eq)]
pub struct Draft {
    pub utterance: String,
    pub text: String,
    pub file_name: String,
}

/// A handled greeting: the record to store, once, and the reply to send.
#[derive(Clone, Debug, PartialEq, Eq)]
pub struct Outcome {
    pub event: InteractionEvent,
    pub reply: MessageResponse,
}

/// The end of handling: the reply to send, and what is to be reported about
/// the store, if anything.
#[derive(Clone, Debug, PartialEq, Eq)]
pub struct Delivery {
    pub reply: MessageResponse,
    pub diagnostic: Option<FailureKind>,
}

/// Whether `step` is the step for an utterance that is not the greeting.
pub open spec fn is_unrecognized_step(step: Step) -> bool {
    step matches Step::Unrecognized { reply } && reply@ == fallback_reply()
}

/// Whether `step` is the step for the greeting `utterance`: the lookups are
/// asked for, with the utterance kept and a well-formed date.
pub open spec fn is_gather_step(step: Step, utterance: Seq<char>) -> bool {
    step matches Step::Gather { pending } && pending.utterance@ == utterance
        && pending.date@.wf()
}

/// The answer to everything that is not the greeting.
pub fn unrecognized() -> (reply: MessageResponse)
    ensures
        reply@ == fallback_reply(),
{
    MessageResponse {
        reply: String::from_str("Desculpe, não entendi. Você quis dizer 'Oi Marcia'?"),
        additional_data: None,
    }
}

/// Takes in an utterance. Anything but the greeting is answered at once with
/// the fixed reply, without audio, and asks for no lookup and no record. The
/// greeting asks for the lookups, dated today by the machine's clock.
pub fn handle_message(input: MessageInput) -> (step: Step)
    ensures
        !is_trigger(input.content@) ==> is_unrecognized_step(step),
        is_trigger(input.content@) ==> is_gather_step(step, input.content@),
{
    if recognizes(input.content.as_str()) {
        Step::Gather { pending: Pending { utterance: input.content, date: get_current_date_info() } }
    } else {
        Step::Unrecognized { reply: unrecognized() }
    }
}

/// Whether a text holds the day of the month, the name of the month and the
/// name of the weekday of a date.
pub open spec fn tells_the_date(text: Seq<char>, date: DateInfoView) -> bool {
    &&& occurs_in(decimal(date.day as nat), text)
    &&& occurs_in(month_name(date.month), text)
    &&& occurs_in(date.weekday, text)
}

/// Words the reply once both lookups have ended. A failed weather lookup
/// counts as the stand-in report, a failed news lookup as no headlines.
/// Whatever the lookups gave, the reply is not empty and tells the date.
pub fn compose(
    pending: Pending,
    weather: Result<WeatherInfo, FailureKind>,
    news: Result<Vec<Article>, FailureKind>,
) -> (draft: Draft)
    ensures
        draft.utterance@ == pending.utterance@,
        draft.text@ == reply_text(
            pending.date@,
            weather_or_default(weather),
            titles(headlines_or_none(news)),
        ),
        draft.file_name@ == audio_file_name_of(pending.date@),
        pending.date@.wf() ==> draft.text@.len() > 0 && tells_the_date(draft.text@, pending.date@),
{
    let report = usable_weather(weather);
    let articles = usable_headlines(news);
    let text = compose_reply(&pending.date, &report, &articles);
    proof {
        if pending.date@.wf() {
            lemma_reply_tells_the_date(pending.date@, report@, titles(articles@));
        }
    }
    let file_name = audio_file_name(&pending.date);
    Draft { utterance: pending.utterance, text, file_name }
}

/// The audio that goes with a reply: the file's path and name where audio
/// was produced, nothing otherwise.
pub open spec fn attachment_of(file_name: Seq<char>, synthesis: SynthesisResultView) -> Option<
    AudioAttachmentView,
> {
    if synthesis.produced() {
        Some(AudioAttachmentView { audio_path: synthesis.audio_path, file_name })
    } else {
        None
    }
}

/// The answer to the greeting: the worded reply, whatever became of the
/// audio, and the audio where there is any.
pub open spec fn reply_of(
    text: Seq<char>,
    file_name: Seq<char>,
    synthesis: SynthesisResultView,
) -> MessageResponseView {
    MessageResponseView { reply: text, additional_data: attachment_of(file_name, synthesis) }
}

/// Ends the handling of a greeting once synthesis has ended. The record is
/// of kind "message" with status "success"; it names the greeting, the
/// utterance as it came in and the reply as it goes out.
pub fn complete(draft: Draft, synthesis: SynthesisResult) -> (outcome: Outcome)
    ensures
        outcome.reply@ == reply_of(draft.text@, draft.file_name@, synthesis@),
        outcome.reply.reply@ == draft.text@,
        outcome.reply.additional_data is Some <==> synthesis@.produced(),
        outcome.event@ == message_event_of(
            trigger_phrase(),
            draft.utterance@,
            draft.text@,
            synthesis@,
            draft.file_name@,
        ),
{
    let event = message_event(
        "oi márcia",
        draft.utterance.as_str(),
        draft.text.as_str(),
        &synthesis,
        draft.file_name.as_str(),
    );
    let produced = synthesis.audio_path.as_str().unicode_len() > 0;
    let additional_data = if produced {
        Some(AudioAttachment { audio_path: synthesis.audio_path, file_name: draft.file_name })
    } else {
        None
    };
    Outcome { event, reply: MessageResponse { reply: draft.text, additional_data } }
}

/// What is reported about the store: nothing where the record was written,
/// a failure of persistence where it was not.
pub open spec fn store_diagnostic(recorded: bool) -> Option<FailureKind> {
    if recorded {
        None
    } else {
        Some(FailureKind::PersistenceFailure)
    }
}

/// Ends handling once the store has answered. A record that could not be
/// written is reported and changes nothing in the reply.
pub fn conclude(reply: MessageResponse, recorded: bool) -> (delivery: Delivery)
    ensures
        delivery.reply == reply,
        delivery.diagnostic == store_diagnostic(recorded),
{
    let diagnostic = if recorded {
        None
    } else {
        Some(FailureKind::PersistenceFailure)
    };
    Delivery { reply, diagnostic }
}

/// Whatever the lookups gave, the reply to the greeting is not empty, and it
/// holds the day of the month in decimal notation, the name of one of the
/// twelve months and the name of one of the seven days of the week.
pub proof fn lemma_reply_tells_the_date(
    date: DateInfoView,
    weather: WeatherInfoView,
    titles: Seq<Seq<char>>,
)
    requires
        date.wf(),
    ensures
        reply_text(date, weather, titles).len() > 0,
        tells_the_date(reply_text(date, weather, titles), date),
        is_month_name(month_name(date.month)),
        is_weekday_name(date.weekday),
{
    let day = decimal(date.day as nat);
    let month = month_name(date.month);
    let sentence = date_sentence(date);
    let rest = forecast_sentence(weather) + news_sentence(titles);
    let reply = reply_text(date, weather, titles);
    lemma_decimal_nonempty(date.day as nat);

    lemma_occurs_between(opening_text(), day, " de "@ + month + ", dia de "@ + date.weekday);
    assert(sentence =~= opening_text() + day + (" de "@ + month + ", dia de "@ + date.weekday));
    lemma_occurs_between(opening_text() + day + " de "@, month, ", dia de "@ + date.weekday);
    assert(sentence =~= opening_text() + day + " de "@ + month + (", dia de "@ + date.weekday));
    lemma_occurs_between(
        opening_text() + day + " de "@ + month + ", dia de "@,
        date.weekday,
        Seq::empty(),
    );
    assert(sentence =~= sentence + Seq::<char>::empty());

    assert(reply =~= Seq::<char>::empty() + sentence + rest);
    lemma_occurs_widen(day, Seq::empty(), sentence, rest);
    lemma_occurs_widen(month, Seq::empty(), sentence, rest);
    lemma_occurs_widen(date.weekday, Seq::empty(), sentence, rest);
}

/// After a failed weather lookup, whatever its kind, the reply tells the
/// forecast of the stand-in report: 18 degrees below zero twice, which is
/// zero degrees Fahrenheit, and the words for "unavailable" for the day and
/// for the night.
pub proof fn lemma_failed_lookup_forecast(kind: FailureKind)
    ensures
        forecast_sentence(weather_or_default(Err(kind))) == forecast_opening_text() + "-18"@
            + " graus, mínima "@ + "-18"@ + " graus, com previsão para o dia: "@
            + unavailable_text() + ", e para a noite: "@ + unavailable_text(),
{
    reveal_strlit("-18");
    reveal_with_fuel(decimal, 2);
    assert(signed_decimal(-18) =~= "-18"@);
}

/// The wording of a reply does not depend on what became of the audio: with
/// any two outcomes of synthesis the reply text is the composed text. Audio
/// is attached exactly where it was produced.
pub proof fn lemma_reply_text_survives_synthesis(
    text: Seq<char>,
    file_name: Seq<char>,
    one: SynthesisResultView,
    other: SynthesisResultView,
)
    ensures
        reply_of(text, file_name, one).reply == text,
        reply_of(text, file_name, one).reply == reply_of(text, file_name, other).reply,
        reply_of(text, file_name, one).additional_data is Some <==> one.produced(),
{
}

} // verus!
