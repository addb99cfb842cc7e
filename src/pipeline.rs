//! One webhook notification, from the message id to the HTTP status: the
//! decisions of the pipeline as a state machine. The caller performs each
//! `Action` (an HTTP request, a session operation) and hands back what came of
//! it as an `Event`.

use vstd::prelude::*;
use crate::config::{AppConfig, INTEGRATION_IDENTIFIER, message_url, message_url_of, part_url, part_url_of};
use crate::homeassistant::{ConfigMessage, discovery_document, lemma_discovery_document};
use crate::mailpit::{ImageData, MessageDetails, WebhookMessage, camera_name_of};
use crate::sensor::{
    AckWait, MqttEvent, MqttSettings, ack_wait_next, config_topic, config_topic_of, image_topic,
    image_topic_of, settings_for, wait_for_ack,
};

verus! {

/// Status of the webhook response once the pipeline has run through.
pub const STATUS_OK: u16 = 200;

/// Status of the webhook response when any step failed upstream.
pub const STATUS_FAILED: u16 = 502;

/// Why the attachment could not be retrieved.
#[derive(Clone, Copy, Debug, PartialEq, Eq, Structural)]
pub enum RetrievalError {
    /// A request failed, returned a non-success status, or its body did not decode.
    Transport,
    /// The message has no attachment.
    MissingAttachment,
    /// No line of the message body carries the camera marker.
    MissingCameraName,
}

/// Why a pipeline run failed.
#[derive(Clone, Copy, Debug, PartialEq, Eq, Structural)]
pub enum PipelineError {
    Retrieval(RetrievalError),
    /// The broker could not be reached or refused the session.
    Connect,
    /// The connection failed while a publish waited for its acknowledgment.
    Publish,
    /// No acknowledgment came within the bound of the wait.
    AckTimeout,
    /// An event came that the current stage does not wait for.
    UnexpectedEvent,
}

/// What the caller is asked to do next.
pub enum Action {
    /// GET this URL and decode its body as message details.
    FetchDetails { url: String },
    /// GET this URL and hand back its body.
    FetchPart { url: String },
    /// Open a broker session with these settings and drive it.
    Connect { settings: MqttSettings },
    /// Publish the discovery document, at least once, not retained.
    PublishConfig { topic: String, document: String },
    /// Publish the image bytes, at least once, not retained.
    PublishImage { topic: String, data: Vec<u8> },
    /// Drive the session and hand back its next event.
    Poll,
    /// Answer the webhook with this status; the run is over.
    Respond { status: u16 },
}

/// What came of the last action.
pub enum Event {
    DetailsFetched(MessageDetails),
    PartFetched(Vec<u8>),
    /// An HTTP request failed, returned a non-success status, or did not decode.
    FetchFailed,
    Mqtt(MqttEvent),
}

/// Where a run stands.
pub enum Stage {
    AwaitingDetails,
    AwaitingPart { camera_name: String },
    Connecting { image: ImageData },
    AwaitingConfigAck { image: ImageData, packet: Option<u16> },
    AwaitingImageAck { packet: Option<u16> },
    Done,
    Failed(PipelineError),
}

/// One run of the pipeline for one message.
pub struct Pipeline {
    pub message_id: String,
    pub stage: Stage,
}

/// The run has failed with `err` and answers with the failure status.
pub open spec fn fails_with(q: Pipeline, err: PipelineError, a: Action) -> bool {
    q.stage == Stage::Failed(err) && a == (Action::Respond { status: STATUS_FAILED })
}

/// One step of a run for `config`: from `p`, on event `e`, to `q`, asking for `a`.
pub open spec fn transition(config: AppConfig, p: Pipeline, e: Event, q: Pipeline, a: Action) -> bool {
    &&& q.message_id == p.message_id
    &&& match p.stage {
        Stage::AwaitingDetails => match e {
            Event::DetailsFetched(d) => if d.attachments.len() == 0 {
                fails_with(q, PipelineError::Retrieval(RetrievalError::MissingAttachment), a)
            } else {
                match camera_name_of(d.text@) {
                    None => fails_with(
                        q,
                        PipelineError::Retrieval(RetrievalError::MissingCameraName),
                        a,
                    ),
                    Some(name) => {
                        &&& q.stage matches Stage::AwaitingPart { camera_name }
                        &&& camera_name@ == name
                        &&& a matches Action::FetchPart { url }
                        &&& url@ == part_url_of(
                            config.mailpit_url@,
                            p.message_id@,
                            d.attachments[0].part_id@,
                        )
                    },
                }
            },
            Event::FetchFailed => fails_with(
                q,
                PipelineError::Retrieval(RetrievalError::Transport),
                a,
            ),
            _ => fails_with(q, PipelineError::UnexpectedEvent, a),
        },
        Stage::AwaitingPart { camera_name } => match e {
            Event::PartFetched(bytes) => {
                &&& q.stage matches Stage::Connecting { image }
                &&& image.camera_name == camera_name
                &&& image.data@ == bytes@
                &&& a matches Action::Connect { settings }
                &&& settings_for(config, settings)
            },
            Event::FetchFailed => fails_with(
                q,
                PipelineError::Retrieval(RetrievalError::Transport),
                a,
            ),
            _ => fails_with(q, PipelineError::UnexpectedEvent, a),
        },
        Stage::Connecting { image } => match e {
            Event::Mqtt(MqttEvent::Connected) => {
                &&& q.stage == (Stage::AwaitingConfigAck { image, packet: None })
                &&& a matches Action::PublishConfig { topic, document }
                &&& topic@ == config_topic_of(config.integration_id@)
                &&& document@ == discovery_document(image.camera_name@, config)
            },
            Event::Mqtt(MqttEvent::Error) => fails_with(q, PipelineError::Connect, a),
            Event::Mqtt(MqttEvent::Timeout) => fails_with(q, PipelineError::Connect, a),
            Event::Mqtt(_) => q.stage == p.stage && a == Action::Poll,
            _ => fails_with(q, PipelineError::UnexpectedEvent, a),
        },
        Stage::AwaitingConfigAck { image, packet } => match e {
            Event::Mqtt(m) => match ack_wait_next(packet, m) {
                AckWait::Pending(k) => q.stage == (Stage::AwaitingConfigAck { image, packet: k })
                    && a == Action::Poll,
                AckWait::Acked => {
                    &&& q.stage == (Stage::AwaitingImageAck { packet: None })
                    &&& a matches Action::PublishImage { topic, data }
                    &&& topic@ == image_topic_of(config.integration_id@)
                    &&& data@ == image.data@
                },
                AckWait::Failed => fails_with(q, PipelineError::Publish, a),
                AckWait::TimedOut => fails_with(q, PipelineError::AckTimeout, a),
            },
            _ => fails_with(q, PipelineError::UnexpectedEvent, a),
        },
        Stage::AwaitingImageAck { packet } => match e {
            Event::Mqtt(m) => match ack_wait_next(packet, m) {
                AckWait::Pending(k) => q.stage == (Stage::AwaitingImageAck { packet: k }) && a
                    == Action::Poll,
                AckWait::Acked => q.stage == Stage::Done && a == (Action::Respond {
                    status: STATUS_OK,
                }),
                AckWait::Failed => fails_with(q, PipelineError::Publish, a),
                AckWait::TimedOut => fails_with(q, PipelineError::AckTimeout, a),
            },
            _ => fails_with(q, PipelineError::UnexpectedEvent, a),
        },
        Stage::Done => q.stage == Stage::Done && a == (Action::Respond { status: STATUS_OK }),
        Stage::Failed(err) => fails_with(q, err, a),
    }
}

impl Pipeline {
    /// A run for message `message_id`, and its first action: fetch the message's details.
    pub fn start(config: &AppConfig, message_id: String) -> (r: (Pipeline, Action))
        ensures
            r.0.message_id == message_id,
            r.0.stage == Stage::AwaitingDetails,
            r.1 matches Action::FetchDetails { url } && url@ == message_url_of(
                config.mailpit_url@,
                message_id@,
            ),
    {
        let url = message_url(config.mailpit_url.as_str(), message_id.as_str());
        (Pipeline { message_id, stage: Stage::AwaitingDetails }, Action::FetchDetails { url })
    }

    /// A run for the message that a webhook notification names.
    pub fn for_webhook(config: &AppConfig, message: &WebhookMessage) -> (r: (Pipeline, Action))
        ensures
            r.0.message_id == message.id,
            r.0.stage == Stage::AwaitingDetails,
            r.1 matches Action::FetchDetails { url } && url@ == message_url_of(
                config.mailpit_url@,
                message.id@,
            ),
    {
        Pipeline::start(config, message.id.clone())
    }

    /// Takes in what came of the last action, and says what to do next.
    pub fn step(&mut self, config: &AppConfig, event: Event) -> (a: Action)
        ensures
            transition(*config, *old(self), event, *final(self), a),
    {
        let mut stage = Stage::Done;
        std::mem::swap(&mut self.stage, &mut stage);
        match stage {
            Stage::AwaitingDetails => match event {
                Event::DetailsFetched(d) => {
                    if d.attachments.len() == 0 {
                        self.fail(PipelineError::Retrieval(RetrievalError::MissingAttachment))
                    } else {
                        match d.get_camera_name() {
                            None => self.fail(
                                PipelineError::Retrieval(RetrievalError::MissingCameraName),
                            ),
                            Some(camera_name) => {
                                let url = part_url(
                                    config.mailpit_url.as_str(),
                                    self.message_id.as_str(),
                                    d.attachments[0].part_id.as_str(),
                                );
                                self.stage = Stage::AwaitingPart { camera_name };
                                Action::FetchPart { url }
                            },
                        }
                    }
                },
                Event::FetchFailed => self.fail(
                    PipelineError::Retrieval(RetrievalError::Transport),
                ),
                _ => self.fail(PipelineError::UnexpectedEvent),
            },
            Stage::AwaitingPart { camera_name } => match event {
                Event::PartFetched(data) => {
                    self.stage = Stage::Connecting { image: ImageData { camera_name, data } };
                    Action::Connect { settings: MqttSettings::for_config(config) }
                },
                Event::FetchFailed => self.fail(
                    PipelineError::Retrieval(RetrievalError::Transport),
                ),
                _ => self.fail(PipelineError::UnexpectedEvent),
            },
            Stage::Connecting { image } => match event {
                Event::Mqtt(MqttEvent::Connected) => {
                    let message = ConfigMessage::for_camera(image.camera_name.as_str(), config);
                    proof {
                        lemma_discovery_document(message, image.camera_name@, *config);
                    }
                    let document = message.to_json();
                    let topic = config_topic(config.integration_id.as_str());
                    self.stage = Stage::AwaitingConfigAck { image, packet: None };
                    Action::PublishConfig { topic, document }
                },
                Event::Mqtt(MqttEvent::Error) => self.fail(PipelineError::Connect),
                Event::Mqtt(MqttEvent::Timeout) => self.fail(PipelineError::Connect),
                Event::Mqtt(_) => {
                    self.stage = Stage::Connecting { image };
                    Action::Poll
                },
                _ => self.fail(PipelineError::UnexpectedEvent),
            },
            Stage::AwaitingConfigAck { image, packet } => match event {
                Event::Mqtt(m) => match wait_for_ack(packet, m) {
                    AckWait::Pending(k) => {
                        self.stage = Stage::AwaitingConfigAck { image, packet: k };
                        Action::Poll
                    },
                    AckWait::Acked => {
                        self.stage = Stage::AwaitingImageAck { packet: None };
                        Action::PublishImage {
                            topic: image_topic(config.integration_id.as_str()),
                            data: image.data,
                        }
                    },
                    AckWait::Failed => self.fail(PipelineError::Publish),
                    AckWait::TimedOut => self.fail(PipelineError::AckTimeout),
                },
                _ => self.fail(PipelineError::UnexpectedEvent),
            },
            Stage::AwaitingImageAck { packet } => match event {
                Event::Mqtt(m) => match wait_for_ack(packet, m) {
                    AckWait::Pending(k) => {
                        self.stage = Stage::AwaitingImageAck { packet: k };
                        Action::Poll
                    },
                    AckWait::Acked => {
                        self.stage = Stage::Done;
                        Action::Respond { status: STATUS_OK }
                    },
                    AckWait::Failed => self.fail(PipelineError::Publish),
                    AckWait::TimedOut => self.fail(PipelineError::AckTimeout),
                },
                _ => self.fail(PipelineError::UnexpectedEvent),
            },
            Stage::Done => Action::Respond { status: STATUS_OK },
            Stage::Failed(err) => self.fail(err),
        }
    }

    fn fail(&mut self, err: PipelineError) -> (a: Action)
        ensures
            final(self).message_id == old(self).message_id,
            fails_with(*final(self), err, a),
    {
        self.stage = Stage::Failed(err);
        Action::Respond { status: STATUS_FAILED }
    }
}

/// Every publish of a run goes to one of the integration's two topics, whatever
/// the camera: the discovery document to the config topic, the image to the
/// image topic.
pub proof fn lemma_publish_topics(config: AppConfig, p: Pipeline, e: Event, q: Pipeline, a: Action)
    requires
        transition(config, p, e, q, a),
    ensures
        a matches Action::PublishConfig { topic, document } ==> topic@ == config_topic_of(
            config.integration_id@,
        ),
        a matches Action::PublishImage { topic, data } ==> topic@ == image_topic_of(
            config.integration_id@,
        ),
{
}

/// For the default integration the two topics are
/// `homeassistant/image/reolink-mailpit/config` and `homeassistant/image/reolink-mailpit/image`.
pub proof fn lemma_default_topics()
    ensures
        config_topic_of(INTEGRATION_IDENTIFIER@) == "homeassistant/image/reolink-mailpit/config"@,
        image_topic_of(INTEGRATION_IDENTIFIER@) == "homeassistant/image/reolink-mailpit/image"@,
{
    reveal_strlit("reolink-mailpit");
    reveal_strlit("homeassistant/image/");
    reveal_strlit("/config");
    reveal_strlit("/image");
    reveal_strlit("homeassistant/image/reolink-mailpit/config");
    reveal_strlit("homeassistant/image/reolink-mailpit/image");
    assert(config_topic_of(INTEGRATION_IDENTIFIER@) =~= "homeassistant/image/reolink-mailpit/config"@);
    assert(image_topic_of(INTEGRATION_IDENTIFIER@) =~= "homeassistant/image/reolink-mailpit/image"@);
}

/// The image is published only on the step that receives the acknowledgment of
/// the discovery document's publish.
pub proof fn lemma_image_after_config_ack(
    config: AppConfig,
    p: Pipeline,
    e: Event,
    q: Pipeline,
    a: Action,
)
    requires
        transition(config, p, e, q, a),
        a is PublishImage,
    ensures
        p.stage matches Stage::AwaitingConfigAck { image, packet } && packet is Some && e == Event::Mqtt(
            MqttEvent::PubAck(packet->0),
        ),
{
}

/// Until the discovery document's publish is acknowledged, the image is not
/// published and the run does not succeed; a connection failure meanwhile fails
/// it, and so does the elapsed bound of the wait, as a timeout.
pub proof fn lemma_no_image_without_config_ack(
    config: AppConfig,
    p: Pipeline,
    e: Event,
    q: Pipeline,
    a: Action,
)
    requires
        transition(config, p, e, q, a),
        p.stage matches Stage::AwaitingConfigAck { image, packet } && !(packet is Some && e
            == Event::Mqtt(MqttEvent::PubAck(packet->0))),
    ensures
        !(a is PublishImage),
        a != (Action::Respond { status: STATUS_OK }),
        e == Event::Mqtt(MqttEvent::Error) ==> fails_with(q, PipelineError::Publish, a),
        e == Event::Mqtt(MqttEvent::Timeout) ==> fails_with(q, PipelineError::AckTimeout, a),
{
}

/// A message without attachments fails the run, and no part is fetched.
pub proof fn lemma_empty_attachments_fail(
    config: AppConfig,
    p: Pipeline,
    d: MessageDetails,
    q: Pipeline,
    a: Action,
)
    requires
        p.stage == Stage::AwaitingDetails,
        d.attachments.len() == 0,
        transition(config, p, Event::DetailsFetched(d), q, a),
    ensures
        !(a is FetchPart),
        fails_with(q, PipelineError::Retrieval(RetrievalError::MissingAttachment), a),
{
}

/// A run answers with success only once the image's publish is acknowledged.
pub proof fn lemma_success_after_image_ack(
    config: AppConfig,
    p: Pipeline,
    e: Event,
    q: Pipeline,
    a: Action,
)
    requires
        transition(config, p, e, q, a),
        a == (Action::Respond { status: STATUS_OK }),
    ensures
        p.stage == Stage::Done || (p.stage matches Stage::AwaitingImageAck { packet } && packet is Some
            && e == Event::Mqtt(MqttEvent::PubAck(packet->0))),
{
}

/// `states`, `events` and `actions` form a run from the start: step `i` goes
/// from `states[i]` on `events[i]` to `states[i + 1]`, asking for `actions[i]`.
pub open spec fn is_run(
    config: AppConfig,
    states: Seq<Pipeline>,
    events: Seq<Event>,
    actions: Seq<Action>,
) -> bool {
    &&& states.len() == events.len() + 1
    &&& actions.len() == events.len()
    &&& states[0].stage == Stage::AwaitingDetails
    &&& forall|i: int|
        #![trigger events[i]]
        0 <= i < events.len() ==> transition(config, states[i], events[i], states[i + 1], actions[i])
}

/// The discovery document has been published in this stage.
pub open spec fn config_published(s: Stage) -> bool {
    s is AwaitingConfigAck || s is AwaitingImageAck || s is Done
}

/// The image has been published in this stage.
pub open spec fn image_published(s: Stage) -> bool {
    s is AwaitingImageAck || s is Done
}

proof fn lemma_published_before(
    config: AppConfig,
    states: Seq<Pipeline>,
    events: Seq<Event>,
    actions: Seq<Action>,
    i: int,
)
    requires
        is_run(config, states, events, actions),
        0 <= i <= events.len(),
    ensures
        config_published(states[i].stage) ==> exists|j: int|
            0 <= j < i && #[trigger] actions[j] is PublishConfig,
        image_published(states[i].stage) ==> exists|j: int|
            0 <= j < i && #[trigger] actions[j] is PublishImage,
    decreases i,
{
    if i > 0 {
        lemma_published_before(config, states, events, actions, i - 1);
        let e = events[i - 1];
        assert(transition(config, states[i - 1], e, states[i], actions[i - 1]));
        if config_published(states[i].stage) && config_published(states[i - 1].stage) {
            let j = choose|j: int| 0 <= j < i - 1 && #[trigger] actions[j] is PublishConfig;
            assert(actions[j] is PublishConfig);
        }
        if image_published(states[i].stage) && image_published(states[i - 1].stage) {
            let j = choose|j: int| 0 <= j < i - 1 && #[trigger] actions[j] is PublishImage;
            assert(actions[j] is PublishImage);
        }
    }
}

/// In every run, the image is published only after the discovery document was
/// published, and on the step that receives that publish's acknowledgment.
pub proof fn lemma_run_config_before_image(
    config: AppConfig,
    states: Seq<Pipeline>,
    events: Seq<Event>,
    actions: Seq<Action>,
    k: int,
)
    requires
        is_run(config, states, events, actions),
        0 <= k < actions.len(),
        actions[k] is PublishImage,
    ensures
        exists|j: int| 0 <= j < k && #[trigger] actions[j] is PublishConfig,
        states[k].stage matches Stage::AwaitingConfigAck { image, packet } && packet is Some
            && events[k] == Event::Mqtt(MqttEvent::PubAck(packet->0)),
{
    assert(transition(config, states[k], events[k], states[k + 1], actions[k]));
    lemma_published_before(config, states, events, actions, k);
}

/// In every run, success is answered only after both the discovery document and
/// the image were published.
pub proof fn lemma_run_success_after_publishes(
    config: AppConfig,
    states: Seq<Pipeline>,
    events: Seq<Event>,
    actions: Seq<Action>,
    k: int,
)
    requires
        is_run(config, states, events, actions),
        0 <= k < actions.len(),
        actions[k] == (Action::Respond { status: STATUS_OK }),
    ensures
        exists|j: int| 0 <= j < k && #[trigger] actions[j] is PublishConfig,
        exists|j: int| 0 <= j < k && #[trigger] actions[j] is PublishImage,
{
    assert(transition(config, states[k], events[k], states[k + 1], actions[k]));
    lemma_published_before(config, states, events, actions, k);
}

} // verus!
