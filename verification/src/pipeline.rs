//! The pipeline as a state machine. Each state says which outside result the
//! pipeline waits for; the caller performs the [`Action`] it is handed, feeds
//! the outcome back as an [`Event`], and the verified transition decides the
//! next step. The retry driver that wraps whole attempts lives here too.

use vstd::prelude::*;
use vstd::string::StringExecFns;
use crate::encode::{push_str_chars, string_from_chars};
use crate::json::json_raw_field_of;
use crate::post::{bearer_of, post_payload, post_text};
use crate::scrape::{scraped_image, BirdImage};
use crate::session::{session_of, session_request, Token};
use crate::species::{dataset_of, eligible, Bird, BirdView};

verus! {

/// The configuration of a pipeline run: the account handle and password used
/// to create a session, and the contact address named in the user agent.
pub struct Config {
    pub handle: String,
    pub password: String,
    pub email: String,
}

/// Why a pipeline attempt failed.
#[derive(Clone, Copy, PartialEq, Eq, Structural, Debug)]
pub enum Failure {
    MissingDataset,
    UnusableDataset,
    NoEligibleRecord,
    PageFetch,
    IncompleteMetadata,
    SessionFetch,
    IncompleteSession,
    PhotoFetch,
    UploadFetch,
    MissingBlob,
    Clock,
    RecordFetch,
    UnexpectedEvent,
}

/// How a pipeline attempt ended.
#[derive(Clone, Copy, PartialEq, Eq, Structural, Debug)]
pub enum AttemptOutcome {
    Posted,
    Failed(Failure),
}

/// Where a pipeline attempt stands: what it waits for, carrying what it has
/// gathered so far.
pub enum State {
    Ready,
    AwaitingDataset,
    AwaitingPage { bird: Bird },
    AwaitingSession { bird: Bird, image: BirdImage },
    AwaitingPhoto { bird: Bird, image: BirdImage, token: Token },
    AwaitingUpload { bird: Bird, image: BirdImage, token: Token },
    AwaitingRecord,
    Finished { outcome: AttemptOutcome },
}

/// The outcome of one outside step, handed back by the caller. A missing
/// body stands for a transport failure.
pub enum Event {
    Begin,
    DatasetRead { text: Option<String> },
    TextResponse { status: u16, body: Option<String> },
    BytesResponse { status: u16, bytes: Option<Vec<u8>> },
}

/// What the caller is asked to do next.
pub enum Action {
    ReadDataset,
    HttpGetText { url: String, user_agent: String },
    HttpGetBytes { url: String, user_agent: String },
    HttpPostJson { url: String, payload: String, bearer: Option<String> },
    HttpPostBytes { url: String, content_type: String, bearer: String, bytes: Vec<u8> },
    Stop { outcome: AttemptOutcome },
}

// ---------------------------------------------------------------------------
// The fixed endpoints
// ---------------------------------------------------------------------------

/// The profile page of a species.
pub open spec fn species_page_url(code: Seq<char>) -> Seq<char> {
    "https://ebird.org/species/"@ + code
}

/// The user agent naming the contact address.
pub open spec fn user_agent_of(email: Seq<char>) -> Seq<char> {
    "BirdOfTheDayBot ("@ + email + ")"@
}

pub open spec fn session_endpoint_text() -> Seq<char> {
    "https://bsky.social/xrpc/com.atproto.server.createSession"@
}

pub open spec fn upload_endpoint_text() -> Seq<char> {
    "https://bsky.social/xrpc/com.atproto.repo.uploadBlob"@
}

pub open spec fn record_endpoint_text() -> Seq<char> {
    "https://bsky.social/xrpc/com.atproto.repo.createRecord"@
}

/// Builds the profile page URL of a species.
pub fn build_species_page_url(code: &str) -> (r: String)
    ensures
        r@ == species_page_url(code@),
{
    let mut out: Vec<char> = Vec::new();
    push_str_chars(&mut out, "https://ebird.org/species/");
    push_str_chars(&mut out, code);
    string_from_chars(&out)
}

/// Builds the user agent for a contact address.
pub fn build_user_agent(email: &str) -> (r: String)
    ensures
        r@ == user_agent_of(email@),
{
    let mut out: Vec<char> = Vec::new();
    push_str_chars(&mut out, "BirdOfTheDayBot (");
    push_str_chars(&mut out, email);
    push_str_chars(&mut out, ")");
    string_from_chars(&out)
}

pub(crate) fn session_endpoint() -> (r: String)
    ensures
        r@ == session_endpoint_text(),
{
    String::from_str("https://bsky.social/xrpc/com.atproto.server.createSession")
}

pub(crate) fn upload_endpoint() -> (r: String)
    ensures
        r@ == upload_endpoint_text(),
{
    String::from_str("https://bsky.social/xrpc/com.atproto.repo.uploadBlob")
}

pub(crate) fn record_endpoint() -> (r: String)
    ensures
        r@ == record_endpoint_text(),
{
    String::from_str("https://bsky.social/xrpc/com.atproto.repo.createRecord")
}

// ---------------------------------------------------------------------------
// The transition relation
// ---------------------------------------------------------------------------

/// The attempt is over and has failed for this reason.
pub open spec fn fail_step(s2: State, a: Action, f: Failure) -> bool {
    s2 == (State::Finished { outcome: AttemptOutcome::Failed(f) }) && a == (Action::Stop {
        outcome: AttemptOutcome::Failed(f),
    })
}

/// Whether any record of a dataset is eligible.
pub open spec fn some_eligible(birds: Seq<BirdView>) -> bool {
    exists|i: int| 0 <= i < birds.len() && eligible(#[trigger] birds[i])
}

/// After the dataset text was read: a text that is not a JSON array of
/// well-formed records fails the step as an unusable dataset; a dataset with
/// no eligible record fails it cleanly; otherwise an eligible record of the
/// dataset was chosen — which one is the random draw's business — and its
/// species page is requested.
pub open spec fn dataset_step(config: Config, text: Seq<char>, s2: State, a: Action) -> bool {
    match dataset_of(text) {
        None => fail_step(s2, a, Failure::UnusableDataset),
        Some(birds) => {
            if some_eligible(birds) {
                &&& s2 matches State::AwaitingPage { bird }
                &&& eligible(bird@)
                &&& exists|i: int| 0 <= i < birds.len() && #[trigger] birds[i] == bird@
                &&& a matches Action::HttpGetText { url, user_agent }
                &&& url@ == species_page_url(bird.species_code@)
                &&& user_agent@ == user_agent_of(config.email@)
            } else {
                fail_step(s2, a, Failure::NoEligibleRecord)
            }
        },
    }
}

/// After the species page came back: with status 200 and all four metadata
/// values present, a session is requested with the configured credentials;
/// anything else fails the attempt.
pub open spec fn page_step(
    config: Config,
    bird: Bird,
    status: u16,
    body: Option<String>,
    s2: State,
    a: Action,
) -> bool {
    if status == 200 && body is Some {
        match scraped_image(body->Some_0@) {
            Some(imgv) => {
                &&& s2 matches State::AwaitingSession { bird: b2, image }
                &&& b2 == bird
                &&& image@ == imgv
                &&& a matches Action::HttpPostJson { url, payload, bearer }
                &&& url@ == session_endpoint_text()
                &&& payload@ == session_request(config.handle@, config.password@)
                &&& bearer is None
            },
            None => fail_step(s2, a, Failure::IncompleteMetadata),
        }
    } else {
        fail_step(s2, a, Failure::PageFetch)
    }
}

/// After the session response came back: with status 200 and both fields
/// present, the photo is downloaded; anything else fails the attempt.
pub open spec fn session_step(
    config: Config,
    bird: Bird,
    image: BirdImage,
    status: u16,
    body: Option<String>,
    s2: State,
    a: Action,
) -> bool {
    if status == 200 && body is Some {
        match session_of(body->Some_0@) {
            Some(tv) => {
                &&& s2 matches State::AwaitingPhoto { bird: b2, image: i2, token }
                &&& b2 == bird
                &&& i2 == image
                &&& token@ == tv
                &&& a matches Action::HttpGetBytes { url, user_agent }
                &&& url@ == image.url_download@
                &&& user_agent@ == user_agent_of(config.email@)
            },
            None => fail_step(s2, a, Failure::IncompleteSession),
        }
    } else {
        fail_step(s2, a, Failure::SessionFetch)
    }
}

/// After the photo bytes came back: with status 200 they are uploaded as a
/// blob, bearer-authenticated, under the scraped content type; anything else
/// fails the attempt.
pub open spec fn photo_step(
    bird: Bird,
    image: BirdImage,
    token: Token,
    status: u16,
    bytes: Option<Vec<u8>>,
    s2: State,
    a: Action,
) -> bool {
    if status == 200 && bytes is Some {
        &&& s2 matches State::AwaitingUpload { bird: b2, image: i2, token: t2 }
        &&& b2 == bird
        &&& i2 == image
        &&& t2 == token
        &&& a matches Action::HttpPostBytes { url, content_type, bearer, bytes: by }
        &&& url@ == upload_endpoint_text()
        &&& content_type@ == image.photo_type@
        &&& bearer@ == bearer_of(token.token@)
        &&& by@ == bytes->Some_0@
    } else {
        fail_step(s2, a, Failure::PhotoFetch)
    }
}

/// After the upload response came back: with status 200 and a blob reference
/// present, the post record is submitted, bearer-authenticated — its payload
/// is the verified rendering for some creation timestamp, since the clock's
/// text is not a function of the inputs; a failing clock fails the attempt,
/// as does anything else.
pub open spec fn upload_step(
    bird: Bird,
    image: BirdImage,
    token: Token,
    status: u16,
    body: Option<String>,
    s2: State,
    a: Action,
) -> bool {
    if status == 200 && body is Some {
        if json_raw_field_of(body->Some_0@, "blob"@) is Some {
            ||| fail_step(s2, a, Failure::Clock)
            ||| {
            &&& s2 is AwaitingRecord
            &&& a matches Action::HttpPostJson { url, payload, bearer }
            &&& url@ == record_endpoint_text()
            &&& bearer matches Some(b) && b@ == bearer_of(token.token@)
            &&& exists|ts: Seq<char>|
                payload@ == post_payload(
                    token.did@,
                    post_text(bird.common_name@, bird.scientific_name@),
                    image.url_source@,
                    ts,
                    image.alt_text@,
                    json_raw_field_of(body->Some_0@, "blob"@)->Some_0,
                )
            }
        } else {
            fail_step(s2, a, Failure::MissingBlob)
        }
    } else {
        fail_step(s2, a, Failure::UploadFetch)
    }
}

/// After the record-creation response came back: status 200 is full success,
/// anything else fails the attempt.
pub open spec fn record_step(status: u16, s2: State, a: Action) -> bool {
    if status == 200 {
        s2 == (State::Finished { outcome: AttemptOutcome::Posted }) && a == (Action::Stop {
            outcome: AttemptOutcome::Posted,
        })
    } else {
        fail_step(s2, a, Failure::RecordFetch)
    }
}

/// The transition relation of one pipeline attempt: what the next state and
/// the next action are for each state and event. An event that does not
/// answer the state's question fails the attempt.
pub open spec fn next_spec(config: Config, state: State, event: Event, s2: State, a: Action) -> bool {
    match (state, event) {
        (State::Ready, Event::Begin) => s2 is AwaitingDataset && a is ReadDataset,
        (State::AwaitingDataset, Event::DatasetRead { text }) => match text {
            Some(t) => dataset_step(config, t@, s2, a),
            None => fail_step(s2, a, Failure::MissingDataset),
        },
        (State::AwaitingPage { bird }, Event::TextResponse { status, body }) => page_step(
            config,
            bird,
            status,
            body,
            s2,
            a,
        ),
        (State::AwaitingSession { bird, image }, Event::TextResponse { status, body }) => session_step(
            config,
            bird,
            image,
            status,
            body,
            s2,
            a,
        ),
        (State::AwaitingPhoto { bird, image, token }, Event::BytesResponse { status, bytes }) => photo_step(
            bird,
            image,
            token,
            status,
            bytes,
            s2,
            a,
        ),
        (State::AwaitingUpload { bird, image, token }, Event::TextResponse { status, body }) => upload_step(
            bird,
            image,
            token,
            status,
            body,
            s2,
            a,
        ),
        (State::AwaitingRecord, Event::TextResponse { status, body: _ }) => record_step(
            status,
            s2,
            a,
        ),
        _ => fail_step(s2, a, Failure::UnexpectedEvent),
    }
}

/// The failed end of an attempt.
pub(crate) fn failed_attempt(f: Failure) -> (r: (State, Action))
    ensures
        fail_step(r.0, r.1, f),
{
    (
        State::Finished { outcome: AttemptOutcome::Failed(f) },
        Action::Stop { outcome: AttemptOutcome::Failed(f) },
    )
}

// ---------------------------------------------------------------------------
// The retry driver
// ---------------------------------------------------------------------------

/// The most attempts the driver makes.
pub const MAX_ATTEMPTS: u8 = 3;

/// The retry driver's bookkeeping: how many attempts ran, and whether the
/// last one succeeded.
pub struct Driver {
    pub attempts: u8,
    pub succeeded: bool,
}

/// Whether the driver wants another pipeline attempt.
pub open spec fn spec_should_attempt(d: Driver) -> bool {
    !d.succeeded && d.attempts < MAX_ATTEMPTS
}

/// The driver's bookkeeping after one more attempt with this outcome.
pub open spec fn spec_record(d: Driver, success: bool) -> Driver {
    Driver { attempts: (d.attempts + 1) as u8, succeeded: success }
}

/// What the driver reports: nothing while it still wants an attempt, else
/// whether any attempt succeeded.
pub open spec fn spec_outcome(d: Driver) -> Option<bool> {
    if spec_should_attempt(d) {
        None
    } else {
        Some(d.succeeded)
    }
}

impl Driver {
    /// A fresh driver: no attempts yet, no success.
    pub fn new() -> (r: Driver)
        ensures
            r == (Driver { attempts: 0u8, succeeded: false }),
    {
        Driver { attempts: 0, succeeded: false }
    }

    /// Whether another pipeline attempt should run.
    pub fn should_attempt(&self) -> (r: bool)
        ensures
            r == spec_should_attempt(*self),
    {
        !self.succeeded && self.attempts < MAX_ATTEMPTS
    }

    /// Notes the outcome of one pipeline attempt.
    pub fn record_attempt(&mut self, success: bool)
        requires
            spec_should_attempt(*old(self)),
        ensures
            *final(self) == spec_record(*old(self), success),
    {
        self.attempts = self.attempts + 1;
        self.succeeded = success;
    }

    /// What the driver reports once it is done.
    pub fn outcome(&self) -> (r: Option<bool>)
        ensures
            r == spec_outcome(*self),
    {
        if !self.succeeded && self.attempts < MAX_ATTEMPTS {
            None
        } else {
            Some(self.succeeded)
        }
    }
}

/// Law of the retry driver: when every attempt fails, it runs exactly three
/// attempts — after the first and the second failure it still wants another —
/// and after the third it wants no more and reports overall failure.
pub proof fn lemma_three_failed_attempts(d0: Driver)
    requires
        d0 == (Driver { attempts: 0u8, succeeded: false }),
    ensures
        ({
            let d1 = spec_record(d0, false);
            let d2 = spec_record(d1, false);
            let d3 = spec_record(d2, false);
            &&& spec_should_attempt(d0)
            &&& spec_should_attempt(d1)
            &&& spec_should_attempt(d2)
            &&& !spec_should_attempt(d3)
            &&& spec_outcome(d3) == Some(false)
        }),
{
}

/// Law of the retry driver: a success ends the retries at once and is what
/// the driver reports.
pub proof fn lemma_success_stops_retries(d: Driver)
    requires
        spec_should_attempt(d),
    ensures
        !spec_should_attempt(spec_record(d, true)),
        spec_outcome(spec_record(d, true)) == Some(true),
{
}

} // verus!
