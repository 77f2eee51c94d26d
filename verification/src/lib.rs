//! A small pipeline that picks a random bird species from a local dataset,
//! scrapes photo metadata for it, authenticates to a hosting service, and
//! builds the post that announces the bird of the day.
//!
//! The pipeline itself performs no I/O: every network or file step is an
//! [`Action`](pipeline::Action) handed to the caller, which answers with an
//! [`Event`](pipeline::Event). The decisions between the steps, the filtering
//! and selection of the species, the scraping of the metadata, the parsing of
//! the session, and the construction of the post payload are all verified.

pub mod encode;
pub mod json;
pub mod pipeline;
pub mod post;
pub mod scrape;
pub mod session;
pub mod species;

use vstd::prelude::*;
use crate::json::json_raw_field;
use crate::pipeline::{
    build_species_page_url, build_user_agent, failed_attempt, next_spec, record_endpoint,
    session_endpoint, upload_endpoint, Action, AttemptOutcome, Config, Event, Failure, State,
};
use crate::post::{bearer_header, build_post_payload, now_rfc3339};
use crate::scrape::scrape_bird_image;
use crate::session::{build_session_request, parse_session};
use crate::species::{eligible, parse_birds, select_bird, Bird};

verus! {

/// One transition of a pipeline attempt: takes where the attempt stands and
/// the outcome of the last outside step, decides the next state, and hands
/// the caller the next action to perform. Driving it from [`State::Ready`]
/// with [`Event::Begin`] until it asks to stop performs one full attempt:
/// pick a bird, scrape its photo metadata, create a session, download and
/// upload the photo, and submit the post.
pub fn run(config: &Config, state: State, event: Event) -> (r: (State, Action))
    ensures
        next_spec(*config, state, event, r.0, r.1),
{
    match (state, event) {
        (State::Ready, Event::Begin) => (State::AwaitingDataset, Action::ReadDataset),
        (State::AwaitingDataset, Event::DatasetRead { text }) => {
            let t = match text {
                Some(t) => t,
                None => return failed_attempt(Failure::MissingDataset),
            };
            let birds = match parse_birds(t.as_str()) {
                Some(b) => b,
                None => return failed_attempt(Failure::UnusableDataset),
            };
            let ghost bv = birds@;
            let ghost mapped = bv.map_values(|b: Bird| b@);
            match select_bird(birds) {
                Some(bird) => {
                    proof {
                        let i = choose|i: int| 0 <= i < bv.len() && #[trigger] bv[i]@ == bird@;
                        assert(mapped[i] == bird@);
                        assert(crate::pipeline::some_eligible(mapped)) by {
                            assert(eligible(mapped[i]));
                        }
                    }
                    let url = build_species_page_url(bird.species_code.as_str());
                    let user_agent = build_user_agent(config.email.as_str());
                    (State::AwaitingPage { bird }, Action::HttpGetText { url, user_agent })
                },
                None => {
                    proof {
                        assert(!crate::pipeline::some_eligible(mapped)) by {
                            if crate::pipeline::some_eligible(mapped) {
                                let j = choose|j: int|
                                    0 <= j < mapped.len() && eligible(#[trigger] mapped[j]);
                                assert(mapped[j] == bv[j]@);
                                assert(eligible(bv[j]@));
                            }
                        }
                    }
                    failed_attempt(Failure::NoEligibleRecord)
                },
            }
        },
        (State::AwaitingPage { bird }, Event::TextResponse { status, body }) => {
            let page = match body {
                Some(p) => p,
                None => return failed_attempt(Failure::PageFetch),
            };
            if status != 200 {
                return failed_attempt(Failure::PageFetch);
            }
            match scrape_bird_image(page.as_str()) {
                Some(image) => {
                    let payload = build_session_request(
                        config.handle.as_str(),
                        config.password.as_str(),
                    );
                    (
                        State::AwaitingSession { bird, image },
                        Action::HttpPostJson { url: session_endpoint(), payload, bearer: None },
                    )
                },
                None => failed_attempt(Failure::IncompleteMetadata),
            }
        },
        (State::AwaitingSession { bird, image }, Event::TextResponse { status, body }) => {
            let resp = match body {
                Some(b) => b,
                None => return failed_attempt(Failure::SessionFetch),
            };
            if status != 200 {
                return failed_attempt(Failure::SessionFetch);
            }
            match parse_session(resp.as_str()) {
                Some(token) => {
                    let url = image.url_download.clone();
                    let user_agent = build_user_agent(config.email.as_str());
                    (
                        State::AwaitingPhoto { bird, image, token },
                        Action::HttpGetBytes { url, user_agent },
                    )
                },
                None => failed_attempt(Failure::IncompleteSession),
            }
        },
        (State::AwaitingPhoto { bird, image, token }, Event::BytesResponse { status, bytes }) => {
            let got = match bytes {
                Some(b) => b,
                None => return failed_attempt(Failure::PhotoFetch),
            };
            if status != 200 {
                return failed_attempt(Failure::PhotoFetch);
            }
            let content_type = image.photo_type.clone();
            let bearer = bearer_header(token.token.as_str());
            (
                State::AwaitingUpload { bird, image, token },
                Action::HttpPostBytes {
                    url: upload_endpoint(),
                    content_type,
                    bearer,
                    bytes: got,
                },
            )
        },
        (State::AwaitingUpload { bird, image, token }, Event::TextResponse { status, body }) => {
            let ghost body0 = body;
            let resp = match body {
                Some(b) => b,
                None => return failed_attempt(Failure::UploadFetch),
            };
            if status != 200 {
                return failed_attempt(Failure::UploadFetch);
            }
            let blob_raw = match json_raw_field(resp.as_str(), "blob") {
                Some(b) => b,
                None => return failed_attempt(Failure::MissingBlob),
            };
            let created_at = match now_rfc3339() {
                Some(t) => t,
                None => return failed_attempt(Failure::Clock),
            };
            let payload = build_post_payload(
                &bird,
                &image,
                &token,
                blob_raw.as_str(),
                created_at.as_str(),
            );
            let bearer = bearer_header(token.token.as_str());
            proof {
                assert(resp@ == body0->Some_0@);
                assert(crate::json::json_raw_field_of(body0->Some_0@, "blob"@) == Some(
                    blob_raw@,
                ));
                assert(payload@ == crate::post::post_payload(
                    token.did@,
                    crate::post::post_text(bird.common_name@, bird.scientific_name@),
                    image.url_source@,
                    created_at@,
                    image.alt_text@,
                    crate::json::json_raw_field_of(body0->Some_0@, "blob"@)->Some_0,
                ));
            }
            (
                State::AwaitingRecord,
                Action::HttpPostJson { url: record_endpoint(), payload, bearer: Some(bearer) },
            )
        },
        (State::AwaitingRecord, Event::TextResponse { status, body: _ }) => {
            if status == 200 {
                (
                    State::Finished { outcome: AttemptOutcome::Posted },
                    Action::Stop { outcome: AttemptOutcome::Posted },
                )
            } else {
                failed_attempt(Failure::RecordFetch)
            }
        },
        (_, _) => failed_attempt(Failure::UnexpectedEvent),
    }
}

} // verus!


