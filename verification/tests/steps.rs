use birdoftheday::post::{bearer_header, build_post_payload, build_post_text, credit_range};
use birdoftheday::scrape::{scrape_bird_image, BirdImage};
use birdoftheday::session::{build_session_request, parse_session, Token};
use birdoftheday::species::{parse_birds, select_bird, Bird};

fn bird(common: &str, sci: &str, code: &str, extinct: Option<bool>) -> Bird {
    Bird {
        scientific_name: sci.to_string(),
        common_name: common.to_string(),
        species_code: code.to_string(),
        category: "species".to_string(),
        taxon_order: "1.0".to_string(),
        banding_codes: None,
        com_name_codes: None,
        sci_name_codes: None,
        order: None,
        family_com_name: None,
        family_sci_name: None,
        family_code: None,
        report_as: None,
        extinct,
        extinct_year: None,
    }
}

// --- selection ---

#[test]
fn selection_returns_the_only_eligible_record() {
    let birds = vec![
        bird("Passenger Pigeon", "Ectopistes migratorius", "paspig", Some(true)),
        bird("gull sp.", "Larinae sp.", "gull1", None),
        bird("Blue Jay", "Cyanocitta cristata", "blujay", None),
    ];
    let picked = select_bird(birds).expect("one record is eligible");
    assert_eq!(picked.common_name, "Blue Jay".to_string());
    assert_eq!(picked.species_code, "blujay".to_string());
}

#[test]
fn selection_picks_among_eligible_records_only() {
    let birds = vec![
        bird("duck sp.", "Anatinae sp.", "duck1", None),
        bird("Mallard", "Anas platyrhynchos", "mallar3", None),
        bird("Canada Goose", "Branta canadensis", "cangoo", None),
        bird("Great Auk", "Pinguinus impennis", "greauk", Some(true)),
    ];
    for _ in 0..32 {
        let more = vec![
            bird("duck sp.", "Anatinae sp.", "duck1", None),
            bird("Mallard", "Anas platyrhynchos", "mallar3", None),
            bird("Canada Goose", "Branta canadensis", "cangoo", None),
            bird("Great Auk", "Pinguinus impennis", "greauk", Some(true)),
        ];
        let picked = select_bird(more).expect("two records are eligible");
        assert!(picked.common_name == "Mallard".to_string()
            || picked.common_name == "Canada Goose".to_string());
    }
    let picked = select_bird(birds).unwrap();
    assert!(!picked.common_name.contains("sp."));
    assert_ne!(picked.extinct, Some(true));
}

#[test]
fn selection_fails_cleanly_on_an_empty_dataset() {
    assert!(select_bird(Vec::new()).is_none());
}

#[test]
fn selection_fails_cleanly_when_every_record_is_filtered_out() {
    let birds = vec![
        bird("gull sp.", "Larinae sp.", "gull1", None),
        bird("Great Auk", "Pinguinus impennis", "greauk", Some(true)),
    ];
    assert!(select_bird(birds).is_none());
}

#[test]
fn selection_keeps_records_whose_extinct_flag_is_false() {
    let birds = vec![
        bird("Great Auk", "Pinguinus impennis", "greauk", Some(true)),
        bird("Kakapo", "Strigops habroptila", "kakapo1", Some(false)),
    ];
    let picked = select_bird(birds).expect("a record flagged extinct=false stays eligible");
    assert_eq!(picked.common_name, "Kakapo".to_string());
}

// --- dataset parsing ---

#[test]
fn dataset_parse_reads_all_fields() {
    let text = "[{\"comName\":\"Blue Jay\",\"sciName\":\"Cyanocitta cristata\",\
\"speciesCode\":\"blujay\",\"category\":\"species\",\"taxonOrder\":18926.0,\
\"bandingCodes\":[\"BLJA\"],\"order\":\"Passeriformes\",\"familyComName\":\"Crows\",\
\"extinct\":false,\"extinctYear\":null},\
{\"comName\":\"Great Auk\",\"sciName\":\"Pinguinus impennis\",\"speciesCode\":\"greauk\",\
\"category\":\"species\",\"taxonOrder\":2.0,\"extinct\":true,\"extinctYear\":1844}]";
    let birds = parse_birds(text).expect("both records are well-formed");
    assert_eq!(birds.len(), 2);
    assert_eq!(birds[0].common_name, "Blue Jay".to_string());
    assert_eq!(birds[0].scientific_name, "Cyanocitta cristata".to_string());
    assert_eq!(birds[0].species_code, "blujay".to_string());
    assert_eq!(birds[0].category, "species".to_string());
    assert_eq!(birds[0].taxon_order, "18926.0".to_string());
    assert_eq!(birds[0].banding_codes, Some(vec!["BLJA".to_string()]));
    assert_eq!(birds[0].order, Some("Passeriformes".to_string()));
    assert_eq!(birds[0].family_com_name, Some("Crows".to_string()));
    assert_eq!(birds[0].family_sci_name, None);
    assert_eq!(birds[0].extinct, Some(false));
    assert_eq!(birds[0].extinct_year, None);
    assert_eq!(birds[1].extinct, Some(true));
    assert_eq!(birds[1].extinct_year, Some(1844));
}

#[test]
fn dataset_parse_rejects_an_ill_typed_optional_field() {
    let text = "[{\"comName\":\"Blue Jay\",\"sciName\":\"Cyanocitta cristata\",\
\"speciesCode\":\"blujay\",\"category\":\"species\",\"taxonOrder\":1.0,\
\"extinct\":\"yes\"}]";
    assert!(parse_birds(text).is_none());
}

// --- scraping ---

const PAGE_OK: &str = "<html><head>\
<meta property=\"og:image\" content=\"https://cdn.example/photo.jpg\"/>\
<meta property=\"og:image:alt\" content=\"A blue jay on a branch\"/>\
<meta property=\"og:url\" content=\"https://ebird.org/species/blujay\"/>\
<link rel=\"image_src\" type=\"image/jpeg\" href=\"https://cdn.example/photo.jpg\"/>\
</head><body></body></html>";

#[test]
fn scraper_extracts_all_four_values() {
    let img = scrape_bird_image(PAGE_OK).expect("all four tags are present");
    assert_eq!(img.url_download, "https://cdn.example/photo.jpg".to_string());
    assert_eq!(img.alt_text, "A blue jay on a branch".to_string());
    assert_eq!(img.url_source, "https://ebird.org/species/blujay".to_string());
    assert_eq!(img.photo_type, "image/jpeg".to_string());
}

#[test]
fn scraper_fails_when_any_tag_is_missing() {
    let tags = [
        "<meta property=\"og:image\" content=\"https://cdn.example/photo.jpg\"/>",
        "<meta property=\"og:image:alt\" content=\"A blue jay on a branch\"/>",
        "<meta property=\"og:url\" content=\"https://ebird.org/species/blujay\"/>",
        "<link rel=\"image_src\" type=\"image/jpeg\" href=\"https://cdn.example/photo.jpg\"/>",
    ];
    for skip in 0..4 {
        let mut page = String::from("<html><head>");
        for (i, tag) in tags.iter().enumerate() {
            if i != skip {
                page.push_str(tag);
            }
        }
        page.push_str("</head><body></body></html>");
        assert!(scrape_bird_image(&page).is_none(), "tag {} was missing", skip);
    }
}

#[test]
fn scraper_fails_on_an_empty_document() {
    assert!(scrape_bird_image("").is_none());
}

// --- session ---

#[test]
fn session_reads_both_fields() {
    let t: Token = parse_session("{\"accessJwt\":\"tok\",\"did\":\"did:abc\"}")
        .expect("both fields are present");
    assert_eq!(t.token, "tok".to_string());
    assert_eq!(t.did, "did:abc".to_string());
}

#[test]
fn session_fails_without_the_token_field() {
    assert!(parse_session("{\"did\":\"did:abc\"}").is_none());
}

#[test]
fn session_fails_without_the_account_field() {
    assert!(parse_session("{\"accessJwt\":\"tok\"}").is_none());
}

#[test]
fn session_fails_on_unparsable_text() {
    assert!(parse_session("not json").is_none());
}

#[test]
fn session_request_is_valid_json_with_escaping() {
    let body = build_session_request("bird.example.com", "pa\"ss\\word\nend");
    let v: serde_json::Value = serde_json::from_str(&body).expect("the request is valid JSON");
    assert_eq!(v.get("identifier").unwrap().as_str().unwrap(), "bird.example.com");
    assert_eq!(v.get("password").unwrap().as_str().unwrap(), "pa\"ss\\word\nend");
}

// --- post text and the credit range ---

#[test]
fn post_text_has_the_expected_shape() {
    let text = build_post_text("Blue Jay", "Cyanocitta cristata");
    assert_eq!(text, "Blue Jay (Cyanocitta cristata)\n\nImage Credit".to_string());
}

#[test]
fn credit_range_ends_at_the_byte_length() {
    let text = build_post_text("Blue Jay", "Cyanocitta cristata");
    let (start, end) = credit_range(&text);
    assert_eq!(end, text.len());
    assert_eq!(start, text.len() - "Image Credit".len());
    assert_eq!(&text.as_bytes()[start..end], b"Image Credit");
}

#[test]
fn credit_range_is_right_for_multi_byte_names() {
    let text = build_post_text("Ägretthäger", "Ardea alba");
    assert_ne!(text.len(), text.chars().count());
    let (start, end) = credit_range(&text);
    assert_eq!(end, text.len());
    assert_eq!(start, text.len() - 12);
    assert_eq!(&text.as_bytes()[start..end], b"Image Credit");
}

// --- the payload ---

#[test]
fn payload_carries_text_range_link_and_blob() {
    let b = bird("Blåmes", "Cyanistes caeruleus", "blutit", None);
    let img = BirdImage {
        photo_type: "image/jpeg".to_string(),
        url_download: "https://cdn.example/photo.jpg".to_string(),
        url_source: "https://ebird.org/species/blutit".to_string(),
        alt_text: "A blue tit".to_string(),
    };
    let tok = Token { token: "tok".to_string(), did: "did:abc".to_string() };
    let blob_raw = "{\"$type\":\"blob\",\"ref\":{\"$link\":\"abc\"}}";
    let payload = build_post_payload(&b, &img, &tok, blob_raw, "2024-05-01T12:00:00Z");
    let v: serde_json::Value = serde_json::from_str(&payload).expect("the payload is valid JSON");
    assert_eq!(v.get("repo").unwrap().as_str().unwrap(), "did:abc");
    assert_eq!(v.get("collection").unwrap().as_str().unwrap(), "app.bsky.feed.post");
    let record = v.get("record").unwrap();
    let text = "Blåmes (Cyanistes caeruleus)\n\nImage Credit";
    assert_eq!(record.get("text").unwrap().as_str().unwrap(), text);
    assert_eq!(record.get("createdAt").unwrap().as_str().unwrap(), "2024-05-01T12:00:00Z");
    let index = record.get("facets").unwrap()[0].get("index").unwrap();
    assert_eq!(index.get("byteStart").unwrap().as_u64().unwrap() as usize, text.len() - 12);
    assert_eq!(index.get("byteEnd").unwrap().as_u64().unwrap() as usize, text.len());
    let feature = &record.get("facets").unwrap()[0].get("features").unwrap()[0];
    assert_eq!(feature.get("uri").unwrap().as_str().unwrap(), "https://ebird.org/species/blutit");
    let image = &record.get("embed").unwrap().get("images").unwrap()[0];
    assert_eq!(image.get("alt").unwrap().as_str().unwrap(), "A blue tit");
    let want_blob: serde_json::Value = serde_json::from_str(blob_raw).unwrap();
    assert_eq!(image.get("image").unwrap(), &want_blob);
}

#[test]
fn bearer_header_prefixes_the_token() {
    assert_eq!(bearer_header("tok"), "Bearer tok".to_string());
}
