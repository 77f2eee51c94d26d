//! The species reference dataset: records, the eligibility rule, parsing the
//! dataset from JSON text, and picking a random eligible record.

use vstd::prelude::*;
use crate::encode::{contains_sub, opt_list_view, opt_text_view, str_contains};
use crate::json::{
    json_array_elems, json_array_elems_of, json_number_field, json_number_field_of,
    json_opt_bool_field, json_opt_bool_field_of, json_opt_i64_field, json_opt_i64_field_of,
    json_opt_str_field, json_opt_str_field_of, json_opt_str_list_field,
    json_opt_str_list_field_of, json_str_field, json_str_field_of,
};
use rand::Rng;

verus! {

/// One record of the species reference dataset: the required naming fields,
/// the optional classification metadata, and the optional extinction flag and
/// year. The taxonomic sort key is kept as the number's JSON text, so that
/// the record holds plain values only.
pub struct Bird {
    pub scientific_name: String,
    pub common_name: String,
    pub species_code: String,
    pub category: String,
    pub taxon_order: String,
    pub banding_codes: Option<Vec<String>>,
    pub com_name_codes: Option<Vec<String>>,
    pub sci_name_codes: Option<Vec<String>>,
    pub order: Option<String>,
    pub family_com_name: Option<String>,
    pub family_sci_name: Option<String>,
    pub family_code: Option<String>,
    pub report_as: Option<String>,
    pub extinct: Option<bool>,
    pub extinct_year: Option<i64>,
}

/// The mathematical value of a record: its texts as character sequences.
pub struct BirdView {
    pub scientific_name: Seq<char>,
    pub common_name: Seq<char>,
    pub species_code: Seq<char>,
    pub category: Seq<char>,
    pub taxon_order: Seq<char>,
    pub banding_codes: Option<Seq<Seq<char>>>,
    pub com_name_codes: Option<Seq<Seq<char>>>,
    pub sci_name_codes: Option<Seq<Seq<char>>>,
    pub order: Option<Seq<char>>,
    pub family_com_name: Option<Seq<char>>,
    pub family_sci_name: Option<Seq<char>>,
    pub family_code: Option<Seq<char>>,
    pub report_as: Option<Seq<char>>,
    pub extinct: Option<bool>,
    pub extinct_year: Option<i64>,
}

impl View for Bird {
    type V = BirdView;

    open spec fn view(&self) -> BirdView {
        BirdView {
            scientific_name: self.scientific_name@,
            common_name: self.common_name@,
            species_code: self.species_code@,
            category: self.category@,
            taxon_order: self.taxon_order@,
            banding_codes: opt_list_view(self.banding_codes),
            com_name_codes: opt_list_view(self.com_name_codes),
            sci_name_codes: opt_list_view(self.sci_name_codes),
            order: opt_text_view(self.order),
            family_com_name: opt_text_view(self.family_com_name),
            family_sci_name: opt_text_view(self.family_sci_name),
            family_code: opt_text_view(self.family_code),
            report_as: opt_text_view(self.report_as),
            extinct: self.extinct,
            extinct_year: self.extinct_year,
        }
    }
}

/// A record may be posted when its common name does not mark an unresolved
/// species group and it is not flagged extinct. A record whose extinction
/// flag is present but false is not flagged extinct, and stays eligible.
pub open spec fn eligible(b: BirdView) -> bool {
    !contains_sub(b.common_name, "sp."@) && b.extinct != Some(true)
}

/// Whether this record may be posted.
pub fn bird_eligible(b: &Bird) -> (r: bool)
    ensures
        r == eligible(b@),
{
    if str_contains(b.common_name.as_str(), "sp.") {
        false
    } else {
        match b.extinct {
            Some(true) => false,
            _ => true,
        }
    }
}

// ---------------------------------------------------------------------------
// Parsing the dataset
// ---------------------------------------------------------------------------

/// The record held by the JSON text of one dataset entry: the four text
/// fields and the taxonomic sort key must be present (the key as a number);
/// the classification metadata and the extinction fields may be absent or
/// null, but not of another shape; unknown fields are ignored. Nothing when
/// any of that fails.
pub open spec fn record_of(elem: Seq<char>) -> Option<BirdView> {
    let sci = json_str_field_of(elem, "sciName"@);
    let com = json_str_field_of(elem, "comName"@);
    let code = json_str_field_of(elem, "speciesCode"@);
    let cat = json_str_field_of(elem, "category"@);
    let tax = json_number_field_of(elem, "taxonOrder"@);
    let banding = json_opt_str_list_field_of(elem, "bandingCodes"@);
    let comcodes = json_opt_str_list_field_of(elem, "comNameCodes"@);
    let scicodes = json_opt_str_list_field_of(elem, "sciNameCodes"@);
    let ord = json_opt_str_field_of(elem, "order"@);
    let famcom = json_opt_str_field_of(elem, "familyComName"@);
    let famsci = json_opt_str_field_of(elem, "familySciName"@);
    let famcode = json_opt_str_field_of(elem, "familyCode"@);
    let repas = json_opt_str_field_of(elem, "reportAs"@);
    let ext = json_opt_bool_field_of(elem, "extinct"@);
    let exty = json_opt_i64_field_of(elem, "extinctYear"@);
    if sci is Some && com is Some && code is Some && cat is Some && tax is Some && banding is Some
        && comcodes is Some && scicodes is Some && ord is Some && famcom is Some && famsci is Some
        && famcode is Some && repas is Some && ext is Some && exty is Some {
        Some(
            BirdView {
                scientific_name: sci->Some_0,
                common_name: com->Some_0,
                species_code: code->Some_0,
                category: cat->Some_0,
                taxon_order: tax->Some_0,
                banding_codes: banding->Some_0,
                com_name_codes: comcodes->Some_0,
                sci_name_codes: scicodes->Some_0,
                order: ord->Some_0,
                family_com_name: famcom->Some_0,
                family_sci_name: famsci->Some_0,
                family_code: famcode->Some_0,
                report_as: repas->Some_0,
                extinct: ext->Some_0,
                extinct_year: exty->Some_0,
            },
        )
    } else {
        None
    }
}

/// The records held by a dataset text: the text must be a JSON array and
/// every entry a well-formed record, else nothing.
pub open spec fn dataset_of(s: Seq<char>) -> Option<Seq<BirdView>> {
    match json_array_elems_of(s) {
        None => None,
        Some(elems) => {
            if forall|i: int| 0 <= i < elems.len() ==> (#[trigger] record_of(elems[i])) is Some {
                Some(Seq::new(elems.len(), |i: int| record_of(elems[i])->Some_0))
            } else {
                None
            }
        },
    }
}

/// Reads one dataset record out of the JSON text of one entry.
fn bird_from_elem(elem: &str) -> (r: Option<Bird>)
    ensures
        match r {
            Some(b) => record_of(elem@) == Some(b@),
            None => record_of(elem@) is None,
        },
{
    let scientific_name = match json_str_field(elem, "sciName") {
        Some(t) => t,
        None => return None,
    };
    let common_name = match json_str_field(elem, "comName") {
        Some(t) => t,
        None => return None,
    };
    let species_code = match json_str_field(elem, "speciesCode") {
        Some(t) => t,
        None => return None,
    };
    let category = match json_str_field(elem, "category") {
        Some(t) => t,
        None => return None,
    };
    let taxon_order = match json_number_field(elem, "taxonOrder") {
        Some(t) => t,
        None => return None,
    };
    let banding_codes = match json_opt_str_list_field(elem, "bandingCodes") {
        Some(f) => f,
        None => return None,
    };
    let com_name_codes = match json_opt_str_list_field(elem, "comNameCodes") {
        Some(f) => f,
        None => return None,
    };
    let sci_name_codes = match json_opt_str_list_field(elem, "sciNameCodes") {
        Some(f) => f,
        None => return None,
    };
    let order = match json_opt_str_field(elem, "order") {
        Some(f) => f,
        None => return None,
    };
    let family_com_name = match json_opt_str_field(elem, "familyComName") {
        Some(f) => f,
        None => return None,
    };
    let family_sci_name = match json_opt_str_field(elem, "familySciName") {
        Some(f) => f,
        None => return None,
    };
    let family_code = match json_opt_str_field(elem, "familyCode") {
        Some(f) => f,
        None => return None,
    };
    let report_as = match json_opt_str_field(elem, "reportAs") {
        Some(f) => f,
        None => return None,
    };
    let extinct = match json_opt_bool_field(elem, "extinct") {
        Some(f) => f,
        None => return None,
    };
    let extinct_year = match json_opt_i64_field(elem, "extinctYear") {
        Some(f) => f,
        None => return None,
    };
    Some(
        Bird {
            scientific_name,
            common_name,
            species_code,
            category,
            taxon_order,
            banding_codes,
            com_name_codes,
            sci_name_codes,
            order,
            family_com_name,
            family_sci_name,
            family_code,
            report_as,
            extinct,
            extinct_year,
        },
    )
}

/// Reads the whole dataset out of its JSON text: exactly the records that
/// `dataset_of` gives the text, and nothing when the text is not a JSON
/// array of well-formed records.
pub fn parse_birds(text: &str) -> (r: Option<Vec<Bird>>)
    ensures
        match r {
            Some(bs) => dataset_of(text@) == Some(bs@.map_values(|b: Bird| b@)),
            None => dataset_of(text@) is None,
        },
{
    let elems = match json_array_elems(text) {
        Some(e) => e,
        None => return None,
    };
    let mut out: Vec<Bird> = Vec::new();
    let n = elems.len();
    let mut i: usize = 0;
    while i < n
        invariant
            n == elems@.len(),
            i <= n,
            out@.len() == i,
            json_array_elems_of(text@) == Some(elems.deep_view()),
            forall|j: int|
                0 <= j < i ==> (#[trigger] record_of(elems.deep_view()[j])) == Some(out@[j]@),
        decreases n - i,
    {
        proof {
            assert(elems.deep_view()[i as int] == elems@[i as int]@);
        }
        let b = match bird_from_elem(elems[i].as_str()) {
            Some(b) => b,
            None => {
                proof {
                    assert(record_of(elems.deep_view()[i as int]) is None);
                }
                return None;
            },
        };
        out.push(b);
        i += 1;
    }
    proof {
        let dv = elems.deep_view();
        assert(forall|j: int| 0 <= j < dv.len() ==> (#[trigger] record_of(dv[j])) is Some);
        assert(Seq::new(dv.len(), |j: int| record_of(dv[j])->Some_0) =~= out@.map_values(
            |b: Bird| b@,
        ));
    }
    Some(out)
}

// ---------------------------------------------------------------------------
// Selection
// ---------------------------------------------------------------------------

/// Relies on `rand::thread_rng` and `Rng::gen_range` over `0..n`: the range
/// is not empty, and the value drawn lies in it. Nothing else is promised of
/// a random number.
#[verifier::external_body]
fn random_below(n: usize) -> (r: usize)
    requires
        n > 0,
    ensures
        r < n,
{
    rand::thread_rng().gen_range(0..n)
}

/// Picks one record, uniformly at random, among the eligible records of the
/// dataset. Returns a record exactly when the dataset holds an eligible one;
/// an empty remainder is a clean failure.
pub fn select_bird(birds: Vec<Bird>) -> (r: Option<Bird>)
    ensures
        r is Some <==> exists|i: int| 0 <= i < birds@.len() && eligible(#[trigger] birds@[i]@),
        r matches Some(b) ==> eligible(b@) && exists|i: int|
            0 <= i < birds@.len() && #[trigger] birds@[i]@ == b@,
{
    let mut birds = birds;
    let ghost orig = birds@;
    let mut idxs: Vec<usize> = Vec::new();
    let n = birds.len();
    let mut i: usize = 0;
    while i < n
        invariant
            n == birds@.len(),
            birds@ == orig,
            i <= n,
            forall|k: int|
                0 <= k < idxs@.len() ==> (#[trigger] idxs@[k] < i && eligible(
                    orig[idxs@[k] as int]@,
                )),
            forall|j: int| 0 <= j < i && eligible(#[trigger] orig[j]@) ==> idxs@.contains(
                j as usize,
            ),
        decreases n - i,
    {
        let ghost prev = idxs@;
        if bird_eligible(&birds[i]) {
            idxs.push(i);
            proof {
                assert(idxs@[prev.len() as int] == i);
                assert forall|j: int|
                    0 <= j <= i && eligible(#[trigger] orig[j]@) implies idxs@.contains(
                    j as usize,
                ) by {
                    if j < i {
                        let k = choose|k: int| 0 <= k < prev.len() && prev[k] == j as usize;
                        assert(idxs@[k] == j as usize);
                    }
                }
            }
        }
        i += 1;
    }
    if idxs.len() == 0 {
        proof {
            assert(forall|j: int| 0 <= j < orig.len() ==> !eligible(#[trigger] orig[j]@)) by {
                assert forall|j: int| 0 <= j < orig.len() implies !eligible(
                    #[trigger] orig[j]@,
                ) by {
                    if eligible(orig[j]@) {
                        assert(idxs@.contains(j as usize));
                    }
                }
            }
        }
        return None;
    }
    let k = random_below(idxs.len());
    let j = idxs[k];
    proof {
        assert(idxs@.contains(idxs@[k as int]));
        assert(eligible(orig[j as int]@));
    }
    let b = birds.swap_remove(j);
    Some(b)
}

} // verus!
