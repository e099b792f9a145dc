//! Scraping body records out of an ephemeris page.
//!
//! A downloaded page holds, in free text, a body's name, its mass as a base
//! and a power-of-ten exponent, and one line of six comma-separated position
//! and velocity fields. The regular-expression matching is done by the
//! `regex` crate behind trusted declarations; everything after a match — the
//! joining of the mass text, the splitting and trimming of the state fields —
//! is verified against the text functions of [`crate::records`]. Turning the
//! resulting texts into numbers is the caller's business.
use vstd::prelude::*;

use crate::records::{mass_text, split_on_comma, split_sep, trim_spec, trimmed};

verus! {

/// Declares regex::Regex, a compiled regular expression, opaque here.
#[verifier::external_type_specification]
#[verifier::external_body]
pub struct ExRegex(regex::Regex);

/// Declares regex::Error, the reason a pattern failed to compile, opaque here.
#[verifier::external_type_specification]
#[verifier::external_body]
pub struct ExRegexError(regex::Error);

/// Declares regex::Captures, the capture groups of one match, opaque here.
#[verifier::external_type_specification]
#[verifier::external_body]
pub struct ExCaptures<'h>(regex::Captures<'h>);

/// Relies on regex::Regex::new: compiles the pattern, or reports why it is
/// invalid.
#[verifier::external_body]
fn regex_new(pattern: &str) -> (r: Result<regex::Regex, regex::Error>) {
    regex::Regex::new(pattern)
}

/// Relies on regex::Regex::captures: the capture groups of the leftmost
/// match in `haystack`, or `None` when the pattern matches nowhere.
#[verifier::external_body]
fn regex_captures<'h>(re: &regex::Regex, haystack: &'h str) -> (r: Option<regex::Captures<'h>>) {
    re.captures(haystack)
}

/// Relies on regex::Captures::get, read out with Match::as_str: the text of
/// capture group `i`, or `None` when the group took no part in the match.
#[verifier::external_body]
fn capture_text(caps: &regex::Captures<'_>, i: usize) -> (r: Option<String>) {
    caps.get(i).map(|m| m.as_str().to_owned())
}

/// The six trimmed state fields out of the matched line: the line is trimmed
/// as a whole, split on commas, the trailing left-over piece dropped, and the
/// first six pieces trimmed. Fails exactly when the split yields fewer than
/// seven pieces.
pub fn state_fields(capture: &str) -> (r: Result<Vec<String>, String>)
    ensures
        ({
            let pieces = split_sep(trim_spec(capture@), ',');
            &&& pieces.len() >= 7 ==> (r matches Ok(v) && v@.len() == 6 && (forall|k: int|
                0 <= k < 6 ==> (#[trigger] v@[k])@ == trim_spec(pieces[k])))
            &&& pieces.len() < 7 ==> (r matches Err(e) && e@ == "Position/Velocity Regex Error"@)
        }),
{
    let whole = trimmed(capture);
    let pieces = split_on_comma(whole.as_str());
    proof {
        assert(crate::records::text_views(pieces@) == split_sep(trim_spec(capture@), ','));
    }
    if pieces.len() < 7 {
        return Err("Position/Velocity Regex Error".to_owned());
    }
    let mut out: Vec<String> = Vec::new();
    let mut k: usize = 0;
    while k < 6
        invariant
            k <= 6,
            out@.len() == k,
            pieces@.len() >= 7,
            crate::records::text_views(pieces@) == split_sep(trim_spec(capture@), ','),
            forall|h: int|
                0 <= h < k ==> (#[trigger] out@[h])@ == trim_spec(
                    split_sep(trim_spec(capture@), ',')[h],
                ),
        decreases 6 - k,
    {
        proof {
            assert(crate::records::text_views(pieces@)[k as int] == pieces@[k as int]@);
        }
        let t = trimmed(pieces[k].as_str());
        out.push(t);
        k += 1;
    }
    Ok(out)
}

/// The name of the target body on the page, or the loader's name error.
pub fn get_name(page: &str) -> (r: Result<String, String>)
    ensures
        r matches Err(e) ==> e@ == "Name regex error"@,
{
    let re = match regex_new(r"Target\s*body\s*name:\s*([[:alnum:]]*)") {
        Ok(re) => re,
        Err(_) => {
            return Err("Name regex error".to_owned());
        },
    };
    match regex_captures(&re, page) {
        Some(caps) => match capture_text(&caps, 1) {
            Some(name) => Ok(name),
            None => Err("Name regex error".to_owned()),
        },
        None => Err("Name regex error".to_owned()),
    }
}

/// The mass on the page, in scientific notation ready for a number parser:
/// the captured base and power-of-ten exponent joined as `baseEexponent`.
pub fn get_mass_text(page: &str) -> (r: Result<String, String>)
    ensures
        r matches Ok(m) ==> exists|b: Seq<char>, e: Seq<char>| m@ == b + seq!['E'] + e,
        r matches Err(e) ==> e@ == "Couldn't get values"@ || e@ == "Couldn't get regex"@,
{
    let re = match regex_new(r"Mass.*\(?10\^(\d*) kg\s*\)?\s*[=~]\s*(\d+\.?\d*)") {
        Ok(re) => re,
        Err(_) => {
            return Err("Couldn't get regex".to_owned());
        },
    };
    match regex_captures(&re, page) {
        Some(caps) => {
            let base = capture_text(&caps, 2);
            let exponent = capture_text(&caps, 1);
            match (base, exponent) {
                (Some(base), Some(exponent)) => {
                    let m = mass_text(base.as_str(), exponent.as_str());
                    proof {
                        assert(m@ == base@ + seq!['E'] + exponent@);
                    }
                    Ok(m)
                },
                _ => Err("Couldn't get values".to_owned()),
            }
        },
        None => Err("Couldn't get regex".to_owned()),
    }
}

/// The six position and velocity fields on the page, trimmed, in the order
/// x, y, z, vx, vy, vz, in kilometers and kilometers per day.
pub fn get_pos_vel_fields(page: &str) -> (r: Result<Vec<String>, String>)
    ensures
        r matches Ok(v) ==> v@.len() == 6,
        r matches Err(e) ==> e@ == "Position/Velocity Regex Error"@,
{
    let re = match regex_new(r"(?:\-?\d*\.*\d*E[\+\-]\d*,\s+){6}") {
        Ok(re) => re,
        Err(_) => {
            return Err("Position/Velocity Regex Error".to_owned());
        },
    };
    match regex_captures(&re, page) {
        Some(caps) => match capture_text(&caps, 0) {
            Some(val) => state_fields(val.as_str()),
            None => Err("Position/Velocity Regex Error".to_owned()),
        },
        None => Err("Position/Velocity Regex Error".to_owned()),
    }
}

} // verus!
