//! The text records at the system's boundary.
//!
//! The loader reads whitespace-separated records (one body per line: a name
//! and seven numbers); the fetcher scrapes bodies out of an ephemeris page
//! with regular expressions and hands the numeric fields on as text. The
//! field extraction here is verified; only the regular-expression calls and
//! the final text-to-number conversion (which needs hardware floating point
//! and therefore lives with the caller) are not.
use vstd::prelude::*;

use vstd::string::StrSliceExecFns;
use vstd::string::StringExecFns;

verus! {

/// Whether `char::is_whitespace` holds of a character: a deterministic
/// function of the character alone.
pub uninterp spec fn white_space(c: char) -> bool;

/// Relies on std's `char::is_whitespace`: the Unicode white-space property
/// of the character.
pub assume_specification[ char::is_whitespace ](c: char) -> (r: bool)
    ensures
        r == white_space(c),
;

/// Relies on alloc's `String::push`: appends one character at the end.
#[verifier::external_body]
fn push_char(s: &mut String, c: char)
    ensures
        final(s)@ == old(s)@.push(c),
{
    s.push(c)
}

/// The views of a sequence of strings.
pub open spec fn text_views(v: Seq<String>) -> Seq<Seq<char>> {
    v.map_values(|t: String| t@)
}

/// Scanning definition of splitting on white space: `done` holds the fields
/// already finished, `cur` the field being read, `s` the rest of the input.
/// A white-space character finishes the current field if it is non-empty;
/// anything else extends it.
pub open spec fn split_ws_scan(done: Seq<Seq<char>>, cur: Seq<char>, s: Seq<char>) -> Seq<
    Seq<char>,
>
    decreases s.len(),
{
    if s.len() == 0 {
        if cur.len() == 0 {
            done
        } else {
            done.push(cur)
        }
    } else if white_space(s[0]) {
        if cur.len() == 0 {
            split_ws_scan(done, cur, s.drop_first())
        } else {
            split_ws_scan(done.push(cur), Seq::empty(), s.drop_first())
        }
    } else {
        split_ws_scan(done, cur.push(s[0]), s.drop_first())
    }
}

/// The white-space-separated fields of `s`: the maximal runs of
/// non-white-space characters, in order.
pub open spec fn split_ws(s: Seq<char>) -> Seq<Seq<char>> {
    split_ws_scan(Seq::empty(), Seq::empty(), s)
}

/// Scanning definition of splitting on a separator character: unlike the
/// white-space split, empty pieces are kept, so the result always holds one
/// piece more than the input holds separators.
pub open spec fn split_sep_scan(
    done: Seq<Seq<char>>,
    cur: Seq<char>,
    s: Seq<char>,
    sep: char,
) -> Seq<Seq<char>>
    decreases s.len(),
{
    if s.len() == 0 {
        done.push(cur)
    } else if s[0] == sep {
        split_sep_scan(done.push(cur), Seq::empty(), s.drop_first(), sep)
    } else {
        split_sep_scan(done, cur.push(s[0]), s.drop_first(), sep)
    }
}

/// The pieces of `s` between occurrences of `sep`.
pub open spec fn split_sep(s: Seq<char>, sep: char) -> Seq<Seq<char>> {
    split_sep_scan(Seq::empty(), Seq::empty(), s, sep)
}

/// `s` without its leading white space.
pub open spec fn drop_leading_ws(s: Seq<char>) -> Seq<char>
    decreases s.len(),
{
    if s.len() == 0 || !white_space(s[0]) {
        s
    } else {
        drop_leading_ws(s.drop_first())
    }
}

/// `s` without its trailing white space.
pub open spec fn drop_trailing_ws(s: Seq<char>) -> Seq<char>
    decreases s.len(),
{
    if s.len() == 0 || !white_space(s.last()) {
        s
    } else {
        drop_trailing_ws(s.drop_last())
    }
}

/// `s` without leading and trailing white space, as `str::trim` yields it.
pub open spec fn trim_spec(s: Seq<char>) -> Seq<char> {
    drop_trailing_ws(drop_leading_ws(s))
}

/// The white-space-separated fields of a loader record line.
pub fn split_fields(line: &str) -> (r: Vec<String>)
    ensures
        text_views(r@) == split_ws(line@),
{
    let n = line.unicode_len();
    let mut done: Vec<String> = Vec::new();
    let mut cur = String::new();
    let mut i: usize = 0;
    proof {
        assert(line@.skip(0) =~= line@);
        assert(text_views(done@) =~= Seq::<Seq<char>>::empty());
    }
    while i < n
        invariant
            i <= n,
            n == line@.len(),
            split_ws_scan(text_views(done@), cur@, line@.skip(i as int)) == split_ws(line@),
        decreases n - i,
    {
        let ghost prev = line@.skip(i as int);
        proof {
            assert(prev[0] == line@[i as int]);
            assert(prev.drop_first() =~= line@.skip(i as int + 1));
        }
        let c = line.get_char(i);
        if c.is_whitespace() {
            if !cur.as_str().is_empty() {
                proof {
                    assert(text_views(done@).push(cur@) =~= text_views(done@.push(cur)));
                }
                done.push(cur);
                cur = String::new();
            }
        } else {
            push_char(&mut cur, c);
        }
        i += 1;
    }
    proof {
        assert(line@.skip(n as int) =~= Seq::<char>::empty());
    }
    if !cur.as_str().is_empty() {
        proof {
            assert(text_views(done@).push(cur@) =~= text_views(done@.push(cur)));
        }
        done.push(cur);
    }
    done
}

/// The pieces of `text` between commas.
pub fn split_on_comma(text: &str) -> (r: Vec<String>)
    ensures
        text_views(r@) == split_sep(text@, ','),
{
    let n = text.unicode_len();
    let mut done: Vec<String> = Vec::new();
    let mut cur = String::new();
    let mut i: usize = 0;
    proof {
        assert(text@.skip(0) =~= text@);
        assert(text_views(done@) =~= Seq::<Seq<char>>::empty());
    }
    while i < n
        invariant
            i <= n,
            n == text@.len(),
            split_sep_scan(text_views(done@), cur@, text@.skip(i as int), ',') == split_sep(
                text@,
                ',',
            ),
        decreases n - i,
    {
        let ghost prev = text@.skip(i as int);
        proof {
            assert(prev[0] == text@[i as int]);
            assert(prev.drop_first() =~= text@.skip(i as int + 1));
        }
        let c = text.get_char(i);
        if c == ',' {
            proof {
                assert(text_views(done@).push(cur@) =~= text_views(done@.push(cur)));
            }
            done.push(cur);
            cur = String::new();
        } else {
            push_char(&mut cur, c);
        }
        i += 1;
    }
    proof {
        assert(text@.skip(n as int) =~= Seq::<char>::empty());
        assert(text_views(done@).push(cur@) =~= text_views(done@.push(cur)));
    }
    done.push(cur);
    done
}

/// `text` without leading and trailing white space.
pub fn trimmed(text: &str) -> (r: String)
    ensures
        r@ == trim_spec(text@),
{
    let n = text.unicode_len();
    let mut start: usize = 0;
    proof {
        assert(text@.skip(0) =~= text@);
    }
    while start < n && text.get_char(start).is_whitespace()
        invariant
            start <= n,
            n == text@.len(),
            drop_leading_ws(text@.skip(start as int)) == drop_leading_ws(text@),
        decreases n - start,
    {
        proof {
            assert(text@.skip(start as int)[0] == text@[start as int]);
            assert(text@.skip(start as int).drop_first() =~= text@.skip(start as int + 1));
        }
        start += 1;
    }
    proof {
        if start < n {
            assert(text@.skip(start as int)[0] == text@[start as int]);
        } else {
            assert(text@.skip(start as int) =~= Seq::<char>::empty());
        }
        assert(drop_leading_ws(text@) == text@.skip(start as int));
    }
    let ghost lead = text@.skip(start as int);
    let mut end: usize = n;
    proof {
        assert(lead.take(n - start as int) =~= lead);
    }
    while end > start && text.get_char(end - 1).is_whitespace()
        invariant
            start <= end <= n,
            n == text@.len(),
            lead == text@.skip(start as int),
            drop_trailing_ws(lead.take(end - start as int)) == drop_trailing_ws(lead),
        decreases end,
    {
        proof {
            let t = lead.take(end - start as int);
            assert(t.last() == text@[end - 1]);
            assert(t.drop_last() =~= lead.take(end - 1 - start as int));
        }
        end -= 1;
    }
    proof {
        let t = lead.take(end - start as int);
        if end > start {
            assert(t.last() == text@[end - 1]);
            assert(!white_space(t.last()));
        } else {
            assert(t =~= Seq::<char>::empty());
        }
        assert(drop_trailing_ws(lead) == t);
        assert(text@.subrange(start as int, end as int) =~= t);
    }
    text.substring_char(start, end).to_owned()
}

/// `base` and `exponent` joined into scientific notation, `baseEexponent`,
/// ready for a number parser.
pub fn mass_text(base: &str, exponent: &str) -> (r: String)
    ensures
        r@ == base@ + seq!['E'] + exponent@,
{
    let mut r = base.to_owned();
    push_char(&mut r, 'E');
    r.append(exponent);
    proof {
        assert(r@ =~= base@ + seq!['E'] + exponent@);
    }
    r
}

} // verus!
