//! The output line written for each uploaded file: a template whose
//! placeholders are replaced by the file's name, path, URL and host.
use crate::text::{chars_of, occurs_at, occurs_at_exec};
use vstd::prelude::*;
use vstd::string::{StrSliceExecFns, StringExecFns};

verus! {

/// `s` with every occurrence of `pat` replaced by `to`, scanning from the
/// left and resuming after each replaced occurrence.
pub open spec fn replaced(s: Seq<char>, pat: Seq<char>, to: Seq<char>) -> Seq<char>
    decreases s.len(),
{
    if s.len() == 0 {
        seq![]
    } else if pat.len() > 0 && occurs_at(s, pat, 0) {
        to + replaced(s.subrange(pat.len() as int, s.len() as int), pat, to)
    } else {
        seq![s[0]] + replaced(s.drop_first(), pat, to)
    }
}

proof fn lemma_replaced_unfold(t: Seq<char>, pat: Seq<char>, to: Seq<char>, i: int)
    requires
        0 <= i < t.len(),
        pat.len() > 0,
    ensures
        occurs_at(t, pat, i) ==> replaced(t.subrange(i, t.len() as int), pat, to) == to + replaced(
            t.subrange(i + pat.len(), t.len() as int),
            pat,
            to,
        ),
        !occurs_at(t, pat, i) ==> replaced(t.subrange(i, t.len() as int), pat, to) == seq![t[i]]
            + replaced(t.subrange(i + 1, t.len() as int), pat, to),
{
    let u = t.subrange(i, t.len() as int);
    if occurs_at(t, pat, i) {
        assert(u.subrange(0, pat.len() as int) =~= t.subrange(i, i + pat.len()));
        assert(u.subrange(pat.len() as int, u.len() as int) =~= t.subrange(i + pat.len(), t.len() as int));
    } else {
        if i + pat.len() <= t.len() {
            assert(u.subrange(0, pat.len() as int) =~= t.subrange(i, i + pat.len()));
        }
        assert(u.drop_first() =~= t.subrange(i + 1, t.len() as int));
    }
}

fn replace_all(s: &str, pat: &str, to: &str) -> (r: String)
    requires
        pat@.len() > 0,
    ensures
        r@ == replaced(s@, pat@, to@),
{
    let t = chars_of(s);
    let p = chars_of(pat);
    let n = t.len();
    let mut out = String::new();
    let mut seg: usize = 0;
    let mut i: usize = 0;
    assert(t@.subrange(0, n as int) =~= t@);
    while i < n
        invariant
            n == t@.len(),
            t@ == s@,
            p@ == pat@,
            p@.len() > 0,
            seg <= i <= n,
            out@ + t@.subrange(seg as int, i as int) + replaced(t@.subrange(i as int, n as int), pat@, to@)
                == replaced(s@, pat@, to@),
        decreases n - i,
    {
        proof {
            lemma_replaced_unfold(t@, p@, to@, i as int);
        }
        if occurs_at_exec(&t, &p, i) {
            let ghost before = out@;
            out.append(s.substring_char(seg, i));
            out.append(to);
            i = i + p.len();
            seg = i;
            assert(t@.subrange(seg as int, i as int) =~= Seq::<char>::empty());
            assert(out@ + t@.subrange(seg as int, i as int) =~= out@);
        } else {
            let ghost old_i = i;
            i = i + 1;
            assert(t@.subrange(seg as int, i as int) =~= t@.subrange(seg as int, old_i as int) + seq![t@[old_i as int]]);
        }
    }
    out.append(s.substring_char(seg, n));
    assert(t@.subrange(n as int, n as int) =~= Seq::<char>::empty());
    out
}

/// The template with each placeholder filled in: `<filename>`,
/// `<file_path>`, `<url>`, `<host>`, and `<newline>` (the platform's line
/// ending, which the caller supplies), replaced in that order.
pub open spec fn template_model(
    template: Seq<char>,
    filename: Seq<char>,
    file_path: Seq<char>,
    file_url: Seq<char>,
    host: Seq<char>,
    newline: Seq<char>,
) -> Seq<char> {
    let a = replaced(template, "<filename>"@, filename);
    let b = replaced(a, "<file_path>"@, file_path);
    let c = replaced(b, "<url>"@, file_url);
    let d = replaced(c, "<host>"@, host);
    replaced(d, "<newline>"@, newline)
}

pub fn generate_template(
    template: String,
    filename: &str,
    file_path: &str,
    file_url: &str,
    host: &str,
    newline: &str,
) -> (r: String)
    ensures
        r@ == template_model(template@, filename@, file_path@, file_url@, host@, newline@),
{
    proof {
        reveal_strlit("<filename>");
        reveal_strlit("<file_path>");
        reveal_strlit("<url>");
        reveal_strlit("<host>");
        reveal_strlit("<newline>");
    }
    let a = replace_all(template.as_str(), "<filename>", filename);
    let b = replace_all(a.as_str(), "<file_path>", file_path);
    let c = replace_all(b.as_str(), "<url>", file_url);
    let d = replace_all(c.as_str(), "<host>", host);
    replace_all(d.as_str(), "<newline>", newline)
}

} // verus!
