//! Plain-text e-mail templates with `{{name}}` placeholders.
use vstd::prelude::*;
use vstd::string::*;
use crate::text::{chars_of, string_from_chars};

verus! {

/// `pat` occurs in `s` at `i`, exactly.
pub open spec fn occurs_at(s: Seq<char>, pat: Seq<char>, i: int) -> bool {
    0 <= i && i + pat.len() <= s.len() && s.subrange(i, i + pat.len()) == pat
}

/// Every occurrence of the non-empty `pat` in `s`, scanning left to right
/// without overlap, replaced by `val`.
pub open spec fn replace_all(s: Seq<char>, pat: Seq<char>, val: Seq<char>) -> Seq<char>
    decreases s.len(),
{
    if pat.len() == 0 || s.len() == 0 {
        s
    } else if occurs_at(s, pat, 0) {
        val + replace_all(s.skip(pat.len() as int), pat, val)
    } else {
        seq![s[0]] + replace_all(s.drop_first(), pat, val)
    }
}

/// The placeholder for variable `key`.
pub open spec fn placeholder(key: Seq<char>) -> Seq<char> {
    "{{"@ + key + "}}"@
}

/// `content` with each variable substituted in turn.
pub open spec fn rendered(content: Seq<char>, vars: Seq<(Seq<char>, Seq<char>)>) -> Seq<char>
    decreases vars.len(),
{
    if vars.len() == 0 {
        content
    } else {
        replace_all(rendered(content, vars.drop_last()), placeholder(vars.last().0), vars.last().1)
    }
}

fn occurs_at_exec(s: &Vec<char>, pat: &Vec<char>, i: usize) -> (r: bool)
    ensures
        r == occurs_at(s@, pat@, i as int),
{
    if i > s.len() || pat.len() > s.len() - i {
        return false;
    }
    let mut k: usize = 0;
    while k < pat.len()
        invariant
            i + pat.len() <= s.len(),
            k <= pat.len(),
            forall|j: int| 0 <= j < k ==> s@[i + j] == pat@[j],
        decreases pat.len() - k,
    {
        if s[i + k] != pat[k] {
            assert(s@.subrange(i as int, i + pat.len())[k as int] != pat@[k as int]);
            return false;
        }
        k = k + 1;
    }
    assert(s@.subrange(i as int, i + pat.len()) =~= pat@);
    true
}

fn replace_exec(s: &Vec<char>, pat: &Vec<char>, val: &Vec<char>) -> (r: Vec<char>)
    ensures
        r@ == replace_all(s@, pat@, val@),
{
    if pat.len() == 0 {
        return s.clone();
    }
    let mut out: Vec<char> = Vec::new();
    let mut i: usize = 0;
    proof {
        assert(s@.skip(0) =~= s@);
    }
    while i < s.len()
        invariant
            i <= s.len(),
            pat.len() > 0,
            out@ + replace_all(s@.skip(i as int), pat@, val@) == replace_all(s@, pat@, val@),
        decreases s.len() - i,
    {
        let ghost t = s@.skip(i as int);
        let ghost before = out@;
        if occurs_at_exec(s, pat, i) {
            proof {
                assert(t.subrange(0, pat@.len() as int) =~= s@.subrange(i as int, i + pat.len()));
                assert(t.skip(pat@.len() as int) =~= s@.skip(i + pat.len()));
            }
            let mut k: usize = 0;
            while k < val.len()
                invariant
                    k <= val.len(),
                    out@ == before + val@.take(k as int),
                decreases val.len() - k,
            {
                out.push(val[k]);
                proof {
                    assert(val@.take(k + 1) =~= val@.take(k as int).push(val@[k as int]));
                }
                k = k + 1;
            }
            proof {
                assert(val@.take(k as int) =~= val@);
                let rest = replace_all(s@.skip(i + pat.len()), pat@, val@);
                assert(out@ + rest =~= before + (val@ + rest));
            }
            i = i + pat.len();
        } else {
            proof {
                if t.len() >= pat@.len() {
                    assert(t.subrange(0, pat@.len() as int) =~= s@.subrange(i as int, i + pat.len()));
                }
                assert(t[0] == s@[i as int]);
                assert(t.drop_first() =~= s@.skip(i + 1));
            }
            out.push(s[i]);
            proof {
                let rest = replace_all(s@.skip(i + 1), pat@, val@);
                assert(out@ + rest =~= before + (seq![s@[i as int]] + rest));
            }
            i = i + 1;
        }
    }
    proof {
        assert(out@ + Seq::<char>::empty() =~= out@);
    }
    out
}

/// A template: text with `{{name}}` placeholders.
#[derive(Debug)]
pub struct EmailTemplate {
    pub content: String,
}

impl EmailTemplate {
    pub fn new(content: &str) -> (r: Self)
        ensures
            r.content@ == content@,
    {
        EmailTemplate { content: String::from_str(content) }
    }

    /// Substitutes each (name, value) in turn for every `{{name}}`;
    /// placeholders without a value stay as they are.
    pub fn render(&self, vars: &[(&str, &str)]) -> (r: String)
        ensures
            r@ == rendered(self.content@, vars@.map_values(|p: (&str, &str)| (p.0@, p.1@))),
    {
        let ghost vv = vars@.map_values(|p: (&str, &str)| (p.0@, p.1@));
        let mut cur = chars_of(self.content.as_str());
        let mut i: usize = 0;
        while i < vars.len()
            invariant
                i <= vars@.len(),
                vv == vars@.map_values(|p: (&str, &str)| (p.0@, p.1@)),
                cur@ == rendered(self.content@, vv.take(i as int)),
            decreases vars.len() - i,
        {
            let (key, value) = vars[i];
            let pat_s = String::from_str("{{").concat(key).concat("}}");
            let pat = chars_of(pat_s.as_str());
            let val = chars_of(value);
            proof {
                assert(vv.take(i + 1).drop_last() =~= vv.take(i as int));
                assert(vv.take(i + 1).last() == (key@, value@));
            }
            cur = replace_exec(&cur, &pat, &val);
            i = i + 1;
        }
        proof {
            assert(vv.take(i as int) =~= vv);
        }
        string_from_chars(cur.as_slice())
    }
}

/// Body of the sign-in e-mail; variables `verify_link`, `expiry_minutes`.
pub const MAGIC_LINK_TEMPLATE: &'static str = "Hello,\n\nUse the link below to sign in to LalaSearch:\n\n{{verify_link}}\n\nThe link expires in {{expiry_minutes}} minutes and can be used once.\nIf you did not ask to sign in, you can ignore this message.\n";

/// Body of the invitation e-mail; variables `org_name`, `inviter_email`,
/// `invite_link`, `expiry_days`.
pub const INVITATION_TEMPLATE: &'static str = "Hello,\n\n{{inviter_email}} invited you to join {{org_name}} on LalaSearch.\n\nAccept the invitation here:\n\n{{invite_link}}\n\nThe invitation expires in {{expiry_days}} days.\n";

} // verus!
