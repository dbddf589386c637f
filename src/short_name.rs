use vstd::prelude::*;
use vstd::string::*;

verus! {

/// What `char::is_alphanumeric` answers for a character.
pub uninterp spec fn is_alnum(c: char) -> bool;

/// The characters that `char::to_uppercase` yields for a character.
pub uninterp spec fn upper_of(c: char) -> Seq<char>;

/// Relies on `char::is_alphanumeric`, which depends on the character alone.
#[verifier::external_body]
fn char_is_alphanumeric(c: char) -> (r: bool)
    ensures
        r == is_alnum(c),
{
    c.is_alphanumeric()
}

/// Relies on `char::to_uppercase`: its iterator yields the uppercase mapping of
/// the character, or the character itself where it has none, so never nothing.
#[verifier::external_body]
fn char_to_uppercase(c: char) -> (r: String)
    ensures
        r@ == upper_of(c),
        r@.len() >= 1,
{
    c.to_uppercase().collect::<String>()
}

/// The name shown when a model name does not start with an alphanumeric character.
pub open spec fn placeholder() -> Seq<char> {
    seq!['L', 'l', 'a', 'm', 'a']
}

/// Length of the leading run of alphanumeric characters of `s`.
pub open spec fn alnum_run(s: Seq<char>) -> nat
    decreases s.len(),
{
    if s.len() == 0 || !is_alnum(s[0]) {
        0
    } else {
        1 + alnum_run(s.drop_first())
    }
}

/// The short display name of a model name: its leading alphanumeric run with
/// the first character uppercased, or the placeholder when the run is empty.
pub open spec fn short_name_of(s: Seq<char>) -> Seq<char> {
    let k = alnum_run(s);
    if k == 0 {
        placeholder()
    } else {
        upper_of(s[0]) + s.subrange(1, k as int)
    }
}

proof fn lemma_alnum_run(s: Seq<char>, k: int)
    requires
        0 <= k <= s.len(),
        forall|i: int| 0 <= i < k ==> is_alnum(#[trigger] s[i]),
        k == s.len() || !is_alnum(s[k]),
    ensures
        alnum_run(s) == k,
    decreases s.len(),
{
    if s.len() > 0 && is_alnum(s[0]) {
        let t = s.drop_first();
        assert forall|i: int| 0 <= i < k - 1 implies is_alnum(#[trigger] t[i]) by {
            assert(t[i] == s[i + 1]);
        }
        if k - 1 < t.len() {
            assert(t[k - 1] == s[k]);
        }
        lemma_alnum_run(t, k - 1);
    }
}

/// Derives the short display name of a model: `nous-hermes2:latest` gives
/// `Nous`, `gemma:latest` gives `Gemma`; a name that does not start with an
/// alphanumeric character gives `Llama`.
pub fn make_short_name(name: &str) -> (r: String)
    ensures
        r@ == short_name_of(name@),
        r@.len() >= 1,
{
    let n = name.unicode_len();
    let mut k: usize = 0;
    while k < n && char_is_alphanumeric(name.get_char(k))
        invariant
            n == name@.len(),
            k <= n,
            forall|i: int| 0 <= i < k ==> is_alnum(#[trigger] name@[i]),
        decreases n - k,
    {
        k = k + 1;
    }
    proof {
        lemma_alnum_run(name@, k as int);
    }
    if k == 0 {
        let r = String::from_str("Llama");
        proof {
            reveal_strlit("Llama");
            assert(r@ =~= placeholder());
        }
        r
    } else {
        let first = char_to_uppercase(name.get_char(0));
        let rest = name.substring_char(1, k);
        first.concat(rest)
    }
}

} // verus!
