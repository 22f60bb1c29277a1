//! The greeting and the reversal of a text by characters.
use vstd::prelude::*;
use vstd::string::axiom_spec_iter;

verus! {

/// The fixed greeting that `hello` returns.
pub open spec fn greeting() -> Seq<char> {
    "Hello from demopy_gb_jj (Rust edition)!"@
}

/// `needle` occurs in `hay` as a run of consecutive characters.
pub open spec fn contains(hay: Seq<char>, needle: Seq<char>) -> bool {
    exists|i: int|
        0 <= i && i + needle.len() <= hay.len() && #[trigger] hay.subrange(i, i + needle.len())
            == needle
}

/// Relies on String::push: it appends the one character to the end of the text.
#[verifier::external_body]
fn push_char(s: &mut String, c: char)
    ensures
        final(s)@ == old(s)@.push(c),
{
    s.push(c)
}

/// Returns the greeting, which names the module and says that it is the Rust edition.
pub fn hello() -> (r: String)
    ensures
        r@ == greeting(),
        contains(r@, "demopy_gb_jj"@),
        contains(r@, "Rust edition"@),
{
    let r = String::from_str("Hello from demopy_gb_jj (Rust edition)!");
    proof {
        reveal_strlit("Hello from demopy_gb_jj (Rust edition)!");
        reveal_strlit("demopy_gb_jj");
        reveal_strlit("Rust edition");
        let (name_at, edition_at): (int, int) = (11, 25);
        assert(r@.subrange(name_at, name_at + "demopy_gb_jj"@.len()) =~= "demopy_gb_jj"@);
        assert(r@.subrange(edition_at, edition_at + "Rust edition"@.len()) =~= "Rust edition"@);
    }
    r
}

/// Returns the text with its characters (code points, not bytes) in reverse order.
pub fn reverse_string(s: String) -> (r: String)
    ensures
        r@ == s@.reverse(),
{
    broadcast use axiom_spec_iter;

    let mut chars: Vec<char> = Vec::new();
    for c in it: s.as_str().chars()
        invariant
            it.seq() == s@,
            chars@ == s@.take(it.index()),
    {
        chars.push(c);
        assert(chars@ =~= s@.take(it.index() + 1));
    }
    let mut r = String::new();
    let n = chars.len();
    let mut k: usize = n;
    while k > 0
        invariant
            k <= n,
            n == chars@.len(),
            chars@ == s@,
            r@ == s@.subrange(k as int, n as int).reverse(),
        decreases k,
    {
        k = k - 1;
        push_char(&mut r, chars[k]);
        assert(r@ =~= s@.subrange(k as int, n as int).reverse());
    }
    r
}

/// Reversing a text twice gives it back, and the empty text reverses to itself.
pub proof fn law_reverse_twice(s: Seq<char>)
    ensures
        s.reverse().reverse() == s,
        Seq::<char>::empty().reverse() == Seq::<char>::empty(),
{
    assert(s.reverse().reverse() =~= s);
    assert(Seq::<char>::empty().reverse() =~= Seq::<char>::empty());
}

} // verus!
