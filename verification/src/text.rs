use vstd::prelude::*;

verus! {

/// ASCII upper-casing of one character: `a`..=`z` become `A`..=`Z`, every
/// other character is kept.
pub open spec fn ascii_upper(c: char) -> char {
    if 'a' <= c && c <= 'z' {
        ((c as u32) - 32) as char
    } else {
        c
    }
}

/// ASCII upper-casing of a whole text, character by character.
pub open spec fn ascii_upper_seq(s: Seq<char>) -> Seq<char> {
    s.map_values(|c: char| ascii_upper(c))
}

/// Upper-casing turns the lower-case ASCII alphabet into the upper-case one
/// and keeps every other character, so upper-case letters, digits and
/// punctuation come out unchanged.
pub proof fn lemma_ascii_upper_alphabet(c: char)
    ensures
        ascii_upper_seq("abcdefghijklmnopqrstuvwxyz"@) == "ABCDEFGHIJKLMNOPQRSTUVWXYZ"@,
        ascii_upper_seq("ABCDEFGHIJKLMNOPQRSTUVWXYZ_0123456789"@)
            == "ABCDEFGHIJKLMNOPQRSTUVWXYZ_0123456789"@,
        !('a' <= c <= 'z') ==> ascii_upper(c) == c,
{
    reveal_strlit("abcdefghijklmnopqrstuvwxyz");
    reveal_strlit("ABCDEFGHIJKLMNOPQRSTUVWXYZ");
    reveal_strlit("ABCDEFGHIJKLMNOPQRSTUVWXYZ_0123456789");
    assert(ascii_upper_seq("abcdefghijklmnopqrstuvwxyz"@) =~= "ABCDEFGHIJKLMNOPQRSTUVWXYZ"@);
    assert(ascii_upper_seq("ABCDEFGHIJKLMNOPQRSTUVWXYZ_0123456789"@)
        =~= "ABCDEFGHIJKLMNOPQRSTUVWXYZ_0123456789"@);
}

/// The characters of `s`, in order.
pub fn chars_of(s: &str) -> (v: Vec<char>)
    ensures
        v@ == s@,
{
    let mut v: Vec<char> = Vec::new();
    for c in it: s.chars()
        invariant
            v@ == it.seq().take(it.index() as int),
            it.seq() == s@,
    {
        v.push(c);
    }
    v
}

fn upper_char(c: char) -> (r: char)
    ensures
        r == ascii_upper(c),
{
    if 'a' <= c && c <= 'z' {
        let u: u32 = (c as u32) - 32;
        (u as u8) as char
    } else {
        c
    }
}

/// Whether `s` upper-cased the ASCII way equals `upper`.
pub fn upper_equals(s: &str, upper: &str) -> (r: bool)
    ensures
        r == (ascii_upper_seq(s@) == upper@),
{
    let a = chars_of(s);
    let b = chars_of(upper);
    if a.len() != b.len() {
        return false;
    }
    let mut i: usize = 0;
    while i < a.len()
        invariant
            a@ == s@,
            b@ == upper@,
            a@.len() == b@.len(),
            0 <= i <= a@.len(),
            forall|j: int| 0 <= j < i ==> ascii_upper(a@[j]) == b@[j],
        decreases a@.len() - i,
    {
        if upper_char(a[i]) != b[i] {
            assert(ascii_upper_seq(s@)[i as int] != upper@[i as int]);
            return false;
        }
        i = i + 1;
    }
    assert(ascii_upper_seq(s@) =~= upper@);
    true
}

/// Whether two texts are equal, character by character.
pub fn text_equals(s: &str, t: &str) -> (r: bool)
    ensures
        r == (s@ == t@),
{
    let a = chars_of(s);
    let b = chars_of(t);
    if a.len() != b.len() {
        return false;
    }
    let mut i: usize = 0;
    while i < a.len()
        invariant
            a@ == s@,
            b@ == t@,
            a@.len() == b@.len(),
            0 <= i <= a@.len(),
            forall|j: int| 0 <= j < i ==> a@[j] == b@[j],
        decreases a@.len() - i,
    {
        if a[i] != b[i] {
            return false;
        }
        i = i + 1;
    }
    assert(a@ =~= b@);
    true
}

} // verus!
