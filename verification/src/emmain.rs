use vstd::prelude::*;

verus! {

/// Whether `c` is white space in the Unicode sense (the `White_Space`
/// property): tab, line feed, vertical tab, form feed, carriage return,
/// space, next line, no-break space, ogham space mark, the spaces
/// U+2000..=U+200A, line separator, paragraph separator, narrow no-break
/// space, medium mathematical space and ideographic space.
pub open spec fn is_white_space(c: char) -> bool {
    let u = c as u32;
    (0x9 <= u <= 0xd) || u == 0x20 || u == 0x85 || u == 0xa0 || u == 0x1680 || (0x2000 <= u
        <= 0x200a) || u == 0x2028 || u == 0x2029 || u == 0x202f || u == 0x205f || u == 0x3000
}

/// `s` without its leading white space.
pub open spec fn trim_start_seq(s: Seq<char>) -> Seq<char>
    decreases s.len(),
{
    if s.len() > 0 && is_white_space(s[0]) {
        trim_start_seq(s.drop_first())
    } else {
        s
    }
}

/// `s` without its trailing white space.
pub open spec fn trim_end_seq(s: Seq<char>) -> Seq<char>
    decreases s.len(),
{
    if s.len() > 0 && is_white_space(s.last()) {
        trim_end_seq(s.drop_last())
    } else {
        s
    }
}

/// `s` without leading and trailing white space.
pub open spec fn trim_seq(s: Seq<char>) -> Seq<char> {
    trim_end_seq(trim_start_seq(s))
}

/// The character that stands in a server name for `c`: colons and dots
/// become underscores.
pub open spec fn server_name_char(c: char) -> char {
    if c == ':' || c == '.' {
        '_'
    } else {
        c
    }
}

/// `s` with colons and dots replaced by underscores.
pub open spec fn replace_separators(s: Seq<char>) -> Seq<char> {
    s.map_values(|c: char| server_name_char(c))
}

/// The name of the single-instance server of the display `display` on the
/// host `hostname`: after the prefix, neither part keeps a colon or a dot.
pub open spec fn server_name_seq(hostname: Seq<char>, display: Seq<char>) -> Seq<char> {
    "eaglemode_on_"@ + replace_separators(hostname) + "_"@ + replace_separators(display)
}

fn white_space(c: char) -> (r: bool)
    ensures
        r == is_white_space(c),
{
    let u = c as u32;
    (0x9 <= u && u <= 0xd) || u == 0x20 || u == 0x85 || u == 0xa0 || u == 0x1680 || (0x2000 <= u
        && u <= 0x200a) || u == 0x2028 || u == 0x2029 || u == 0x202f || u == 0x205f || u == 0x3000
}

proof fn lemma_trim_start(s: Seq<char>, lo: int)
    requires
        0 <= lo <= s.len(),
        forall|j: int| 0 <= j < lo ==> is_white_space(#[trigger] s[j]),
        lo < s.len() ==> !is_white_space(s[lo]),
    ensures
        trim_start_seq(s) == s.subrange(lo, s.len() as int),
    decreases lo,
{
    if lo == 0 {
        assert(s.subrange(0, s.len() as int) =~= s);
    } else {
        let t = s.drop_first();
        assert forall|j: int| 0 <= j < lo - 1 implies is_white_space(#[trigger] t[j]) by {
            assert(t[j] == s[j + 1]);
        }
        lemma_trim_start(t, lo - 1);
        assert(t.subrange(lo - 1, t.len() as int) =~= s.subrange(lo, s.len() as int));
    }
}

proof fn lemma_trim_end(s: Seq<char>, hi: int)
    requires
        0 <= hi <= s.len(),
        forall|j: int| hi <= j < s.len() ==> is_white_space(#[trigger] s[j]),
        hi > 0 ==> !is_white_space(s[hi - 1]),
    ensures
        trim_end_seq(s) == s.subrange(0, hi),
    decreases s.len() - hi,
{
    if hi == s.len() {
        assert(s.subrange(0, hi) =~= s);
    } else {
        let t = s.drop_last();
        lemma_trim_end(t, hi);
        assert(t.subrange(0, hi) =~= s.subrange(0, hi));
    }
}

/// `s` without leading and trailing white space.
pub fn trim(s: &str) -> (r: String)
    ensures
        r@ == trim_seq(s@),
{
    let chars = crate::text::chars_of(s);
    let n = chars.len();
    let mut lo: usize = 0;
    while lo < n && white_space(chars[lo])
        invariant
            chars@ == s@,
            n == chars@.len(),
            0 <= lo <= n,
            forall|j: int| 0 <= j < lo ==> is_white_space(#[trigger] chars@[j]),
        decreases n - lo,
    {
        lo = lo + 1;
    }
    proof {
        lemma_trim_start(s@, lo as int);
    }
    let ghost rest = s@.subrange(lo as int, n as int);
    let mut hi: usize = n;
    while hi > lo && white_space(chars[hi - 1])
        invariant
            chars@ == s@,
            n == chars@.len(),
            0 <= lo <= hi <= n,
            rest == s@.subrange(lo as int, n as int),
            forall|j: int| hi <= j < n ==> is_white_space(#[trigger] chars@[j]),
        decreases hi,
    {
        hi = hi - 1;
    }
    proof {
        assert forall|j: int| hi - lo <= j < rest.len() implies is_white_space(#[trigger] rest[j]) by {
            assert(rest[j] == chars@[j + lo]);
        }
        if hi > lo {
            assert(rest[hi - lo - 1] == chars@[hi - 1]);
        }
        lemma_trim_end(rest, hi - lo);
        assert(rest.subrange(0, hi - lo) =~= s@.subrange(lo as int, hi as int));
    }
    s.substring_char(lo, hi).to_owned()
}

/// The host name read from the contents of the host name file, without
/// surrounding white space; "localhost" when the file could not be read or
/// holds nothing but white space.
pub fn hostname_from(contents: Option<&str>) -> (r: String)
    ensures
        match contents {
            Some(c) => if trim_seq(c@).len() > 0 {
                r@ == trim_seq(c@)
            } else {
                r@ == "localhost"@
            },
            None => r@ == "localhost"@,
        },
{
    match contents {
        Some(c) => {
            let t = trim(c);
            if t.as_str().is_empty() {
                "localhost".to_owned()
            } else {
                t
            }
        },
        None => "localhost".to_owned(),
    }
}

/// Append `s` to `r` with colons and dots replaced by underscores.
fn push_replaced(r: &mut String, s: &str)
    ensures
        final(r)@ == old(r)@ + replace_separators(s@),
{
    let chars = crate::text::chars_of(s);
    let ghost start = r@;
    let mut i: usize = 0;
    while i < chars.len()
        invariant
            chars@ == s@,
            0 <= i <= chars@.len(),
            r@ == start + replace_separators(s@.take(i as int)),
        decreases chars@.len() - i,
    {
        let c = chars[i];
        let mut t = String::new();
        std::mem::swap(&mut t, r);
        if c == ':' || c == '.' {
            t = t.concat("_");
            proof {
                reveal_strlit("_");
            }
        } else {
            t = t.concat(s.substring_char(i, i + 1));
        }
        *r = t;
        assert(replace_separators(s@.take(i + 1)) =~= replace_separators(s@.take(i as int)).push(
            server_name_char(c),
        ));
        i = i + 1;
    }
    assert(s@.take(chars@.len() as int) =~= s@);
}

/// The name of the single-instance server: "eaglemode_on_", the host name,
/// "_", and the display name, with every colon and dot after the prefix
/// replaced by an underscore.
pub fn server_name(hostname: &str, display: &str) -> (r: String)
    ensures
        r@ == server_name_seq(hostname@, display@),
{
    let mut r = "eaglemode_on_".to_owned();
    push_replaced(&mut r, hostname);
    r = r.concat("_");
    push_replaced(&mut r, display);
    r
}

/// Send a command to an already running instance. Inter-process messaging
/// is not available, so no instance is ever reached and this always reports
/// `false`.
pub fn try_ipc_client(_server_name: &str, _visit: Option<&str>) -> (sent: bool)
    ensures
        !sent,
{
    false
}

/// Everything after the prefix "eaglemode_on_" of a server name holds no
/// colon and no dot, and the name is as long as its parts together.
pub proof fn lemma_server_name_clean(hostname: Seq<char>, display: Seq<char>)
    ensures
        server_name_seq(hostname, display).len() == 13 + hostname.len() + 1 + display.len(),
        server_name_seq(hostname, display).subrange(0, 13) == "eaglemode_on_"@,
        forall|i: int|
            13 <= i < server_name_seq(hostname, display).len() ==> {
                let c = #[trigger] server_name_seq(hostname, display)[i];
                c != ':' && c != '.'
            },
        forall|i: int|
            0 <= i < hostname.len() ==> #[trigger] server_name_seq(hostname, display)[13 + i] == if hostname[i]
                == ':' || hostname[i] == '.' {
                '_'
            } else {
                hostname[i]
            },
        server_name_seq(hostname, display)[13 + hostname.len() as int] == '_',
        forall|i: int|
            0 <= i < display.len() ==> #[trigger] server_name_seq(hostname, display)[14
                + hostname.len() + i] == if display[i] == ':' || display[i] == '.' {
                '_'
            } else {
                display[i]
            },
{
    reveal_strlit("eaglemode_on_");
    reveal_strlit("_");
    let n = server_name_seq(hostname, display);
    let h = hostname.len();
    assert(n.subrange(0, 13) =~= "eaglemode_on_"@);
    assert forall|i: int| 13 <= i < n.len() implies #[trigger] n[i] != ':' && n[i] != '.' by {
        if i < 13 + h {
            assert(n[i] == server_name_char(hostname[i - 13]));
        } else if i == 13 + h {
            assert(n[i] == '_');
        } else {
            assert(n[i] == server_name_char(display[i - 13 - h - 1]));
        }
    }
    assert forall|i: int| 0 <= i < h implies #[trigger] n[13 + i] == server_name_char(
        hostname[i],
    ) by {}
    assert forall|i: int| 0 <= i < display.len() implies #[trigger] n[14 + h + i]
        == server_name_char(display[i]) by {}
}

/// Trimming keeps a contiguous part of the text: it drops only white space
/// before and after, and what it keeps neither starts nor ends with white
/// space.
pub proof fn lemma_trim_shape(s: Seq<char>)
    ensures
        exists|lo: int, hi: int|
            {
                &&& 0 <= lo <= hi <= s.len()
                &&& trim_seq(s) == s.subrange(lo, hi)
                &&& forall|j: int| 0 <= j < lo ==> is_white_space(#[trigger] s[j])
                &&& forall|j: int| hi <= j < s.len() ==> is_white_space(#[trigger] s[j])
            },
        trim_seq(s).len() > 0 ==> !is_white_space(trim_seq(s)[0]) && !is_white_space(
            trim_seq(s).last(),
        ),
{
    lemma_trim_start_shape(s);
    let t = trim_start_seq(s);
    let lo = choose|lo: int|
        0 <= lo <= s.len() && t == s.subrange(lo, s.len() as int) && forall|j: int|
            0 <= j < lo ==> is_white_space(#[trigger] s[j]);
    lemma_trim_end_shape(t);
    let hi = choose|hi: int|
        0 <= hi <= t.len() && trim_end_seq(t) == t.subrange(0, hi) && forall|j: int|
            hi <= j < t.len() ==> is_white_space(#[trigger] t[j]);
    assert(trim_seq(s) =~= s.subrange(lo, lo + hi));
    assert forall|j: int| lo + hi <= j < s.len() implies is_white_space(#[trigger] s[j]) by {
        assert(s[j] == t[j - lo]);
    }
    if trim_seq(s).len() > 0 {
        assert(trim_seq(s)[0] == t[0]);
    }
}

proof fn lemma_trim_start_shape(s: Seq<char>)
    ensures
        exists|lo: int|
            0 <= lo <= s.len() && trim_start_seq(s) == s.subrange(lo, s.len() as int) && forall|
                j: int,
            | 0 <= j < lo ==> is_white_space(#[trigger] s[j]),
        trim_start_seq(s).len() > 0 ==> !is_white_space(trim_start_seq(s)[0]),
    decreases s.len(),
{
    if s.len() > 0 && is_white_space(s[0]) {
        let t = s.drop_first();
        lemma_trim_start_shape(t);
        let lo = choose|lo: int|
            0 <= lo <= t.len() && trim_start_seq(t) == t.subrange(lo, t.len() as int) && forall|
                j: int,
            | 0 <= j < lo ==> is_white_space(#[trigger] t[j]);
        assert(t.subrange(lo, t.len() as int) =~= s.subrange(lo + 1, s.len() as int));
        assert forall|j: int| 0 <= j < lo + 1 implies is_white_space(#[trigger] s[j]) by {
            if j > 0 {
                assert(s[j] == t[j - 1]);
            }
        }
    } else {
        assert(s.subrange(0, s.len() as int) =~= s);
    }
}

proof fn lemma_trim_end_shape(s: Seq<char>)
    ensures
        exists|hi: int|
            0 <= hi <= s.len() && trim_end_seq(s) == s.subrange(0, hi) && forall|j: int|
                hi <= j < s.len() ==> is_white_space(#[trigger] s[j]),
        trim_end_seq(s).len() > 0 ==> !is_white_space(trim_end_seq(s).last()),
    decreases s.len(),
{
    if s.len() > 0 && is_white_space(s.last()) {
        let t = s.drop_last();
        lemma_trim_end_shape(t);
        let hi = choose|hi: int|
            0 <= hi <= t.len() && trim_end_seq(t) == t.subrange(0, hi) && forall|j: int|
                hi <= j < t.len() ==> is_white_space(#[trigger] t[j]);
        assert(t.subrange(0, hi) =~= s.subrange(0, hi));
        assert forall|j: int| hi <= j < s.len() implies is_white_space(#[trigger] s[j]) by {
            if j < s.len() - 1 {
                assert(s[j] == t[j]);
            }
        }
    } else {
        assert(s.subrange(0, s.len() as int) =~= s);
    }
}

} // verus!
