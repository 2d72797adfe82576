use vstd::prelude::*;

verus! {

// ---------------------------------------------------------------------------
// Cache-key derivation
//
// A cache key is the part of a URL after its last `/`. The derivation is
// deliberately lossy: two URLs that share a final segment share a cache
// entry. Page fetches append a fixed `.html` suffix; metadata fetches use
// the segment as it stands.
// ---------------------------------------------------------------------------

pub open spec fn has_slash(s: Seq<char>) -> bool {
    exists|i: int| 0 <= i < s.len() && s[i] == '/'
}

/// The suffix of `s` after its last `/`; all of `s` when it has no `/`.
pub open spec fn after_last_slash(s: Seq<char>) -> Seq<char>
    decreases s.len(),
{
    if s.len() == 0 {
        s
    } else if s.last() == '/' {
        Seq::empty()
    } else {
        after_last_slash(s.drop_last()).push(s.last())
    }
}

proof fn lemma_after_last_slash_at(s: Seq<char>, j: int)
    requires
        0 <= j < s.len(),
        s[j] == '/',
        forall|k: int| j < k < s.len() ==> s[k] != '/',
    ensures
        after_last_slash(s) == s.subrange(j + 1, s.len() as int),
    decreases s.len(),
{
    if j == s.len() - 1 {
        assert(s.last() == '/');
        assert(after_last_slash(s) =~= s.subrange(j + 1, s.len() as int));
    } else {
        assert(s.last() != '/');
        lemma_after_last_slash_at(s.drop_last(), j);
        assert(after_last_slash(s) =~= s.subrange(j + 1, s.len() as int));
    }
}

/// The cache file name for `url`: the segment after the last `/`.
/// `None` when the URL holds no `/` at all, in which case no key can be
/// derived and the fetch is rejected by the caller.
pub fn cache_key(url: &str) -> (r: Option<String>)
    ensures
        r is Some <==> has_slash(url@),
        r matches Some(k) ==> k@ == after_last_slash(url@),
{
    let len = url.unicode_len();
    let mut i: usize = 0;
    let mut last: Option<usize> = None;
    while i < len
        invariant
            len == url@.len(),
            i <= len,
            match last {
                Some(j) => {
                    &&& j < i
                    &&& url@[j as int] == '/'
                    &&& forall|k: int| j < k < i ==> url@[k] != '/'
                },
                None => forall|k: int| 0 <= k < i ==> url@[k] != '/',
            },
        decreases len - i,
    {
        if url.get_char(i) == '/' {
            last = Some(i);
        }
        i += 1;
    }
    match last {
        None => {
            proof {
                assert(!has_slash(url@));
            }
            None
        },
        Some(j) => {
            let tail = url.substring_char(j + 1, len);
            proof {
                lemma_after_last_slash_at(url@, j as int);
            }
            Some(String::from_str(tail))
        },
    }
}

/// The cache file name for a catalog page fetch: the segment after the last
/// `/`, with a fixed `.html` suffix appended.
pub fn page_cache_key(url: &str) -> (r: Option<String>)
    ensures
        r is Some <==> has_slash(url@),
        r matches Some(k) ==> k@ == after_last_slash(url@) + ".html"@,
{
    match cache_key(url) {
        None => None,
        Some(mut k) => {
            k.append(".html");
            Some(k)
        },
    }
}

// ---------------------------------------------------------------------------
// Output-file naming
//
// A downloaded episode is stored as `{index} - {title}.mp3`, the index in
// decimal and zero-padded to at least three digits, the title already
// sanitized by the caller.
// ---------------------------------------------------------------------------

pub open spec fn digit_char(d: nat) -> char {
    if d == 0 {
        '0'
    } else if d == 1 {
        '1'
    } else if d == 2 {
        '2'
    } else if d == 3 {
        '3'
    } else if d == 4 {
        '4'
    } else if d == 5 {
        '5'
    } else if d == 6 {
        '6'
    } else if d == 7 {
        '7'
    } else if d == 8 {
        '8'
    } else {
        '9'
    }
}

/// The decimal digits of `n`, most significant first.
pub open spec fn dec_digits(n: nat) -> Seq<char>
    decreases n,
{
    if n < 10 {
        seq![digit_char(n)]
    } else {
        dec_digits(n / 10).push(digit_char(n % 10))
    }
}

/// The decimal digits of `n`, zero-padded on the left to at least three
/// digits; wider numbers keep all their digits.
pub open spec fn padded_index(n: nat) -> Seq<char> {
    if n < 10 {
        seq!['0', '0'] + dec_digits(n)
    } else if n < 100 {
        seq!['0'] + dec_digits(n)
    } else {
        dec_digits(n)
    }
}

fn push_digit(s: &mut String, d: usize)
    requires
        d < 10,
    ensures
        final(s)@ == old(s)@ + seq![digit_char(d as nat)],
{
    proof {
        reveal_strlit("0");
        reveal_strlit("1");
        reveal_strlit("2");
        reveal_strlit("3");
        reveal_strlit("4");
        reveal_strlit("5");
        reveal_strlit("6");
        reveal_strlit("7");
        reveal_strlit("8");
        reveal_strlit("9");
    }
    match d {
        0 => s.append("0"),
        1 => s.append("1"),
        2 => s.append("2"),
        3 => s.append("3"),
        4 => s.append("4"),
        5 => s.append("5"),
        6 => s.append("6"),
        7 => s.append("7"),
        8 => s.append("8"),
        _ => s.append("9"),
    }
    proof {
        assert(s@ =~= old(s)@ + seq![digit_char(d as nat)]);
    }
}

fn push_decimal(s: &mut String, n: usize)
    ensures
        final(s)@ == old(s)@ + dec_digits(n as nat),
    decreases n,
{
    if n < 10 {
        push_digit(s, n);
    } else {
        push_decimal(s, n / 10);
        push_digit(s, n % 10);
        proof {
            assert(s@ =~= old(s)@ + dec_digits(n as nat));
        }
    }
}

/// The output file name for the episode at 1-based position `index` with
/// the given sanitized title.
pub fn output_filename(index: usize, sanitized_title: &str) -> (r: String)
    ensures
        r@ == padded_index(index as nat) + " - "@ + sanitized_title@ + ".mp3"@,
{
    let mut s = String::new();
    if index < 10 {
        s.append("00");
        proof {
            reveal_strlit("00");
            assert(s@ =~= seq!['0', '0']);
        }
    } else if index < 100 {
        s.append("0");
        proof {
            reveal_strlit("0");
            assert(s@ =~= seq!['0']);
        }
    }
    push_decimal(&mut s, index);
    proof {
        assert(s@ =~= padded_index(index as nat));
    }
    s.append(" - ");
    s.append(sanitized_title);
    s.append(".mp3");
    proof {
        assert(s@ =~= padded_index(index as nat) + " - "@ + sanitized_title@ + ".mp3"@);
    }
    s
}

} // verus!

