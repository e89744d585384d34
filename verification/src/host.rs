//! Host identity resolution: decoding and trimming the reported host name
//! and classifying it into a machine category.

use vstd::prelude::*;
use crate::errors::HostError;

verus! {

/// The category of machine a host name denotes.
#[derive(Clone, Copy, PartialEq, Eq, Structural, Debug)]
pub enum MachineCategory {
    Laptop,
    Server,
    Desktop,
}

/// `needle` occurs as a contiguous run of characters inside `hay`.
pub open spec fn contains_seq(hay: Seq<char>, needle: Seq<char>) -> bool {
    exists|i: int|
        0 <= i && i + needle.len() <= hay.len() && (#[trigger] hay.subrange(
            i,
            i + needle.len(),
        )) == needle
}

/// The classification rule over host names, in precedence order: the one
/// distinguished exact name, then laptop-indicating substrings, then
/// server-indicating substrings, then the desktop default.
pub open spec fn category_of(name: Seq<char>) -> MachineCategory {
    if name == "scope"@ {
        MachineCategory::Laptop
    } else if contains_seq(name, "laptop"@) || contains_seq(name, "fw"@) {
        MachineCategory::Laptop
    } else if contains_seq(name, "server"@) || contains_seq(name, "srv"@) {
        MachineCategory::Server
    } else {
        MachineCategory::Desktop
    }
}

/// The canonical lower-case label of a category, as it appears inside
/// target identifiers.
pub open spec fn category_label_spec(c: MachineCategory) -> Seq<char> {
    match c {
        MachineCategory::Laptop => "laptop"@,
        MachineCategory::Server => "server"@,
        MachineCategory::Desktop => "desktop"@,
    }
}

/// Returns the label of a category.
pub fn category_label(c: MachineCategory) -> (r: &'static str)
    ensures
        r@ == category_label_spec(c),
{
    match c {
        MachineCategory::Laptop => "laptop",
        MachineCategory::Server => "server",
        MachineCategory::Desktop => "desktop",
    }
}

/// `hay` holds `needle` starting at character position `start`.
fn match_at(hay: &str, needle: &str, start: usize) -> (b: bool)
    requires
        start + needle@.len() <= hay@.len(),
        start + needle@.len() <= usize::MAX,
    ensures
        b == (hay@.subrange(start as int, start + needle@.len()) == needle@),
{
    let nlen = needle.unicode_len();
    let mut j: usize = 0;
    while j < nlen
        invariant
            j <= nlen,
            nlen == needle@.len(),
            start + nlen <= hay@.len(),
            start + nlen <= usize::MAX,
            forall|k: int| 0 <= k < j ==> hay@[start + k] == needle@[k],
        decreases nlen - j,
    {
        if hay.get_char(start + j) != needle.get_char(j) {
            proof {
                assert(hay@.subrange(start as int, start + needle@.len())[j as int] != needle@[
                    j as int
                ]);
            }
            return false;
        }
        j += 1;
    }
    proof {
        assert(hay@.subrange(start as int, start + needle@.len()) =~= needle@);
    }
    true
}

/// Substring search over characters.
pub fn str_contains(hay: &str, needle: &str) -> (b: bool)
    ensures
        b == contains_seq(hay@, needle@),
{
    let hlen = hay.unicode_len();
    let nlen = needle.unicode_len();
    if nlen > hlen {
        return false;
    }
    if nlen == 0 {
        proof {
            assert(hay@.subrange(0, 0 + needle@.len() as int) =~= needle@);
            assert(contains_seq(hay@, needle@));
        }
        return true;
    }
    let bound = hlen - nlen;
    let mut i: usize = 0;
    while i <= bound
        invariant
            hlen == hay@.len(),
            nlen == needle@.len(),
            0 < nlen <= hlen,
            bound == hlen - nlen,
            i <= bound + 1,
            forall|k: int|
                0 <= k < i ==> (#[trigger] hay@.subrange(k, k + needle@.len())) != needle@,
        decreases bound + 1 - i,
    {
        if match_at(hay, needle, i) {
            return true;
        }
        i += 1;
    }
    false
}

/// Character-for-character string equality.
pub fn str_eq(a: &str, b: &str) -> (r: bool)
    ensures
        r == (a@ == b@),
{
    let alen = a.unicode_len();
    let blen = b.unicode_len();
    if alen != blen {
        proof {
            assert(a@ != b@);
        }
        return false;
    }
    let m = match_at(a, b, 0);
    proof {
        assert(a@.subrange(0, a@.len() as int) =~= a@);
    }
    m
}

/// Classifies a host name into its machine category by first-match
/// precedence.
pub fn detect_machine_type(hostname: &str) -> (c: MachineCategory)
    ensures
        c == category_of(hostname@),
{
    if str_eq(hostname, "scope") {
        MachineCategory::Laptop
    } else if str_contains(hostname, "laptop") || str_contains(hostname, "fw") {
        MachineCategory::Laptop
    } else if str_contains(hostname, "server") || str_contains(hostname, "srv") {
        MachineCategory::Server
    } else {
        MachineCategory::Desktop
    }
}

/// ASCII whitespace, as it occurs around a reported host name.
pub open spec fn is_ws(b: u8) -> bool {
    b == 32 || b == 9 || b == 10 || b == 13
}

/// `s` with its leading whitespace bytes removed.
pub open spec fn trim_front_spec(s: Seq<u8>) -> Seq<u8>
    decreases s.len(),
{
    if s.len() > 0 && is_ws(s[0]) {
        trim_front_spec(s.drop_first())
    } else {
        s
    }
}

/// `s` with its trailing whitespace bytes removed.
pub open spec fn trim_back_spec(s: Seq<u8>) -> Seq<u8>
    decreases s.len(),
{
    if s.len() > 0 && is_ws(s.last()) {
        trim_back_spec(s.drop_last())
    } else {
        s
    }
}

/// `s` with surrounding whitespace bytes removed.
pub open spec fn trimmed_spec(s: Seq<u8>) -> Seq<u8> {
    trim_back_spec(trim_front_spec(s))
}

proof fn lemma_trim_front(s: Seq<u8>, k: int)
    requires
        0 <= k <= s.len(),
        forall|j: int| 0 <= j < k ==> is_ws(s[j]),
        k == s.len() || !is_ws(s[k]),
    ensures
        trim_front_spec(s) == s.subrange(k, s.len() as int),
    decreases k,
{
    if k == 0 {
        assert(s.subrange(0, s.len() as int) =~= s);
    } else {
        lemma_trim_front(s.drop_first(), k - 1);
        assert(s.drop_first().subrange(k - 1, s.drop_first().len() as int) =~= s.subrange(
            k,
            s.len() as int,
        ));
    }
}

proof fn lemma_trim_back(s: Seq<u8>, k: int)
    requires
        0 <= k <= s.len(),
        forall|j: int| k <= j < s.len() ==> is_ws(s[j]),
        k == 0 || !is_ws(s[k - 1]),
    ensures
        trim_back_spec(s) == s.subrange(0, k),
    decreases s.len() - k,
{
    if k == s.len() {
        assert(s.subrange(0, k) =~= s);
    } else {
        lemma_trim_back(s.drop_last(), k);
        assert(s.drop_last().subrange(0, k) =~= s.subrange(0, k));
    }
}

/// Whether a byte is surrounding whitespace.
fn is_ws_byte(b: u8) -> (r: bool)
    ensures
        r == is_ws(b),
{
    b == 32 || b == 9 || b == 10 || b == 13
}

/// Removes surrounding whitespace bytes.
pub fn trim_bytes(v: &[u8]) -> (r: Vec<u8>)
    ensures
        r@ == trimmed_spec(v@),
{
    let len = v.len();
    let mut start: usize = 0;
    while start < len && is_ws_byte(v[start])
        invariant
            len == v@.len(),
            start <= len,
            forall|j: int| 0 <= j < start ==> is_ws(v@[j]),
        decreases len - start,
    {
        start += 1;
    }
    proof {
        lemma_trim_front(v@, start as int);
    }
    let mut end: usize = len;
    while end > start && is_ws_byte(v[end - 1])
        invariant
            len == v@.len(),
            start <= end <= len,
            forall|j: int| end <= j < len ==> is_ws(v@[j]),
        decreases end,
    {
        end -= 1;
    }
    proof {
        let front = v@.subrange(start as int, len as int);
        assert(forall|j: int|
            end - start <= j < front.len() ==> is_ws(#[trigger] front[j]));
        lemma_trim_back(front, end - start);
        assert(front.subrange(0, end - start) =~= v@.subrange(start as int, end as int));
    }
    let mut r: Vec<u8> = Vec::new();
    let mut i = start;
    while i < end
        invariant
            start <= i <= end <= len,
            len == v@.len(),
            r@ == v@.subrange(start as int, i as int),
        decreases end - i,
    {
        r.push(v[i]);
        proof {
            assert(v@.subrange(start as int, i + 1) =~= v@.subrange(start as int, i as int).push(
                v@[i as int],
            ));
        }
        i += 1;
    }
    r
}

/// Relies on `String::from_utf8`: it succeeds exactly on valid UTF-8
/// input and yields its decoding, as vstd's model of UTF-8 states it.
#[verifier::external_body]
fn utf8_to_string(bytes: Vec<u8>) -> (r: Option<String>)
    ensures
        r is Some <==> vstd::utf8::valid_utf8(bytes@),
        r matches Some(s) ==> s@ == vstd::utf8::decode_utf8(bytes@),
{
    String::from_utf8(bytes).ok()
}

/// The host name derived from the identity query's raw result: the exit
/// status must be zero and the trimmed output must decode as text.
pub open spec fn hostname_ok(exit_ok: bool, stdout: Seq<u8>) -> bool {
    exit_ok && vstd::utf8::valid_utf8(trimmed_spec(stdout))
}

/// The decoded host name, for a query result that `hostname_ok` admits.
pub open spec fn hostname_of(stdout: Seq<u8>) -> Seq<char> {
    vstd::utf8::decode_utf8(trimmed_spec(stdout))
}

/// Turns the raw result of the host-name query into the host's name:
/// trims surrounding whitespace and decodes the remainder as text.
pub fn parse_hostname(exit_ok: bool, stdout: &[u8]) -> (r: Result<String, HostError>)
    ensures
        r is Ok <==> hostname_ok(exit_ok, stdout@),
        r matches Ok(s) ==> s@ == hostname_of(stdout@),
        !exit_ok ==> r == Err::<String, HostError>(HostError::QueryFailed),
        exit_ok && !r.is_ok() ==> r == Err::<String, HostError>(HostError::InvalidOutput),
{
    if !exit_ok {
        return Err(HostError::QueryFailed);
    }
    let t = trim_bytes(stdout);
    match utf8_to_string(t) {
        Some(s) => Ok(s),
        None => Err(HostError::InvalidOutput),
    }
}

/// Law: a host name containing a laptop-indicating substring is classified
/// as a laptop, whatever else it contains — in particular one that also
/// holds a server-indicating substring.
pub proof fn lemma_laptop_precedence(name: Seq<char>)
    requires
        contains_seq(name, "laptop"@) || contains_seq(name, "fw"@),
    ensures
        category_of(name) == MachineCategory::Laptop,
{
}

/// Law: a host name containing a server-indicating substring and no
/// laptop indicator is classified as a server.
pub proof fn lemma_server_when_only_server(name: Seq<char>)
    requires
        contains_seq(name, "server"@) || contains_seq(name, "srv"@),
        !contains_seq(name, "laptop"@),
        !contains_seq(name, "fw"@),
    ensures
        category_of(name) == MachineCategory::Server,
{
    if name == "scope"@ {
        lemma_exact_name_has_no_server_indicator(name);
        assert(false);
    }
}

/// Law: a host name with neither the distinguished exact name nor any
/// indicating substring falls back to the desktop category.
pub proof fn lemma_desktop_default(name: Seq<char>)
    requires
        name != "scope"@,
        !contains_seq(name, "laptop"@),
        !contains_seq(name, "fw"@),
        !contains_seq(name, "server"@),
        !contains_seq(name, "srv"@),
    ensures
        category_of(name) == MachineCategory::Desktop,
{
}

/// The distinguished exact name holds no server-indicating substring, so
/// the exact-match rule and the server rule never conflict.
proof fn lemma_exact_name_has_no_server_indicator(name: Seq<char>)
    requires
        name == "scope"@,
    ensures
        !contains_seq(name, "server"@),
        !contains_seq(name, "srv"@),
{
    reveal_strlit("scope");
    reveal_strlit("server");
    reveal_strlit("srv");
    assert(name.len() == 5);
    assert forall|i: int|
        0 <= i && i + 3 <= 5 implies (#[trigger] name.subrange(i, i + 3)) != "srv"@ by {
        assert(name.subrange(i, i + 3)[1] == name[i + 1]);
        assert(name[1] == 'c' && name[2] == 'o' && name[3] == 'p');
    }
}

} // verus!

