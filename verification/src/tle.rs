//! TLE lookup: find a satellite's two-line element set in an element file.
//!
//! The file is handed in as its lines, each a byte string. The lookup scans
//! for the first line that, trimmed, equals the requested satellite name and
//! takes the following two lines as the element set. A name that is absent,
//! or sits too close to the end of the file for two element lines to follow,
//! is a configuration error: the caller must fail fast at startup, before
//! any sample is processed.

use vstd::prelude::*;

verus! {

/// A two-line element set: the satellite name line and the two element lines,
/// each trimmed of line breaks and trailing whitespace.
#[derive(Clone, Debug, PartialEq, Eq)]
pub struct Tle {
    pub name: Vec<u8>,
    pub line1: Vec<u8>,
    pub line2: Vec<u8>,
}

/// A failed TLE lookup; fatal at startup.
#[derive(Clone, Copy, Debug, PartialEq, Eq, Structural)]
pub enum TleError {
    /// No line of the file matches the requested name.
    NameNotFound,
    /// The name matched, but fewer than two lines follow it.
    FileTruncated,
}

/// Carriage return or line feed.
pub open spec fn is_line_break(b: u8) -> bool {
    b == 13 || b == 10
}

/// ASCII whitespace: tab through carriage return, and space.
pub open spec fn is_ascii_space(b: u8) -> bool {
    9 <= b <= 13 || b == 32
}

/// `s` without its leading line breaks.
pub open spec fn drop_leading_breaks(s: Seq<u8>) -> Seq<u8>
    decreases s.len(),
{
    if s.len() > 0 && is_line_break(s[0]) {
        drop_leading_breaks(s.drop_first())
    } else {
        s
    }
}

/// `s` without its trailing whitespace.
pub open spec fn drop_trailing_spaces(s: Seq<u8>) -> Seq<u8>
    decreases s.len(),
{
    if s.len() > 0 && is_ascii_space(s.last()) {
        drop_trailing_spaces(s.drop_last())
    } else {
        s
    }
}

/// A line as it is compared and stored: without leading line breaks and
/// without trailing whitespace.
pub open spec fn trim_spec(s: Seq<u8>) -> Seq<u8> {
    drop_trailing_spaces(drop_leading_breaks(s))
}

/// If the first `i` bytes are line breaks and byte `i` is not, dropping
/// leading breaks keeps exactly the bytes from `i` on.
proof fn lemma_drop_leading_breaks_at(s: Seq<u8>, i: int)
    requires
        0 <= i <= s.len(),
        forall|j: int| 0 <= j < i ==> is_line_break(s[j]),
        i == s.len() || !is_line_break(s[i]),
    ensures
        drop_leading_breaks(s) == s.subrange(i, s.len() as int),
    decreases i,
{
    if i == 0 {
        assert(s.subrange(0, s.len() as int) =~= s);
    } else {
        let t = s.drop_first();
        assert(forall|j: int| 0 <= j < i - 1 ==> is_line_break(t[j]));
        lemma_drop_leading_breaks_at(t, i - 1);
        assert(t.subrange(i - 1, t.len() as int) =~= s.subrange(i, s.len() as int));
    }
}

/// If the bytes from `i` on are whitespace and byte `i - 1` is not, dropping
/// trailing whitespace keeps exactly the first `i` bytes.
proof fn lemma_drop_trailing_spaces_at(s: Seq<u8>, i: int)
    requires
        0 <= i <= s.len(),
        forall|j: int| i <= j < s.len() ==> is_ascii_space(s[j]),
        i == 0 || !is_ascii_space(s[i - 1]),
    ensures
        drop_trailing_spaces(s) == s.subrange(0, i),
    decreases s.len() - i,
{
    if i == s.len() {
        if s.len() > 0 {
            assert(!is_ascii_space(s.last()));
        }
        assert(s.subrange(0, s.len() as int) =~= s);
    } else {
        assert(is_ascii_space(s.last()));
        let t = s.drop_last();
        assert(forall|j: int| i <= j < t.len() ==> is_ascii_space(t[j]));
        lemma_drop_trailing_spaces_at(t, i);
        assert(t.subrange(0, i) =~= s.subrange(0, i));
    }
}

/// Trim a line: remove leading line breaks and trailing whitespace.
pub fn trim(line: &Vec<u8>) -> (r: Vec<u8>)
    ensures
        r@ == trim_spec(line@),
{
    let len = line.len();
    let mut start: usize = 0;
    while start < len && (line[start] == 13 || line[start] == 10)
        invariant
            len == line@.len(),
            start <= len,
            forall|j: int| 0 <= j < start ==> is_line_break(line@[j]),
        decreases len - start,
    {
        start = start + 1;
    }
    proof {
        lemma_drop_leading_breaks_at(line@, start as int);
    }
    let mut end: usize = len;
    while end > start && ((9 <= line[end - 1] && line[end - 1] <= 13) || line[end - 1] == 32)
        invariant
            len == line@.len(),
            start <= end <= len,
            forall|j: int| end <= j < len ==> is_ascii_space(line@[j]),
        decreases end,
    {
        end = end - 1;
    }
    let ghost head = line@.subrange(start as int, len as int);
    proof {
        assert(forall|j: int| end - start <= j < head.len() ==> is_ascii_space(head[j]));
        lemma_drop_trailing_spaces_at(head, end - start);
    }
    let mut r: Vec<u8> = Vec::new();
    let mut k: usize = start;
    while k < end
        invariant
            len == line@.len(),
            start <= k <= end <= len,
            r@.len() == k - start,
            forall|j: int| 0 <= j < k - start ==> r@[j] == line@[start + j],
        decreases end - k,
    {
        r.push(line[k]);
        k = k + 1;
    }
    proof {
        assert(r@ =~= head.subrange(0, end - start));
    }
    r
}

/// Whether two byte strings hold the same bytes.
fn bytes_eq(a: &Vec<u8>, b: &Vec<u8>) -> (r: bool)
    ensures
        r <==> a@ == b@,
{
    if a.len() != b.len() {
        return false;
    }
    let n = a.len();
    let mut k: usize = 0;
    while k < n
        invariant
            n == a@.len() == b@.len(),
            k <= n,
            forall|j: int| 0 <= j < k ==> a@[j] == b@[j],
        decreases n - k,
    {
        if a[k] != b[k] {
            return false;
        }
        k = k + 1;
    }
    proof {
        assert(a@ =~= b@);
    }
    true
}

/// Whether line `i` of the file, trimmed, is the requested name.
pub open spec fn line_matches(lines: Seq<Vec<u8>>, name: Seq<u8>, i: int) -> bool {
    trim_spec(lines[i]@) == name
}

/// Whether line `i` is the first line of the file matching the name.
pub open spec fn first_match_at(lines: Seq<Vec<u8>>, name: Seq<u8>, i: int) -> bool {
    &&& 0 <= i < lines.len()
    &&& line_matches(lines, name, i)
    &&& forall|j: int| 0 <= j < i ==> !line_matches(lines, name, j)
}

/// At most one line is the first match.
proof fn lemma_first_match_unique(lines: Seq<Vec<u8>>, name: Seq<u8>, i1: int, i2: int)
    requires
        first_match_at(lines, name, i1),
        first_match_at(lines, name, i2),
    ensures
        i1 == i2,
{
    if i1 < i2 {
        assert(!line_matches(lines, name, i1));
    } else if i2 < i1 {
        assert(!line_matches(lines, name, i2));
    }
}

/// Look a satellite name up among the lines of an element file.
///
/// Succeeds exactly when the name is nonempty, some line trims to it, and at
/// least two lines follow the first such line; the element set then holds the
/// name and those two lines, trimmed. An absent name (or an empty one, which
/// no lookup accepts) is `NameNotFound`; a name too close to the end of the
/// file is `FileTruncated`.
pub fn create_tle_from_lines(lines: &Vec<Vec<u8>>, name: &Vec<u8>) -> (r: Result<Tle, TleError>)
    ensures
        r is Ok <==> name@.len() > 0 && exists|i: int|
            first_match_at(lines@, name@, i) && i + 2 < lines@.len(),
        r matches Ok(t) ==> exists|i: int|
            {
                &&& #[trigger] first_match_at(lines@, name@, i)
                &&& i + 2 < lines@.len()
                &&& t.name@ == name@
                &&& t.line1@ == trim_spec(lines@[i + 1]@)
                &&& t.line2@ == trim_spec(lines@[i + 2]@)
            },
        r == Err::<Tle, TleError>(TleError::NameNotFound) <==> name@.len() == 0 || forall|i: int|
            0 <= i < lines@.len() ==> !line_matches(lines@, name@, i),
        r == Err::<Tle, TleError>(TleError::FileTruncated) <==> name@.len() > 0 && exists|i: int|
            first_match_at(lines@, name@, i) && i + 2 >= lines@.len(),
{
    if name.len() == 0 {
        return Err(TleError::NameNotFound);
    }
    let n = lines.len();
    let mut i: usize = 0;
    while i < n
        invariant
            n == lines@.len(),
            i <= n,
            name@.len() > 0,
            forall|j: int| 0 <= j < i ==> !line_matches(lines@, name@, j),
        decreases n - i,
    {
        let trimmed = trim(&lines[i]);
        if bytes_eq(&trimmed, name) {
            assert(first_match_at(lines@, name@, i as int));
            proof {
                assert forall|i2: int| first_match_at(lines@, name@, i2) implies i2 == i as int by {
                    lemma_first_match_unique(lines@, name@, i as int, i2);
                }
            }
            if n - i > 2 {
                let line1 = trim(&lines[i + 1]);
                let line2 = trim(&lines[i + 2]);
                return Ok(Tle { name: trimmed, line1, line2 });
            } else {
                return Err(TleError::FileTruncated);
            }
        }
        i = i + 1;
    }
    Err(TleError::NameNotFound)
}

} // verus!
