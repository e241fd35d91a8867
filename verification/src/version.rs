//! Versions of outside tools, read from what the tools print.
//!
//! A version is the first `X.Y.Z` in a text. The text is read byte by byte: a
//! component is a run of decimal digits that fits in 32 bits, the first two
//! closed by a `.` each.

use core::cmp::Ordering;
use crate::text::{decimal_text, u64_to_string};
use vstd::prelude::*;
use vstd::std_specs::cmp::PartialOrdSpecImpl;
use vstd::string::StringSliceAdditionalSpecFns;

verus! {

/// A version `major.minor.patch`.
#[derive(Debug, Clone, Copy, PartialEq, Eq, Structural)]
pub struct Version {
    pub major: u32,
    pub minor: u32,
    pub patch: u32,
}

/// The byte of `.`.
pub const DOT: u8 = 46;

/// The byte of `+`.
pub const PLUS: u8 = 43;

/// A byte that is a decimal digit.
pub open spec fn is_digit_byte(b: u8) -> bool {
    48 <= b <= 57
}

/// The place of the first `.` at or after `from`; the length of the text
/// where there is none.
pub open spec fn dot_after(b: Seq<u8>, from: int) -> int
    decreases b.len() - from,
{
    if from >= b.len() {
        b.len() as int
    } else if b[from] == DOT {
        from
    } else {
        dot_after(b, from + 1)
    }
}

/// The place of the first byte at or after `from` that is no digit; the
/// length of the text where there is none.
pub open spec fn digits_end(b: Seq<u8>, from: int) -> int
    decreases b.len() - from,
{
    if from >= b.len() {
        b.len() as int
    } else if !is_digit_byte(b[from]) {
        from
    } else {
        digits_end(b, from + 1)
    }
}

/// The number that a run of digits denotes.
pub open spec fn digits_number(d: Seq<u8>) -> nat
    decreases d.len(),
{
    if d.len() == 0 {
        0
    } else {
        10 * digits_number(d.drop_last()) + (d.last() - 48) as nat
    }
}

/// A run of digits and nothing else.
pub open spec fn all_digits(d: Seq<u8>) -> bool {
    forall|i: int| 0 <= i < d.len() ==> is_digit_byte(#[trigger] d[i])
}

/// The digits of a component: the text without one leading `+`.
pub open spec fn unsigned_digits(t: Seq<u8>) -> Seq<u8> {
    if t.len() > 0 && t[0] == PLUS {
        t.skip(1)
    } else {
        t
    }
}

/// The number that a component denotes, as `u32`'s own parser reads it: an
/// optional `+`, then at least one digit and only digits, the whole no more
/// than `u32::MAX`.
pub open spec fn component(t: Seq<u8>) -> Option<u32> {
    let d = unsigned_digits(t);
    if d.len() > 0 && all_digits(d) && digits_number(d) <= u32::MAX {
        Some(digits_number(d) as u32)
    } else {
        None
    }
}

/// The version that starts at `start`, with the place where it ends.
///
/// The major component runs to the first `.`, the minor one to the second;
/// the patch is the run of digits that follows and may be followed by
/// anything.
pub open spec fn version_at(b: Seq<u8>, start: int) -> Option<(Version, usize)> {
    let first = dot_after(b, start);
    let second = dot_after(b, first + 1);
    let end = digits_end(b, second + 1);
    if first >= b.len() || second >= b.len() || end == second + 1 {
        None
    } else {
        match (
            component(b.subrange(start, first)),
            component(b.subrange(first + 1, second)),
            component(b.subrange(second + 1, end)),
        ) {
            (Some(major), Some(minor), Some(patch)) => Some(
                (Version { major, minor, patch }, end as usize),
            ),
            _ => None,
        }
    }
}

/// The first version in a text at or after `from`: the one that starts at
/// the first digit where a version starts.
pub open spec fn version_from(b: Seq<u8>, from: int) -> Option<Version>
    decreases b.len() - from,
{
    if from >= b.len() {
        None
    } else {
        match version_at(b, from) {
            Some((version, _)) if is_digit_byte(b[from]) => Some(version),
            _ => version_from(b, from + 1),
        }
    }
}

/// The first version in a text.
pub open spec fn version_in(b: Seq<u8>) -> Option<Version> {
    version_from(b, 0)
}

/// A longer run of digits denotes no smaller number.
pub proof fn lemma_digits_number_grows(d: Seq<u8>, k: int)
    requires
        0 <= k <= d.len(),
        all_digits(d),
    ensures
        digits_number(d.take(k)) <= digits_number(d),
    decreases d.len(),
{
    if k < d.len() {
        let init = d.drop_last();
        assert(all_digits(init)) by {
            assert forall|i: int| 0 <= i < init.len() implies is_digit_byte(
                #[trigger] init[i],
            ) by {
                assert(init[i] == d[i]);
            }
        }
        lemma_digits_number_grows(init, k);
        assert(init.take(k) =~= d.take(k));
        assert(is_digit_byte(d[d.len() - 1]));
    } else {
        assert(d.take(k) =~= d);
    }
}

fn find_dot(b: &[u8], from: usize) -> (r: usize)
    requires
        from <= b@.len(),
    ensures
        r == dot_after(b@, from as int),
        from <= r <= b@.len(),
{
    let mut i = from;
    while i < b.len() && b[i] != DOT
        invariant
            from <= i <= b@.len(),
            dot_after(b@, from as int) == dot_after(b@, i as int),
        decreases b@.len() - i,
    {
        i += 1;
    }
    i
}

fn find_digits_end(b: &[u8], from: usize) -> (r: usize)
    requires
        from <= b@.len(),
    ensures
        r == digits_end(b@, from as int),
        from <= r <= b@.len(),
        all_digits(b@.subrange(from as int, r as int)),
{
    let mut i = from;
    while i < b.len() && b[i] >= 48 && b[i] <= 57
        invariant
            from <= i <= b@.len(),
            digits_end(b@, from as int) == digits_end(b@, i as int),
            all_digits(b@.subrange(from as int, i as int)),
        decreases b@.len() - i,
    {
        i += 1;
        assert forall|k: int| 0 <= k < i - from implies is_digit_byte(
            #[trigger] b@.subrange(from as int, i as int)[k],
        ) by {
            if k < i - from - 1 {
                assert(b@.subrange(from as int, i as int)[k] == b@.subrange(
                    from as int,
                    i - 1,
                )[k]);
            }
        }
    }
    i
}

/// Reads the component `b[from..to]`.
#[verifier::loop_isolation(false)]
fn parse_component(b: &[u8], from: usize, to: usize) -> (r: Option<u32>)
    requires
        from <= to <= b@.len(),
    ensures
        r == component(b@.subrange(from as int, to as int)),
{
    let ghost t = b@.subrange(from as int, to as int);
    let start = if from < to && b[from] == PLUS {
        from + 1
    } else {
        from
    };
    let ghost d = b@.subrange(start as int, to as int);
    assert(d =~= unsigned_digits(t));
    if start == to {
        return None;
    }
    let mut acc: u64 = 0;
    let mut i = start;
    while i < to
        invariant
            start <= i <= to <= b@.len(),
            d == b@.subrange(start as int, to as int),
            all_digits(d.take(i - start)),
            acc == digits_number(d.take(i - start)),
            acc <= u32::MAX,
        decreases to - i,
    {
        let c = b[i];
        if c < 48 || c > 57 {
            assert(!is_digit_byte(d[i - start]));
            return None;
        }
        let ghost before = d.take(i - start);
        let ghost now = d.take(i - start + 1);
        assert(now.drop_last() =~= before);
        assert(now.last() == c);
        assert forall|k: int| 0 <= k < now.len() implies is_digit_byte(#[trigger] now[k]) by {
            if k < before.len() {
                assert(now[k] == before[k]);
            }
        }
        let next = acc * 10 + (c - 48) as u64;
        if next > 0xffff_ffff {
            proof {
                if all_digits(d) {
                    lemma_digits_number_grows(d, i - start + 1);
                }
            }
            return None;
        }
        acc = next;
        i += 1;
    }
    assert(d.take(to - start) =~= d);
    Some(acc as u32)
}

impl Version {
    /// Parses the first `X.Y.Z` in a text, such as `"2.1.8"`, `"v0.36.0"`,
    /// `"nargo version = 0.36.0"` or `"snarkjs@0.7.4"`.
    pub fn parse(s: &str) -> (r: Option<Version>)
        ensures
            r == version_in(s.spec_bytes()),
    {
        let bytes = s.as_bytes();
        let mut i: usize = 0;
        while i < bytes.len()
            invariant
                i <= bytes@.len(),
                bytes@ == s.spec_bytes(),
                version_in(bytes@) == version_from(bytes@, i as int),
            decreases bytes@.len() - i,
        {
            if bytes[i] >= 48 && bytes[i] <= 57 {
                match Version::parse_at(bytes, i) {
                    Some((version, _)) => {
                        return Some(version);
                    },
                    None => {},
                }
            }
            i += 1;
        }
        None
    }

    /// Parses the `X.Y.Z` that starts at `start`, and tells where it ends.
    pub fn parse_at(bytes: &[u8], start: usize) -> (r: Option<(Version, usize)>)
        requires
            start <= bytes@.len(),
        ensures
            r == version_at(bytes@, start as int),
    {
        let first = find_dot(bytes, start);
        if first >= bytes.len() {
            return None;
        }
        let second = find_dot(bytes, first + 1);
        if second >= bytes.len() {
            return None;
        }
        let end = find_digits_end(bytes, second + 1);
        if end == second + 1 {
            return None;
        }
        let major = match parse_component(bytes, start, first) {
            Some(n) => n,
            None => { return None; },
        };
        let minor = match parse_component(bytes, first + 1, second) {
            Some(n) => n,
            None => { return None; },
        };
        let patch = match parse_component(bytes, second + 1, end) {
            Some(n) => n,
            None => { return None; },
        };
        Some((Version { major, minor, patch }, end))
    }

    /// The text `major.minor.patch`.
    pub open spec fn text(self) -> Seq<char> {
        decimal_text(self.major as nat) + seq!['.'] + decimal_text(self.minor as nat) + seq!['.']
            + decimal_text(self.patch as nat)
    }

    /// Writes the version as `major.minor.patch`.
    pub fn to_string(&self) -> (s: String)
        ensures
            s@ == self.text(),
    {
        let mut s = u64_to_string(self.major as u64);
        s.push('.');
        s.append(u64_to_string(self.minor as u64).as_str());
        s.push('.');
        s.append(u64_to_string(self.patch as u64).as_str());
        s
    }

    /// Whether this version comes before `other`: by major, then minor, then
    /// patch.
    pub open spec fn precedes(self, other: Version) -> bool {
        self.major < other.major || (self.major == other.major && (self.minor < other.minor || (
        self.minor == other.minor && self.patch < other.patch)))
    }
}

impl PartialOrd for Version {
    fn partial_cmp(&self, other: &Version) -> (r: Option<Ordering>) {
        if self.major < other.major {
            Some(Ordering::Less)
        } else if self.major > other.major {
            Some(Ordering::Greater)
        } else if self.minor < other.minor {
            Some(Ordering::Less)
        } else if self.minor > other.minor {
            Some(Ordering::Greater)
        } else if self.patch < other.patch {
            Some(Ordering::Less)
        } else if self.patch > other.patch {
            Some(Ordering::Greater)
        } else {
            Some(Ordering::Equal)
        }
    }
}

impl PartialOrdSpecImpl for Version {
    open spec fn obeys_partial_cmp_spec() -> bool {
        true
    }

    open spec fn partial_cmp_spec(&self, other: &Version) -> Option<Ordering> {
        if self.precedes(*other) {
            Some(Ordering::Less)
        } else if other.precedes(*self) {
            Some(Ordering::Greater)
        } else {
            Some(Ordering::Equal)
        }
    }
}

/// Tells whether a tool's version is older than the least one that is
/// recommended.
pub fn is_outdated(found: Version, minimum: Version) -> (r: bool)
    ensures
        r == found.precedes(minimum),
{
    found < minimum
}

/// The version that a tool reports when asked for it.
///
/// A tool that ended well is read from what it printed, and from what it
/// wrote as errors where that holds no version. A tool that failed is read
/// from what it wrote as errors only.
pub open spec fn reported_version(success: bool, stdout: Seq<u8>, stderr: Seq<u8>) -> Option<
    Version,
> {
    if success && version_in(stdout) is Some {
        version_in(stdout)
    } else {
        version_in(stderr)
    }
}

/// Reads the version of a tool from the outcome of running it with
/// `--version`.
pub fn version_from_output(success: bool, stdout: &str, stderr: &str) -> (r: Option<Version>)
    ensures
        r == reported_version(success, stdout.spec_bytes(), stderr.spec_bytes()),
{
    if success {
        match Version::parse(stdout) {
            Some(v) => { return Some(v); },
            None => {},
        }
    }
    Version::parse(stderr)
}

/// The order of versions is a strict total order: no version comes before
/// itself, of two different versions one comes before the other, and what
/// comes before an earlier version comes before a later one.
pub proof fn lemma_version_order(a: Version, b: Version, c: Version)
    ensures
        !a.precedes(a),
        a != b ==> (a.precedes(b) <==> !b.precedes(a)),
        a.precedes(b) && b.precedes(c) ==> a.precedes(c),
{
}

} // verus!
