//! GameCube disc-image metadata: the boot-header fields, decoded from
//! raw bytes with NUL truncation, lossy UTF-8 decoding and trimming, and
//! the helpers around launching an external GameCube emulator.

use vstd::prelude::*;

verus! {

use vstd::string::StringSliceAdditionalSpecFns;
use crate::automation::spec_is_whitespace;
use crate::automation::is_whitespace_char;

/// The characters a byte string decodes to, invalid sequences replaced.
pub uninterp spec fn spec_utf8_lossy(bytes: Seq<u8>) -> Seq<char>;

/// Relies on std's `String::from_utf8_lossy`: the result depends on the
/// bytes alone, and ASCII bytes decode to themselves.
#[verifier::external_body]
fn utf8_lossy(bytes: &[u8]) -> (r: String)
    ensures
        r@ == spec_utf8_lossy(bytes@),
        (forall|i: int| 0 <= i < bytes@.len() ==> bytes@[i] < 0x80) ==> r@ == Seq::new(
            bytes@.len(),
            |i: int| bytes@[i] as char,
        ),
{
    String::from_utf8_lossy(bytes).into_owned()
}

/// The prefix before the first NUL byte.
pub open spec fn spec_nul_prefix(s: Seq<u8>) -> Seq<u8>
    decreases s.len(),
{
    if s.len() == 0 {
        s
    } else if s[0] == 0 {
        Seq::<u8>::empty()
    } else {
        seq![s[0]] + spec_nul_prefix(s.subrange(1, s.len() as int))
    }
}

/// The NUL prefix is the subrange up to the first NUL.
pub proof fn lemma_nul_prefix_is_subrange(s: Seq<u8>, p: int)
    requires
        0 <= p <= s.len(),
        forall|j: int| 0 <= j < p ==> s[j] != 0,
        p < s.len() ==> s[p] == 0,
    ensures
        spec_nul_prefix(s) =~= s.subrange(0, p),
    decreases p,
{
    if s.len() == 0 {
    } else if p == 0 {
    } else {
        let t = s.subrange(1, s.len() as int);
        lemma_nul_prefix_is_subrange(t, p - 1);
        assert(spec_nul_prefix(s) == seq![s[0]] + spec_nul_prefix(t));
        assert(t.subrange(0, p - 1) =~= s.subrange(1, p));
        assert(seq![s[0]] + s.subrange(1, p) =~= s.subrange(0, p));
    }
}

/// The string with leading white space removed.
pub open spec fn spec_trim_start(s: Seq<char>) -> Seq<char>
    decreases s.len(),
{
    if s.len() > 0 && spec_is_whitespace(s[0]) {
        spec_trim_start(s.subrange(1, s.len() as int))
    } else {
        s
    }
}

/// The string with trailing white space removed.
pub open spec fn spec_trim_end(s: Seq<char>) -> Seq<char>
    decreases s.len(),
{
    if s.len() > 0 && spec_is_whitespace(s.last()) {
        spec_trim_end(s.subrange(0, s.len() - 1))
    } else {
        s
    }
}

/// The string with both ends trimmed of white space.
pub open spec fn spec_trim(s: Seq<char>) -> Seq<char> {
    spec_trim_end(spec_trim_start(s))
}

pub proof fn lemma_trim_start_at(s: Seq<char>, a: int)
    requires
        0 <= a <= s.len(),
        forall|j: int| 0 <= j < a ==> spec_is_whitespace(#[trigger] s[j]),
        a < s.len() ==> !spec_is_whitespace(s[a]),
    ensures
        spec_trim_start(s) =~= s.subrange(a, s.len() as int),
    decreases a,
{
    if a == 0 {
        assert(s.subrange(0, s.len() as int) =~= s);
    } else {
        let t = s.subrange(1, s.len() as int);
        lemma_trim_start_at(t, a - 1);
        assert(t.subrange(a - 1, t.len() as int) =~= s.subrange(a, s.len() as int));
    }
}

pub proof fn lemma_trim_end_at(s: Seq<char>, b: int)
    requires
        0 <= b <= s.len(),
        forall|j: int| b <= j < s.len() ==> spec_is_whitespace(#[trigger] s[j]),
        b > 0 ==> !spec_is_whitespace(s[b - 1]),
    ensures
        spec_trim_end(s) =~= s.subrange(0, b),
    decreases s.len() - b,
{
    if b == s.len() {
        assert(s.subrange(0, b) =~= s);
    } else {
        let t = s.subrange(0, s.len() - 1);
        lemma_trim_end_at(t, b);
        assert(t.subrange(0, b) =~= s.subrange(0, b));
    }
}

/// Trims white space from both ends of a string.
pub fn trim_str(s: &str) -> (r: String)
    ensures
        r@ == spec_trim(s@),
{
    let n = s.unicode_len();
    let mut a: usize = 0;
    while a < n && is_whitespace_char(s.get_char(a))
        invariant
            a <= n,
            n == s@.len(),
            forall|j: int| 0 <= j < a ==> spec_is_whitespace(#[trigger] s@[j]),
        decreases n - a,
    {
        a = a + 1;
    }
    let mut b: usize = n;
    while b > a && is_whitespace_char(s.get_char(b - 1))
        invariant
            a <= b <= n,
            n == s@.len(),
            forall|j: int| 0 <= j < a ==> spec_is_whitespace(#[trigger] s@[j]),
            a < n ==> !spec_is_whitespace(s@[a as int]),
            forall|j: int| b <= j < n ==> spec_is_whitespace(#[trigger] s@[j]),
        decreases b,
    {
        b = b - 1;
    }
    proof {
        lemma_trim_start_at(s@, a as int);
        let t = s@.subrange(a as int, n as int);
        assert forall|j: int| b - a <= j < t.len() implies spec_is_whitespace(
            #[trigger] t[j],
        ) by {
            assert(t[j] == s@[j + a]);
        }
        if b > a {
            assert(t[b - a - 1] == s@[b - 1]);
        }
        lemma_trim_end_at(t, b - a);
        assert(t.subrange(0, b - a) =~= s@.subrange(a as int, b as int));
    }
    s.substring_char(a, b).to_owned()
}

/// A byte field decoded the way the boot header is read: cut at the
/// first NUL, decoded lossily, trimmed.
pub open spec fn spec_decoded(bytes: Seq<u8>) -> Seq<char> {
    spec_trim(spec_utf8_lossy(spec_nul_prefix(bytes)))
}

/// Decodes a header field: the bytes before the first NUL, decoded
/// lossily and trimmed of white space.
pub fn decode_ascii(slice: &[u8]) -> (r: String)
    ensures
        r@ == spec_decoded(slice@),
{
    let n = slice.len();
    let mut p: usize = 0;
    while p < n && slice[p] != 0
        invariant
            p <= n,
            n == slice@.len(),
            forall|j: int| 0 <= j < p ==> slice@[j] != 0,
        decreases n - p,
    {
        p = p + 1;
    }
    proof {
        lemma_nul_prefix_is_subrange(slice@, p as int);
    }
    let prefix = utf8_lossy(&slice[0..p]);
    trim_str(prefix.as_str())
}

#[derive(Clone, Copy, Debug, PartialEq, Eq, Structural)]
pub enum MetaError {
    /// The image is shorter than the boot header.
    MissingBootHeader,
}

impl MetaError {
    pub fn message(&self) -> (r: &'static str)
        ensures
            r@ == "GameCube image is missing the boot header"@,
    {
        "GameCube image is missing the boot header"
    }
}

/// The identifying fields of a GameCube disc image's boot header.
#[derive(Clone, Debug)]
pub struct GamecubeMetadata {
    pub game_code: String,
    pub maker_code: String,
    pub disc_number: u8,
    pub version: u8,
    pub streaming: bool,
    pub title: String,
}

impl GamecubeMetadata {
    /// Reads the boot header: exactly the images holding at least the
    /// 0x60-byte header parse, and every field comes from its documented
    /// offset, text fields NUL-cut, decoded and trimmed; an empty title
    /// falls back to a placeholder.
    pub fn parse(bytes: &[u8]) -> (r: Result<GamecubeMetadata, MetaError>)
        ensures
            bytes@.len() < 0x60 ==> r == Err::<GamecubeMetadata, MetaError>(
                MetaError::MissingBootHeader,
            ),
            bytes@.len() >= 0x60 ==> (r matches Ok(m) && {
                let title_end = if bytes@.len() < 0xA0 {
                    bytes@.len() as int
                } else {
                    0xA0
                };
                let raw_title = spec_decoded(bytes@.subrange(0x20, title_end));
                &&& m.game_code@ == spec_decoded(bytes@.subrange(0, 4))
                &&& m.maker_code@ == spec_decoded(bytes@.subrange(4, 6))
                &&& m.disc_number == bytes@[6]
                &&& m.version == bytes@[7]
                &&& m.streaming == (bytes@[8] != 0)
                &&& m.title@ == (if raw_title.len() == 0 {
                    "Unknown Title"@
                } else {
                    raw_title
                })
            }),
    {
        let n = bytes.len();
        if n < 0x60 {
            return Err(MetaError::MissingBootHeader);
        }
        let game_code = decode_ascii(&bytes[0..4]);
        let maker_code = decode_ascii(&bytes[4..6]);
        let disc_number = bytes[6];
        let version = bytes[7];
        let streaming = bytes[8] != 0;
        let title_end = if n < 0xA0 {
            n
        } else {
            0xA0
        };
        let raw_title = decode_ascii(&bytes[0x20..title_end]);
        let title = if raw_title.as_str().unicode_len() == 0 {
            String::from_str("Unknown Title")
        } else {
            raw_title
        };
        Ok(GamecubeMetadata { game_code, maker_code, disc_number, version, streaming, title })
    }
}

/// Cuts a text to at most `max_chars` characters; a cut is marked by
/// three dots that count against the limit.
pub fn shorten_text(input: &str, max_chars: usize) -> (r: String)
    ensures
        input@.len() <= max_chars ==> r@ == input@,
        input@.len() > max_chars ==> r@ == input@.subrange(
            0,
            crate::launcher::spec_sat_sub(max_chars as nat, 3) as int,
        ) + "..."@,
{
    let n = input.unicode_len();
    if n <= max_chars {
        return input.to_owned();
    }
    let keep = if max_chars >= 3 {
        max_chars - 3
    } else {
        0
    };
    let mut r = input.substring_char(0, keep).to_owned();
    r.append("...");
    r
}

/// Whether a byte string contains the lower-cased marker of the
/// GUI-less binary.
pub open spec fn spec_contains_nogui(s: Seq<u8>) -> bool {
    exists|i: int| 0 <= i && i + 5 <= s.len() && #[trigger] s.subrange(i, i + 5) =~= "nogui".spec_bytes()
}

/// The binary names probed, in order, when looking for an external
/// GameCube emulator on the search path.
pub fn dolphin_candidate_bins() -> (r: Vec<&'static str>)
    ensures
        r@.len() == 5,
        r@[0]@ == "dolphin-emu-nogui"@,
        r@[1]@ == "dolphin-emu"@,
        r@[2]@ == "dolphin"@,
        r@[3]@ == "Dolphin"@,
        r@[4]@ == "Dolphin.exe"@,
{
    let mut r: Vec<&'static str> = Vec::new();
    r.push("dolphin-emu-nogui");
    r.push("dolphin-emu");
    r.push("dolphin");
    r.push("Dolphin");
    r.push("Dolphin.exe");
    r
}

/// Whether an external GameCube emulator binary accepts the batch flag:
/// every binary does, except one whose (case-folded) file name marks it
/// as GUI-less; an unreadable name is assumed to accept it.
pub fn dolphin_supports_batch(file_name: Option<&str>) -> (r: bool)
    ensures
        file_name is None ==> r,
        file_name matches Some(name) ==> r == !spec_contains_nogui(
            crate::systems::spec_lower_bytes(name.spec_bytes()),
        ),
{
    let name = match file_name {
        None => {
            return true;
        },
        Some(name) => name,
    };
    let lower = crate::systems::lower_bytes(name.as_bytes());
    let pattern = "nogui".as_bytes();
    proof {
        reveal_strlit("nogui");
        broadcast use vstd::string::is_ascii_spec_bytes;

        assert(vstd::string::is_ascii("nogui"));
        assert(pattern@.len() == 5);
    }
    let n = lower.len();
    if n < 5 {
        proof {
            assert(!spec_contains_nogui(lower@));
        }
        return true;
    }
    let mut i: usize = 0;
    while i <= n - 5
        invariant
            file_name == Some(name),
            lower@ == crate::systems::spec_lower_bytes(name.spec_bytes()),
            n == lower@.len(),
            n >= 5,
            i <= n - 5 + 1,
            pattern@ == "nogui".spec_bytes(),
            pattern@.len() == 5,
            forall|k: int| 0 <= k < i ==> !(#[trigger] lower@.subrange(k, k + 5) =~= "nogui".spec_bytes()),
        decreases n - i,
    {
        let mut matched = true;
        let mut k: usize = 0;
        while k < 5
            invariant
                k <= 5,
                i + 5 <= n,
                n == lower@.len(),
                pattern@ == "nogui".spec_bytes(),
                pattern@.len() == 5,
                matched == (forall|j: int|
                    0 <= j < k ==> lower@[i + j] == #[trigger] pattern@[j]),
            decreases 5 - k,
        {
            if lower[i + k] != pattern[k] {
                matched = false;
                proof {
                    assert(lower@[i + k] != pattern@[k as int]);
                }
            }
            k = k + 1;
        }
        if matched {
            proof {
                assert(lower@.subrange(i as int, i + 5) =~= "nogui".spec_bytes()) by {
                    assert forall|j: int|
                        0 <= j < 5 implies lower@.subrange(i as int, i + 5)[j] == "nogui".spec_bytes()[j] by {
                        assert(lower@.subrange(i as int, i + 5)[j] == lower@[i + j]);
                    }
                }
            }
            return false;
        }
        i = i + 1;
    }
    proof {
        assert forall|k: int| 0 <= k && k + 5 <= n implies !(#[trigger] lower@.subrange(k, k + 5)
            =~= "nogui".spec_bytes()) by {}
    }
    true
}

} // verus!
