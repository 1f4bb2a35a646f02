//! ROM-type detection: which console a game file belongs to, decided by
//! its file extension, compared case-insensitively.

use vstd::prelude::*;

verus! {

use vstd::string::StringSliceAdditionalSpecFns;

#[derive(Clone, Copy, Debug, PartialEq, Eq, Structural, PartialOrd, Ord, Hash)]
pub enum GameSystem {
    GameBoy,
    Nes,
    Snes,
    Nds,
    Ps1,
    N64,
    GameCube,
}

impl GameSystem {
    pub fn label(&self) -> (r: &'static str)
        ensures
            *self is GameBoy ==> r@ == "Game Boy / Color"@,
            *self is Nes ==> r@ == "NES"@,
            *self is Snes ==> r@ == "SNES"@,
            *self is Nds ==> r@ == "Nintendo DS"@,
            *self is Ps1 ==> r@ == "PlayStation"@,
            *self is N64 ==> r@ == "Nintendo 64"@,
            *self is GameCube ==> r@ == "GameCube"@,
    {
        match self {
            GameSystem::GameBoy => "Game Boy / Color",
            GameSystem::Nes => "NES",
            GameSystem::Snes => "SNES",
            GameSystem::Nds => "Nintendo DS",
            GameSystem::Ps1 => "PlayStation",
            GameSystem::N64 => "Nintendo 64",
            GameSystem::GameCube => "GameCube",
        }
    }
}

#[derive(Clone, Copy, Debug, PartialEq, Eq, Structural)]
pub enum DetectError {
    /// The file has no extension at all.
    NoExtension,
    /// The extension matches no supported console.
    Unsupported,
}

impl DetectError {
    pub fn message(&self) -> (r: &'static str)
        ensures
            *self is NoExtension ==> r@ == "file has no extension"@,
            *self is Unsupported ==> r@ == "unsupported ROM extension"@,
    {
        match self {
            DetectError::NoExtension => "file has no extension",
            DetectError::Unsupported => "unsupported ROM extension",
        }
    }
}

/// ASCII lower-casing of one byte.
pub open spec fn spec_lower_byte(b: u8) -> u8 {
    if 0x41 <= b <= 0x5A {
        (b + 32) as u8
    } else {
        b
    }
}

/// ASCII lower-casing of a byte string.
pub open spec fn spec_lower_bytes(s: Seq<u8>) -> Seq<u8> {
    Seq::new(s.len(), |i: int| spec_lower_byte(s[i]))
}

/// The console for a lower-cased extension, if any.
pub open spec fn spec_system_for(ext: Seq<u8>) -> Option<GameSystem> {
    if ext =~= "gb".spec_bytes() || ext =~= "gbc".spec_bytes() {
        Some(GameSystem::GameBoy)
    } else if ext =~= "nes".spec_bytes() {
        Some(GameSystem::Nes)
    } else if ext =~= "sfc".spec_bytes() || ext =~= "smc".spec_bytes() || ext =~= "snes".spec_bytes() {
        Some(GameSystem::Snes)
    } else if ext =~= "nds".spec_bytes() {
        Some(GameSystem::Nds)
    } else if ext =~= "cue".spec_bytes() || ext =~= "exe".spec_bytes() {
        Some(GameSystem::Ps1)
    } else if ext =~= "n64".spec_bytes() || ext =~= "z64".spec_bytes() || ext =~= "v64".spec_bytes() {
        Some(GameSystem::N64)
    } else if ext =~= "iso".spec_bytes() || ext =~= "gcm".spec_bytes() || ext =~= "gcz".spec_bytes() || ext =~= "gcn".spec_bytes() || ext =~= "ciso".spec_bytes() || ext =~= "dol".spec_bytes() || ext =~= "rvz".spec_bytes() {
        Some(GameSystem::GameCube)
    } else {
        None
    }
}

/// Lower-cases a byte string, ASCII-wise.
pub fn lower_bytes(s: &[u8]) -> (r: Vec<u8>)
    ensures
        r@ =~= spec_lower_bytes(s@),
{
    let n = s.len();
    let mut r: Vec<u8> = Vec::new();
    let mut i: usize = 0;
    while i < n
        invariant
            n == s@.len(),
            i <= n,
            r@.len() == i,
            forall|k: int| 0 <= k < i ==> r@[k] == spec_lower_byte(s@[k]),
        decreases n - i,
    {
        let b = s[i];
        if 0x41 <= b && b <= 0x5A {
            r.push(b + 32);
        } else {
            r.push(b);
        }
        i = i + 1;
    }
    r
}

/// Byte-wise equality of a buffer against a literal.
pub fn bytes_eq(a: &Vec<u8>, b: &[u8]) -> (r: bool)
    ensures
        r <==> a@ =~= b@,
{
    if a.len() != b.len() {
        return false;
    }
    let n = a.len();
    let mut i: usize = 0;
    while i < n
        invariant
            n == a@.len() == b@.len(),
            i <= n,
            forall|k: int| 0 <= k < i ==> a@[k] == b@[k],
        decreases n - i,
    {
        if a[i] != b[i] {
            return false;
        }
        i = i + 1;
    }
    true
}

/// Decides the console for a ROM file's extension, lower-cased
/// ASCII-wise; `None` stands for a file with no extension.  Exactly the
/// supported extensions are accepted.
pub fn detect_system(ext: Option<&str>) -> (r: Result<GameSystem, DetectError>)
    ensures
        ext is None ==> r == Err::<GameSystem, DetectError>(DetectError::NoExtension),
        ext matches Some(e) ==> r == (match spec_system_for(spec_lower_bytes(e.spec_bytes())) {
            Some(s) => Ok::<GameSystem, DetectError>(s),
            None => Err::<GameSystem, DetectError>(DetectError::Unsupported),
        }),
{
    let e = match ext {
        None => {
            return Err(DetectError::NoExtension);
        },
        Some(e) => e,
    };
    let lower = lower_bytes(e.as_bytes());
    if bytes_eq(&lower, "gb".as_bytes()) || bytes_eq(&lower, "gbc".as_bytes()) {
        Ok(GameSystem::GameBoy)
    } else if bytes_eq(&lower, "nes".as_bytes()) {
        Ok(GameSystem::Nes)
    } else if bytes_eq(&lower, "sfc".as_bytes()) || bytes_eq(&lower, "smc".as_bytes()) || bytes_eq(&lower, "snes".as_bytes()) {
        Ok(GameSystem::Snes)
    } else if bytes_eq(&lower, "nds".as_bytes()) {
        Ok(GameSystem::Nds)
    } else if bytes_eq(&lower, "cue".as_bytes()) || bytes_eq(&lower, "exe".as_bytes()) {
        Ok(GameSystem::Ps1)
    } else if bytes_eq(&lower, "n64".as_bytes()) || bytes_eq(&lower, "z64".as_bytes()) || bytes_eq(&lower, "v64".as_bytes()) {
        Ok(GameSystem::N64)
    } else if bytes_eq(&lower, "iso".as_bytes()) || bytes_eq(&lower, "gcm".as_bytes()) || bytes_eq(&lower, "gcz".as_bytes())
        || bytes_eq(&lower, "gcn".as_bytes()) || bytes_eq(&lower, "ciso".as_bytes()) || bytes_eq(&lower, "dol".as_bytes())
        || bytes_eq(&lower, "rvz".as_bytes()) {
        Ok(GameSystem::GameCube)
    } else {
        Err(DetectError::Unsupported)
    }
}

} // verus!
