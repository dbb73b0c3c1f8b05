use vstd::prelude::*;

verus! {

/// The longest path, terminating NUL included, that the loader accepts.
pub const MAX_PATH: usize = 260;

/// The system library that this module stands in for.
pub const PROXIED_LIBRARY: &'static str = "dinput8.dll";
/// The export of the proxied library that is forwarded.
pub const PROXIED_EXPORT: &'static str = "DirectInput8Create";
/// The system library that holds the intercepted function.
pub const HOOKED_LIBRARY: &'static str = "xinput1_3.dll";
/// The intercepted export.
pub const HOOKED_EXPORT: &'static str = "XInputGetState";

/// The UTF-16 unit of the path separator.
pub const SEPARATOR: u16 = 0x5c;

/// Whether every character of `s` is ASCII.
pub open spec fn all_ascii(s: Seq<char>) -> bool {
    forall|i: int| 0 <= i < s.len() ==> (s[i] as u32) < 128
}

/// The UTF-16 units of an ASCII text: one unit per character.
pub open spec fn wide_of(s: Seq<char>) -> Seq<u16> {
    Seq::new(s.len(), |i: int| s[i] as u16)
}

/// The bytes of an ASCII text: one byte per character.
pub open spec fn bytes_of(s: Seq<char>) -> Seq<u8> {
    Seq::new(s.len(), |i: int| s[i] as u8)
}

/// Why the path of a system library could not be built.
#[derive(Clone, Copy, PartialEq, Eq, Structural, Debug)]
pub enum PathError {
    /// The system directory lookup gave nothing.
    NoSystemDirectory,
    /// The library's file name is not ASCII.
    NonAsciiName,
    /// The path with its terminating NUL would exceed `MAX_PATH` units.
    TooLong,
}

/// The NUL-terminated path of the file `name` in the directory `dir`.
pub open spec fn library_path_spec(dir: Seq<u16>, name: Seq<char>) -> Seq<u16> {
    dir + seq![SEPARATOR] + wide_of(name) + seq![0u16]
}

/// The NUL-terminated UTF-16 form of the ASCII text `s`, or `None` where `s`
/// holds another character.
pub fn wide_nul(s: &str) -> (r: Option<Vec<u16>>)
    ensures
        r is Some <==> all_ascii(s@),
        r is Some ==> r->0@ == wide_of(s@) + seq![0u16],
{
    let n = s.unicode_len();
    let mut out: Vec<u16> = Vec::new();
    let mut i: usize = 0;
    while i < n
        invariant
            n == s@.len(),
            i <= n,
            out@ == wide_of(s@.subrange(0, i as int)),
            all_ascii(s@.subrange(0, i as int)),
        decreases n - i,
    {
        let c = s.get_char(i);
        if (c as u32) >= 128 {
            assert(s@.subrange(0, n as int) == s@);
            assert(s@[i as int] == c);
            return None;
        }
        out.push(c as u16);
        i = i + 1;
        assert(out@ =~= wide_of(s@.subrange(0, i as int)));
        assert forall|j: int| 0 <= j < i implies (s@.subrange(0, i as int)[j] as u32) < 128 by {
            if j < i - 1 {
                assert(s@.subrange(0, i as int)[j] == s@.subrange(0, i - 1 as int)[j]);
            }
        }
    }
    assert(s@.subrange(0, n as int) == s@);
    out.push(0u16);
    Some(out)
}

/// The NUL-terminated bytes of the ASCII text `s`, or `None` where `s` holds
/// another character.
pub fn ascii_nul(s: &str) -> (r: Option<Vec<u8>>)
    ensures
        r is Some <==> all_ascii(s@),
        r is Some ==> r->0@ == bytes_of(s@) + seq![0u8],
{
    let n = s.unicode_len();
    let mut out: Vec<u8> = Vec::new();
    let mut i: usize = 0;
    while i < n
        invariant
            n == s@.len(),
            i <= n,
            out@ == bytes_of(s@.subrange(0, i as int)),
            all_ascii(s@.subrange(0, i as int)),
        decreases n - i,
    {
        let c = s.get_char(i);
        if (c as u32) >= 128 {
            assert(s@.subrange(0, n as int) == s@);
            assert(s@[i as int] == c);
            return None;
        }
        out.push(c as u8);
        i = i + 1;
        assert(out@ =~= bytes_of(s@.subrange(0, i as int)));
        assert forall|j: int| 0 <= j < i implies (s@.subrange(0, i as int)[j] as u32) < 128 by {
            if j < i - 1 {
                assert(s@.subrange(0, i as int)[j] == s@.subrange(0, i - 1 as int)[j]);
            }
        }
    }
    assert(s@.subrange(0, n as int) == s@);
    out.push(0u8);
    Some(out)
}

/// The NUL-terminated path of the library file `name` inside the system
/// directory `dir` (the units that the directory lookup reported, without a
/// NUL), built by concatenation with one separator between the two.
pub fn library_path(dir: &Vec<u16>, name: &str) -> (r: Result<Vec<u16>, PathError>)
    ensures
        dir@.len() == 0 ==> r == Err::<Vec<u16>, PathError>(PathError::NoSystemDirectory),
        dir@.len() > 0 && !all_ascii(name@) ==> r == Err::<Vec<u16>, PathError>(PathError::NonAsciiName),
        dir@.len() > 0 && all_ascii(name@) && dir@.len() + name@.len() + 2 > MAX_PATH
            ==> r == Err::<Vec<u16>, PathError>(PathError::TooLong),
        dir@.len() > 0 && all_ascii(name@) && dir@.len() + name@.len() + 2 <= MAX_PATH
            ==> r is Ok && r->Ok_0@ == library_path_spec(dir@, name@),
{
    if dir.len() == 0 {
        return Err(PathError::NoSystemDirectory);
    }
    let wide = match wide_nul(name) {
        Some(w) => w,
        None => return Err(PathError::NonAsciiName),
    };
    if dir.len() >= MAX_PATH || wide.len() > MAX_PATH - dir.len() - 1 {
        return Err(PathError::TooLong);
    }
    let mut out: Vec<u16> = Vec::new();
    let mut i: usize = 0;
    while i < dir.len()
        invariant
            i <= dir@.len(),
            out@ == dir@.subrange(0, i as int),
        decreases dir@.len() - i,
    {
        out.push(dir[i]);
        i = i + 1;
        assert(out@ =~= dir@.subrange(0, i as int));
    }
    assert(dir@.subrange(0, dir@.len() as int) == dir@);
    out.push(SEPARATOR);
    let ghost head = out@;
    let mut j: usize = 0;
    while j < wide.len()
        invariant
            j <= wide@.len(),
            out@ == head + wide@.subrange(0, j as int),
        decreases wide@.len() - j,
    {
        out.push(wide[j]);
        j = j + 1;
        assert(out@ =~= head + wide@.subrange(0, j as int));
    }
    assert(wide@.subrange(0, wide@.len() as int) == wide@);
    assert(out@ =~= library_path_spec(dir@, name@));
    Ok(out)
}

} // verus!
