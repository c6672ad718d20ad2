//! Borrowed Wide-String View: a safe, read-only text view over a
//! host-supplied buffer of 16-bit code units. The host hands down a buffer
//! together with a length expressed in bytes over 16-bit units, so the view
//! covers the first `length / 2` code units; a null buffer yields an empty
//! view instead of an error. The view text itself is held as a
//! `widestring::U16String`, a wide string with no encoding checks, matching
//! the trust placed in host-owned buffers.

use vstd::prelude::*;

verus! {

/// The code units a `widestring::U16String` holds.
pub uninterp spec fn u16_units(s: widestring::U16String) -> Seq<u16>;

/// The UTF-16 lossy decoding of a sequence of code units: invalid sequences
/// are replaced with the replacement character. A function of the code units
/// alone.
pub uninterp spec fn lossy_text(units: Seq<u16>) -> Seq<char>;

#[verifier::external_type_specification]
#[verifier::external_body]
pub struct ExU16String(widestring::U16String);

/// Relies on widestring::U16String::from_vec: the string holds exactly the
/// vector's elements, with no checks on the contents.
#[verifier::external_body]
fn u16_string_from_vec(v: Vec<u16>) -> (r: widestring::U16String)
    ensures
        u16_units(r) == v@,
{
    widestring::U16String::from_vec(v)
}

/// Relies on widestring::U16Str::len: the number of elements the string
/// holds, not a number of bytes.
#[verifier::external_body]
fn u16_string_len(s: &widestring::U16String) -> (r: usize)
    ensures
        r == u16_units(*s).len(),
{
    s.len()
}

/// Relies on widestring::U16Str::to_string_lossy: a UTF-16 decode of the
/// elements alone, with invalid sequences replaced.
#[verifier::external_body]
fn u16_string_lossy(s: &widestring::U16String) -> (r: String)
    ensures
        r@ == lossy_text(u16_units(*s)),
{
    s.to_string_lossy()
}

/// A host-populated counted string: a buffer of 16-bit code units and a
/// length in bytes over those units. Models the raw counted-string record
/// the host passes down at load time, holding as plain values what the
/// driver reads from it.
pub struct RawUnicodeString {
    /// The code units the host's buffer pointer refers to.
    pub buffer: Vec<u16>,
    /// The string length in bytes; the string covers `length / 2` units.
    pub length: u16,
}

impl RawUnicodeString {
    /// How many code units the counted string covers.
    pub open spec fn unit_count(self) -> int {
        self.length as int / 2
    }

    /// The code units the counted string covers.
    pub open spec fn units(self) -> Seq<u16> {
        self.buffer@.take(self.unit_count())
    }

    /// The host guarantees the buffer is valid for the counted length; in
    /// this model, the buffer holds at least `length / 2` units.
    pub open spec fn wf(self) -> bool {
        self.unit_count() <= self.buffer@.len()
    }
}

/// The safe, read-only text view: it never frees or mutates what it covers,
/// and it is only ever constructed from host-supplied counted strings.
pub struct UnicodeStr {
    text: widestring::U16String,
}

impl UnicodeStr {
    /// The code units the view covers.
    pub closed spec fn units(self) -> Seq<u16> {
        u16_units(self.text)
    }

    /// An empty view, covering no code units.
    pub fn empty() -> (r: UnicodeStr)
        ensures
            r.units() == Seq::<u16>::empty(),
            r.units().len() == 0,
    {
        UnicodeStr { text: u16_string_from_vec(Vec::new()) }
    }

    /// The view's code-unit count.
    pub fn code_unit_count(&self) -> (r: usize)
        ensures
            r == self.units().len(),
    {
        u16_string_len(&self.text)
    }

    /// The view's text decoded for the diagnostic sink: UTF-16, with
    /// invalid sequences replaced.
    pub fn display_text(&self) -> (r: String)
        ensures
            r@ == lossy_text(self.units()),
    {
        u16_string_lossy(&self.text)
    }
}

/// Builds the view over the first `length / 2` code units of a host counted
/// string: the view's code-unit count always equals `length / 2`.
pub fn as_unicode_str(s: &RawUnicodeString) -> (r: UnicodeStr)
    requires
        s.wf(),
    ensures
        r.units() == s.units(),
        r.units().len() == s.length as int / 2,
{
    let n: usize = (s.length / 2) as usize;
    let mut v: Vec<u16> = Vec::new();
    let mut i: usize = 0;
    while i < n
        invariant
            i <= n,
            n == s.unit_count(),
            n <= s.buffer@.len(),
            v@ == s.buffer@.take(i as int),
        decreases n - i,
    {
        v.push(s.buffer[i]);
        proof {
            assert(v@ =~= s.buffer@.take(i + 1));
        }
        i = i + 1;
    }
    proof {
        assert(v@ =~= s.units());
    }
    UnicodeStr { text: u16_string_from_vec(v) }
}

/// Builds the view from a possibly-null host counted string: a null source
/// maps to the empty view, never to an error, and a present source is read
/// as `as_unicode_str` reads it.
pub fn ptr_as_unicode_str(s: Option<&RawUnicodeString>) -> (r: UnicodeStr)
    requires
        s matches Some(p) ==> p.wf(),
    ensures
        s is None ==> r.units().len() == 0,
        s matches Some(p) ==> r.units() == p.units() && r.units().len() == p.length as int / 2,
{
    match s {
        None => UnicodeStr::empty(),
        Some(p) => as_unicode_str(p),
    }
}

} // verus!
