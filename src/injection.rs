//! The text injection engine: turns text into synthetic key events and
//! judges what the operating system reported back.
use vstd::prelude::*;
use vstd::string::*;

verus! {

/// One synthetic keyboard event carrying a UTF-16 code unit.
#[derive(Clone, Copy, Debug, PartialEq, Eq, Structural)]
pub struct InjectionUnit {
    pub code: u16,
    /// True for the release half of a press/release pair.
    pub key_up: bool,
    /// True for literal character injection, false for virtual-key injection.
    pub unicode: bool,
}

/// Why an injection did not fully happen.
#[derive(Clone, Copy, Debug, PartialEq, Eq, Structural)]
pub enum InjectionError {
    /// This platform has no injection backend.
    Unsupported,
    /// The system accepted fewer events than were submitted.
    Partial { accepted: usize, expected: usize },
}

/// The UTF-16 code units of one character.
pub open spec fn utf16_of_char(c: char) -> Seq<u16> {
    let v = c as u32;
    if v < 0x10000 {
        seq![v as u16]
    } else {
        let w = (v - 0x10000) as u32;
        seq![(0xD800 + w / 0x400) as u16, (0xDC00 + w % 0x400) as u16]
    }
}

/// The UTF-16 code units of a character sequence, in source order.
pub open spec fn utf16_of(s: Seq<char>) -> Seq<u16>
    decreases s.len(),
{
    if s.len() == 0 {
        seq![]
    } else {
        utf16_of(s.drop_last()) + utf16_of_char(s.last())
    }
}

/// The press and release events for one code unit.
pub open spec fn unit_pair(u: u16) -> Seq<InjectionUnit> {
    seq![
        InjectionUnit { code: u, key_up: false, unicode: true },
        InjectionUnit { code: u, key_up: true, unicode: true },
    ]
}

/// The event stream for a sequence of code units.
pub open spec fn units_of_codes(us: Seq<u16>) -> Seq<InjectionUnit>
    decreases us.len(),
{
    if us.len() == 0 {
        seq![]
    } else {
        units_of_codes(us.drop_last()) + unit_pair(us.last())
    }
}

/// The event stream for a text.
pub open spec fn units_of(s: Seq<char>) -> Seq<InjectionUnit> {
    units_of_codes(utf16_of(s))
}

/// The stream for code units is twice as long, and event `2i` presses and
/// event `2i + 1` releases code unit `i`.
pub proof fn lemma_units_of_codes(us: Seq<u16>)
    ensures
        units_of_codes(us).len() == 2 * us.len(),
        forall|i: int|
            0 <= i < us.len() ==> #[trigger] units_of_codes(us)[2 * i] == (InjectionUnit {
                code: us[i],
                key_up: false,
                unicode: true,
            }) && units_of_codes(us)[2 * i + 1] == (InjectionUnit {
                code: us[i],
                key_up: true,
                unicode: true,
            }),
    decreases us.len(),
{
    if us.len() > 0 {
        lemma_units_of_codes(us.drop_last());
        assert forall|i: int| 0 <= i < us.len() implies #[trigger] units_of_codes(us)[2 * i]
            == (InjectionUnit { code: us[i], key_up: false, unicode: true }) && units_of_codes(
            us,
        )[2 * i + 1] == (InjectionUnit { code: us[i], key_up: true, unicode: true }) by {
            if i < us.len() - 1 {
                assert(us.drop_last()[i] == us[i]);
            }
        }
    }
}

/// For every text, the event stream has two events per UTF-16 code unit, and
/// events `2i` and `2i + 1` are the press and the release of code unit `i`.
pub proof fn lemma_units_pair_up(s: Seq<char>)
    ensures
        units_of(s).len() == 2 * utf16_of(s).len(),
        forall|i: int|
            0 <= i < utf16_of(s).len() ==> {
                &&& #[trigger] units_of(s)[2 * i].code == utf16_of(s)[i]
                &&& units_of(s)[2 * i + 1].code == utf16_of(s)[i]
                &&& !units_of(s)[2 * i].key_up
                &&& units_of(s)[2 * i + 1].key_up
            },
{
    lemma_units_of_codes(utf16_of(s));
}

/// Appends the code units of one character, in order.
pub fn encode_char_utf16(c: char, out: &mut Vec<u16>)
    ensures
        final(out)@ == old(out)@ + utf16_of_char(c),
{
    let v = c as u32;
    if v < 0x10000 {
        out.push(v as u16);
    } else {
        let w: u32 = v - 0x10000;
        out.push((0xD800 + w / 0x400) as u16);
        out.push((0xDC00 + w % 0x400) as u16);
    }
}

/// The UTF-16 code units of `text`, in source order.
pub fn encode_utf16(text: &str) -> (r: Vec<u16>)
    ensures
        r@ == utf16_of(text@),
{
    let n = text.unicode_len();
    let mut out: Vec<u16> = Vec::new();
    let mut i: usize = 0;
    while i < n
        invariant
            n == text@.len(),
            i <= n,
            out@ == utf16_of(text@.subrange(0, i as int)),
        decreases n - i,
    {
        let c = text.get_char(i);
        encode_char_utf16(c, &mut out);
        assert(text@.subrange(0, i + 1).drop_last() == text@.subrange(0, i as int));
        i = i + 1;
    }
    assert(text@.subrange(0, n as int) == text@);
    out
}

/// The press/release event stream for `text`: for each UTF-16 code unit in
/// order, a unicode press followed by a unicode release.
pub fn injection_units(text: &str) -> (r: Vec<InjectionUnit>)
    ensures
        r@ == units_of(text@),
        r@.len() == 2 * utf16_of(text@).len(),
{
    let codes = encode_utf16(text);
    let mut out: Vec<InjectionUnit> = Vec::new();
    let mut i: usize = 0;
    proof {
        lemma_units_of_codes(codes@);
    }
    while i < codes.len()
        invariant
            i <= codes@.len(),
            codes@.len() * 2 == units_of_codes(codes@).len(),
            out@ == units_of_codes(codes@.subrange(0, i as int)),
        decreases codes.len() - i,
    {
        let u = codes[i];
        out.push(InjectionUnit { code: u, key_up: false, unicode: true });
        out.push(InjectionUnit { code: u, key_up: true, unicode: true });
        assert(codes@.subrange(0, i + 1).drop_last() == codes@.subrange(0, i as int));
        i = i + 1;
    }
    assert(codes@.subrange(0, codes@.len() as int) == codes@);
    out
}

/// The outcome of a delivery in which the system accepted `accepted` of the
/// `expected` events: success exactly when they agree.
pub open spec fn delivery_spec(accepted: usize, expected: usize) -> Result<(), InjectionError> {
    if accepted == expected {
        Ok(())
    } else {
        Err(InjectionError::Partial { accepted, expected })
    }
}

/// Judges the count that the system reported for one batch submission.
pub fn delivery_outcome(accepted: usize, expected: usize) -> (r: Result<(), InjectionError>)
    ensures
        r == delivery_spec(accepted, expected),
{
    if accepted == expected {
        Ok(())
    } else {
        Err(InjectionError::Partial { accepted, expected })
    }
}

/// The text injection backends.
#[derive(Clone, Copy, Debug, PartialEq, Eq, Structural)]
pub enum TextInjector {
    /// Injects through the host's batch synthetic-input call.
    SendInput,
    /// No backend on this platform.
    Unsupported,
}

/// What to submit to the system for `text`: the event stream, or
/// `Unsupported` without any system call on a platform with no backend.
/// An empty stream means nothing is to be submitted.
pub fn plan_injection(injector: TextInjector, text: &str) -> (r: Result<
    Vec<InjectionUnit>,
    InjectionError,
>)
    ensures
        injector == TextInjector::Unsupported ==> r == Err::<Vec<InjectionUnit>, InjectionError>(
            InjectionError::Unsupported,
        ),
        injector == TextInjector::SendInput ==> r is Ok && r->Ok_0@ == units_of(text@),
{
    match injector {
        TextInjector::SendInput => Ok(injection_units(text)),
        TextInjector::Unsupported => Err(InjectionError::Unsupported),
    }
}

/// Injecting the empty text submits no events and succeeds.
pub proof fn lemma_empty_text_succeeds(s: Seq<char>)
    requires
        s.len() == 0,
    ensures
        units_of(s).len() == 0,
        delivery_spec(0, units_of(s).len() as usize) == Ok::<(), InjectionError>(()),
{
}

} // verus!
