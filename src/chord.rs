//! Hotkey chords: a set of modifier keys plus one base key, written like
//! `"Ctrl+Shift+K"` or `"Alt + Space"`.
use vstd::prelude::*;
use vstd::string::*;
use crate::key::{
    classify_key, key_of, key_text, lemma_key_round_trip, matches_word, plain_word,
    valid_key, word_eq, write_key, Key,
};

verus! {

/// The modifier keys of a chord, as a set.
#[derive(Clone, Copy, Debug, PartialEq, Eq, Structural)]
pub struct Modifiers {
    pub alt: bool,
    pub ctrl: bool,
    pub shift: bool,
    pub meta: bool,
}

/// A parsed chord.
#[derive(Clone, Copy, Debug, PartialEq, Eq, Structural)]
pub struct Chord {
    pub mods: Modifiers,
    pub key: Key,
}

/// Why a chord string was rejected.
#[derive(Clone, Copy, Debug, PartialEq, Eq, Structural)]
pub enum ChordError {
    /// A part before the last `+` is not a modifier name.
    UnknownModifier,
    /// The part after the last `+` names no key.
    InvalidKey,
}

pub open spec fn no_mods() -> Modifiers {
    Modifiers { alt: false, ctrl: false, shift: false, meta: false }
}

/// The modifier that a token names: 0 Alt, 1 Ctrl, 2 Shift, 3 Super.
/// `CmdOrCtrl` names Ctrl, as on the platforms other than macOS.
pub open spec fn mod_of(t: Seq<char>) -> Option<u8> {
    if word_eq(t, seq!['A', 'L', 'T']) || word_eq(t, seq!['O', 'P', 'T', 'I', 'O', 'N']) {
        Some(0u8)
    } else if word_eq(t, seq!['C', 'T', 'R', 'L']) || word_eq(
        t,
        seq!['C', 'O', 'N', 'T', 'R', 'O', 'L'],
    ) || word_eq(t, seq!['C', 'M', 'D', 'O', 'R', 'C', 'T', 'R', 'L']) || word_eq(
        t,
        seq!['C', 'O', 'M', 'M', 'A', 'N', 'D', 'O', 'R', 'C', 'O', 'N', 'T', 'R', 'O', 'L'],
    ) {
        Some(1u8)
    } else if word_eq(t, seq!['S', 'H', 'I', 'F', 'T']) {
        Some(2u8)
    } else if word_eq(t, seq!['S', 'U', 'P', 'E', 'R']) || word_eq(t, seq!['M', 'E', 'T', 'A'])
        || word_eq(t, seq!['C', 'M', 'D']) || word_eq(t, seq!['C', 'O', 'M', 'M', 'A', 'N', 'D']) {
        Some(3u8)
    } else {
        None
    }
}

pub open spec fn add_mod(m: Modifiers, k: u8) -> Modifiers {
    if k == 0 {
        Modifiers { alt: true, ..m }
    } else if k == 1 {
        Modifiers { ctrl: true, ..m }
    } else if k == 2 {
        Modifiers { shift: true, ..m }
    } else {
        Modifiers { meta: true, ..m }
    }
}

/// What reading a chord string left to right has gathered: the modifiers
/// closed by a `+` so far, the open token, and whether every closed token
/// named a modifier. Spaces are skipped.
pub struct ScanState {
    pub mods: Modifiers,
    pub tok: Seq<char>,
    pub ok: bool,
}

pub open spec fn scan(s: Seq<char>) -> ScanState
    decreases s.len(),
{
    if s.len() == 0 {
        ScanState { mods: no_mods(), tok: seq![], ok: true }
    } else {
        let st = scan(s.drop_last());
        if s.last() == ' ' {
            st
        } else if s.last() == '+' {
            match mod_of(st.tok) {
                Some(k) => ScanState { mods: add_mod(st.mods, k), tok: seq![], ok: st.ok },
                None => ScanState { mods: st.mods, tok: seq![], ok: false },
            }
        } else {
            ScanState { tok: st.tok.push(s.last()), ..st }
        }
    }
}

/// The tokens of a chord string: the parts between `+` signs, spaces left
/// out. There is always at least one token.
pub open spec fn tokens(s: Seq<char>) -> Seq<Seq<char>>
    decreases s.len(),
{
    if s.len() == 0 {
        seq![seq![]]
    } else {
        let ts = tokens(s.drop_last());
        if s.last() == ' ' {
            ts
        } else if s.last() == '+' {
            ts.push(seq![])
        } else {
            ts.update(ts.len() - 1, ts.last().push(s.last()))
        }
    }
}

/// Whether every token of `ts` names a modifier.
pub open spec fn all_modifiers(ts: Seq<Seq<char>>) -> bool {
    forall|i: int| 0 <= i < ts.len() ==> #[trigger] mod_of(ts[i]) is Some
}

/// The set of modifiers that the tokens of `ts` name.
pub open spec fn modifiers_of(ts: Seq<Seq<char>>) -> Modifiers
    decreases ts.len(),
{
    if ts.len() == 0 {
        no_mods()
    } else {
        match mod_of(ts.last()) {
            Some(k) => add_mod(modifiers_of(ts.drop_last()), k),
            None => modifiers_of(ts.drop_last()),
        }
    }
}

/// The chord that a string denotes: every token but the last names a
/// modifier and the last names the key; names are matched without regard
/// to case.
pub open spec fn parse_spec(s: Seq<char>) -> Result<Chord, ChordError> {
    let ts = tokens(s);
    if !all_modifiers(ts.drop_last()) {
        Err(ChordError::UnknownModifier)
    } else {
        match key_of(ts.last()) {
            Some(k) => Ok(Chord { mods: modifiers_of(ts.drop_last()), key: k }),
            None => Err(ChordError::InvalidKey),
        }
    }
}

/// Reading a string left to right gathers exactly its tokens: the closed
/// ones as modifiers, the last one as the open token.
pub proof fn lemma_scan_tokens(s: Seq<char>)
    ensures
        tokens(s).len() >= 1,
        scan(s) == (ScanState {
            mods: modifiers_of(tokens(s).drop_last()),
            tok: tokens(s).last(),
            ok: all_modifiers(tokens(s).drop_last()),
        }),
    decreases s.len(),
{
    if s.len() > 0 {
        lemma_scan_tokens(s.drop_last());
        let ts = tokens(s.drop_last());
        if s.last() == '+' {
            assert(ts.push(seq![]).drop_last() == ts);
            assert(all_modifiers(ts) == (all_modifiers(ts.drop_last()) && mod_of(ts.last()) is Some)) by {
                if all_modifiers(ts.drop_last()) && mod_of(ts.last()) is Some {
                    assert forall|i: int| 0 <= i < ts.len() implies #[trigger] mod_of(ts[i]) is Some by {
                        if i < ts.len() - 1 {
                            assert(ts[i] == ts.drop_last()[i]);
                        }
                    }
                }
                if all_modifiers(ts) {
                    assert forall|i: int| 0 <= i < ts.drop_last().len() implies #[trigger] mod_of(
                        ts.drop_last()[i],
                    ) is Some by {
                        assert(ts[i] == ts.drop_last()[i]);
                    }
                    assert(mod_of(ts[ts.len() - 1]) is Some);
                }
            }
        } else if s.last() != ' ' {
            let ts2 = ts.update(ts.len() - 1, ts.last().push(s.last()));
            assert(ts2.drop_last() == ts.drop_last());
        }
    }
}

/// The modifier that token `t` names, if any.
pub fn classify_modifier(t: &Vec<char>) -> (r: Option<u8>)
    ensures
        r == mod_of(t@),
{
    if matches_word(t, &vec!['A', 'L', 'T']) || matches_word(t, &vec!['O', 'P', 'T', 'I', 'O', 'N']) {
        Some(0)
    } else if matches_word(t, &vec!['C', 'T', 'R', 'L']) || matches_word(
        t,
        &vec!['C', 'O', 'N', 'T', 'R', 'O', 'L'],
    ) || matches_word(t, &vec!['C', 'M', 'D', 'O', 'R', 'C', 'T', 'R', 'L']) || matches_word(
        t,
        &vec!['C', 'O', 'M', 'M', 'A', 'N', 'D', 'O', 'R', 'C', 'O', 'N', 'T', 'R', 'O', 'L'],
    ) {
        Some(1)
    } else if matches_word(t, &vec!['S', 'H', 'I', 'F', 'T']) {
        Some(2)
    } else if matches_word(t, &vec!['S', 'U', 'P', 'E', 'R']) || matches_word(
        t,
        &vec!['M', 'E', 'T', 'A'],
    ) || matches_word(t, &vec!['C', 'M', 'D']) || matches_word(
        t,
        &vec!['C', 'O', 'M', 'M', 'A', 'N', 'D'],
    ) {
        Some(3)
    } else {
        None
    }
}

fn add_modifier(m: Modifiers, k: u8) -> (r: Modifiers)
    ensures
        r == add_mod(m, k),
{
    if k == 0 {
        Modifiers { alt: true, ..m }
    } else if k == 1 {
        Modifiers { ctrl: true, ..m }
    } else if k == 2 {
        Modifiers { shift: true, ..m }
    } else {
        Modifiers { meta: true, ..m }
    }
}

/// Parses a chord string such as `"Alt+S"`, `"ctrl+shift+F5"` or
/// `"Ctrl + Space"`.
pub fn parse_chord(s: &str) -> (r: Result<Chord, ChordError>)
    ensures
        r == parse_spec(s@),
{
    let n = s.unicode_len();
    let mut mods = Modifiers { alt: false, ctrl: false, shift: false, meta: false };
    let mut tok: Vec<char> = Vec::new();
    let mut ok = true;
    let mut i: usize = 0;
    while i < n
        invariant
            n == s@.len(),
            i <= n,
            mods == scan(s@.subrange(0, i as int)).mods,
            tok@ == scan(s@.subrange(0, i as int)).tok,
            ok == scan(s@.subrange(0, i as int)).ok,
        decreases n - i,
    {
        let c = s.get_char(i);
        assert(s@.subrange(0, i + 1).drop_last() == s@.subrange(0, i as int));
        if c == ' ' {
        } else if c == '+' {
            match classify_modifier(&tok) {
                Some(k) => {
                    mods = add_modifier(mods, k);
                },
                None => {
                    ok = false;
                },
            }
            tok = Vec::new();
            assert(tok@ == Seq::<char>::empty());
        } else {
            tok.push(c);
        }
        i = i + 1;
    }
    assert(s@.subrange(0, n as int) == s@);
    proof {
        lemma_scan_tokens(s@);
    }
    if !ok {
        return Err(ChordError::UnknownModifier);
    }
    match classify_key(&tok) {
        Some(k) => Ok(Chord { mods, key: k }),
        None => Err(ChordError::InvalidKey),
    }
}

/// The text of a chord: its modifiers in the order Ctrl, Alt, Shift, Super,
/// each followed by `+`, then the canonical name of its key.
pub open spec fn format_spec(c: Chord) -> Seq<char> {
    (if c.mods.ctrl { seq!['C', 't', 'r', 'l', '+'] } else { seq![] })
        + (if c.mods.alt { seq!['A', 'l', 't', '+'] } else { seq![] })
        + (if c.mods.shift { seq!['S', 'h', 'i', 'f', 't', '+'] } else { seq![] })
        + (if c.mods.meta { seq!['S', 'u', 'p', 'e', 'r', '+'] } else { seq![] })
        + key_text(c.key)
}

/// Writes a chord in its canonical form, e.g. `"Ctrl+Alt+K"` or
/// `"Shift+F12"`.
pub fn format_chord(c: &Chord) -> (r: String)
    ensures
        r@ == format_spec(*c),
{
    let mut out = String::new();
    proof {
        reveal_strlit("Ctrl+");
        reveal_strlit("Alt+");
        reveal_strlit("Shift+");
        reveal_strlit("Super+");
    }
    if c.mods.ctrl {
        out.append("Ctrl+");
    }
    if c.mods.alt {
        out.append("Alt+");
    }
    if c.mods.shift {
        out.append("Shift+");
    }
    if c.mods.meta {
        out.append("Super+");
    }
    write_key(&mut out, c.key);
    assert(out@ =~= format_spec(*c));
    out
}

/// The chord of a string, read off the state that scanning it leaves.
proof fn lemma_parse_by_scan(s: Seq<char>)
    ensures
        parse_spec(s) == (if !scan(s).ok {
            Err(ChordError::UnknownModifier)
        } else {
            match key_of(scan(s).tok) {
                Some(k) => Ok(Chord { mods: scan(s).mods, key: k }),
                None => Err(ChordError::InvalidKey),
            }
        }),
{
    lemma_scan_tokens(s);
}

/// Reading characters other than `+` and space only extends the open token.
proof fn lemma_scan_word(p: Seq<char>, w: Seq<char>)
    requires
        plain_word(w),
    ensures
        scan(p + w) == (ScanState { tok: scan(p).tok + w, ..scan(p) }),
    decreases w.len(),
{
    if w.len() == 0 {
        assert(p + w == p);
        assert(scan(p).tok + w == scan(p).tok);
    } else {
        lemma_scan_word(p, w.drop_last());
        assert((p + w).drop_last() == p + w.drop_last());
        assert(scan(p).tok + w == (scan(p).tok + w.drop_last()).push(w.last()));
    }
}

/// A modifier name closed by `+` adds its modifier and empties the token.
proof fn lemma_scan_modifier(p: Seq<char>, w: Seq<char>, k: u8)
    requires
        plain_word(w),
        scan(p).tok == Seq::<char>::empty(),
        mod_of(w) == Some(k),
    ensures
        scan(p + w.push('+')) == (ScanState {
            mods: add_mod(scan(p).mods, k),
            tok: seq![],
            ok: scan(p).ok,
        }),
{
    lemma_scan_word(p, w);
    assert((p + w.push('+')).drop_last() == p + w);
    assert(scan(p).tok + w == w);
}

proof fn lemma_segment(p: Seq<char>, present: bool, w: Seq<char>, k: u8) -> (q: Seq<char>)
    requires
        plain_word(w),
        scan(p).tok == Seq::<char>::empty(),
        mod_of(w) == Some(k),
    ensures
        q == p + (if present { w.push('+') } else { seq![] }),
        scan(q) == (ScanState {
            mods: if present { add_mod(scan(p).mods, k) } else { scan(p).mods },
            tok: seq![],
            ok: scan(p).ok,
        }),
{
    if present {
        lemma_scan_modifier(p, w, k);
        p + w.push('+')
    } else {
        assert(p + seq![] == p);
        p
    }
}

/// The canonical modifier names read back as their modifiers.
proof fn lemma_modifier_names()
    ensures
        mod_of(seq!['C', 't', 'r', 'l']) == Some(1u8),
        mod_of(seq!['A', 'l', 't']) == Some(0u8),
        mod_of(seq!['S', 'h', 'i', 'f', 't']) == Some(2u8),
        mod_of(seq!['S', 'u', 'p', 'e', 'r']) == Some(3u8),
        plain_word(seq!['C', 't', 'r', 'l']),
        plain_word(seq!['A', 'l', 't']),
        plain_word(seq!['S', 'h', 'i', 'f', 't']),
        plain_word(seq!['S', 'u', 'p', 'e', 'r']),
{
    let ctrl = seq!['C', 't', 'r', 'l'];
    let alt = seq!['A', 'l', 't'];
    let shift = seq!['S', 'h', 'i', 'f', 't'];
    let sup = seq!['S', 'u', 'p', 'e', 'r'];
    assert(ctrl[0] == ctrl[0] && ctrl[1] == ctrl[1] && ctrl[2] == ctrl[2] && ctrl[3] == ctrl[3]);
    assert(alt[0] == alt[0] && alt[1] == alt[1] && alt[2] == alt[2]);
    assert(shift[0] == shift[0] && shift[1] == shift[1] && shift[2] == shift[2] && shift[3]
        == shift[3] && shift[4] == shift[4]);
    assert(sup[0] == sup[0] && sup[1] == sup[1] && sup[2] == sup[2] && sup[3] == sup[3] && sup[4]
        == sup[4]);
}

/// Formatting a chord and parsing the text gives back the same chord: the
/// same modifier set and the same key.
pub proof fn lemma_format_parse_round_trip(c: Chord)
    requires
        valid_key(c.key),
    ensures
        parse_spec(format_spec(c)) == Ok::<Chord, ChordError>(c),
{
    let ctrl = seq!['C', 't', 'r', 'l'];
    let alt = seq!['A', 'l', 't'];
    let shift = seq!['S', 'h', 'i', 'f', 't'];
    let sup = seq!['S', 'u', 'p', 'e', 'r'];
    lemma_modifier_names();
    let p0 = Seq::<char>::empty();
    assert(scan(p0).tok == Seq::<char>::empty());
    let p1 = lemma_segment(p0, c.mods.ctrl, ctrl, 1);
    let p2 = lemma_segment(p1, c.mods.alt, alt, 0);
    let p3 = lemma_segment(p2, c.mods.shift, shift, 2);
    let p4 = lemma_segment(p3, c.mods.meta, sup, 3);
    let kt = key_text(c.key);
    assert(seq!['C', 't', 'r', 'l', '+'] == ctrl.push('+'));
    assert(seq!['A', 'l', 't', '+'] == alt.push('+'));
    assert(seq!['S', 'h', 'i', 'f', 't', '+'] == shift.push('+'));
    assert(seq!['S', 'u', 'p', 'e', 'r', '+'] == sup.push('+'));
    assert(p0 + (if c.mods.ctrl { ctrl.push('+') } else { seq![] }) == (if c.mods.ctrl {
        ctrl.push('+')
    } else {
        seq![]
    }));
    assert(format_spec(c) == p4 + kt);
    lemma_key_round_trip(c.key);
    lemma_scan_word(p4, kt);
    assert(Seq::<char>::empty() + kt == kt);
    assert(scan(format_spec(c)).tok == kt);
    assert(scan(format_spec(c)).mods == c.mods);
    lemma_parse_by_scan(format_spec(c));
}

/// A parsed chord always has a valid key.
pub proof fn lemma_parsed_key_valid(s: Seq<char>)
    requires
        parse_spec(s) is Ok,
    ensures
        valid_key(parse_spec(s)->Ok_0.key),
{
    lemma_parse_by_scan(s);
    let t = scan(s).tok;
    assert(t[0] == t[0] && t[1] == t[1] && t[2] == t[2]);
}

/// For every chord string that parses, formatting the parsed chord gives a
/// string that parses to the same chord (modifier set and key).
pub proof fn lemma_parse_format_round_trip(s: Seq<char>)
    requires
        parse_spec(s) is Ok,
    ensures
        parse_spec(format_spec(parse_spec(s)->Ok_0)) == parse_spec(s),
{
    lemma_parsed_key_valid(s);
    lemma_format_parse_round_trip(parse_spec(s)->Ok_0);
}

/// Listing two modifiers in the other order denotes the same chord: for any
/// text before them that ends between tokens, and any rest.
pub proof fn lemma_modifier_order_irrelevant(
    p: Seq<char>,
    w1: Seq<char>,
    w2: Seq<char>,
    rest: Seq<char>,
)
    requires
        scan(p).tok == Seq::<char>::empty(),
        plain_word(w1),
        plain_word(w2),
        mod_of(w1) is Some,
        mod_of(w2) is Some,
    ensures
        parse_spec(p + w1.push('+') + w2.push('+') + rest) == parse_spec(
            p + w2.push('+') + w1.push('+') + rest,
        ),
{
    let a = p + w1.push('+');
    let b = p + w2.push('+');
    lemma_scan_modifier(p, w1, mod_of(w1)->0);
    lemma_scan_modifier(p, w2, mod_of(w2)->0);
    lemma_scan_modifier(a, w2, mod_of(w2)->0);
    lemma_scan_modifier(b, w1, mod_of(w1)->0);
    let ab = a + w2.push('+');
    let ba = b + w1.push('+');
    assert(scan(ab) == scan(ba));
    lemma_scan_suffix(ab, ba, rest);
    lemma_parse_by_scan(ab + rest);
    lemma_parse_by_scan(ba + rest);
}

/// Two texts read to the same state stay in the same state under any
/// common continuation.
pub proof fn lemma_scan_suffix(x: Seq<char>, y: Seq<char>, rest: Seq<char>)
    requires
        scan(x) == scan(y),
    ensures
        scan(x + rest) == scan(y + rest),
    decreases rest.len(),
{
    if rest.len() == 0 {
        assert(x + rest == x);
        assert(y + rest == y);
    } else {
        lemma_scan_suffix(x, y, rest.drop_last());
        assert((x + rest).drop_last() == x + rest.drop_last());
        assert((y + rest).drop_last() == y + rest.drop_last());
    }
}

} // verus!
