//! The base key of a chord: its names, how they are read and how a key is
//! written back.
use vstd::prelude::*;
use vstd::string::*;

verus! {

/// A key that a chord can bind.
#[derive(Clone, Copy, Debug, PartialEq, Eq, Structural)]
pub enum Key {
    /// A key named by one character: the ASCII code of an upper-case letter,
    /// a digit, or one of `` ` - = [ ] \ ; ' , . / ``.
    Char(u8),
    /// The function key `F1` to `F24`.
    Function(u8),
    Space,
    Enter,
    Tab,
    Escape,
    Backspace,
    Delete,
    Insert,
    Home,
    End,
    PageUp,
    PageDown,
    ArrowUp,
    ArrowDown,
    ArrowLeft,
    ArrowRight,
}

/// The code of `c` with a lower-case ASCII letter taken to upper case.
pub open spec fn fold_case(c: char) -> u32 {
    if 'a' <= c <= 'z' {
        (c as u32 - 32) as u32
    } else {
        c as u32
    }
}

/// Whether `c` is the character `u`, upper case and lower case alike.
pub open spec fn eq_ci(c: char, u: char) -> bool {
    fold_case(c) == u as u32
}

/// Whether `t` spells the upper-case word `w`, ignoring case.
pub open spec fn word_eq(t: Seq<char>, w: Seq<char>) -> bool {
    t.len() == w.len() && forall|i: int| 0 <= i < t.len() ==> eq_ci(#[trigger] t[i], w[i])
}

/// The punctuation characters that name a key by themselves.
pub open spec fn is_punct(c: char) -> bool {
    c == '`' || c == '-' || c == '=' || c == '[' || c == ']' || c == '\\' || c == ';' || c
        == '\'' || c == ',' || c == '.' || c == '/'
}

/// Whether `c` names a key by itself in its canonical form.
pub open spec fn is_key_char(c: char) -> bool {
    ('A' <= c <= 'Z') || ('0' <= c <= '9') || is_punct(c)
}

/// The function key number that `t` names (`F1` to `F24`, either case).
pub open spec fn function_of(t: Seq<char>) -> Option<u8> {
    if t.len() == 2 && eq_ci(t[0], 'F') && '1' <= t[1] <= '9' {
        Some((t[1] as u32 - 48) as u8)
    } else if t.len() == 3 && eq_ci(t[0], 'F') && '1' <= t[1] <= '2' && '0' <= t[2] <= '9' && 10
        * (t[1] as u32 - 48) + (t[2] as u32 - 48) <= 24 {
        Some((10 * (t[1] as u32 - 48) + (t[2] as u32 - 48)) as u8)
    } else {
        None
    }
}

/// The named key that `t` spells, ignoring case.
pub open spec fn named_key_of(t: Seq<char>) -> Option<Key> {
    if word_eq(t, seq!['S', 'P', 'A', 'C', 'E']) {
        Some(Key::Space)
    } else if word_eq(t, seq!['E', 'N', 'T', 'E', 'R']) {
        Some(Key::Enter)
    } else if word_eq(t, seq!['T', 'A', 'B']) {
        Some(Key::Tab)
    } else if word_eq(t, seq!['E', 'S', 'C', 'A', 'P', 'E']) || word_eq(t, seq!['E', 'S', 'C']) {
        Some(Key::Escape)
    } else if word_eq(t, seq!['B', 'A', 'C', 'K', 'S', 'P', 'A', 'C', 'E']) {
        Some(Key::Backspace)
    } else if word_eq(t, seq!['D', 'E', 'L', 'E', 'T', 'E']) {
        Some(Key::Delete)
    } else if word_eq(t, seq!['I', 'N', 'S', 'E', 'R', 'T']) {
        Some(Key::Insert)
    } else if word_eq(t, seq!['H', 'O', 'M', 'E']) {
        Some(Key::Home)
    } else if word_eq(t, seq!['E', 'N', 'D']) {
        Some(Key::End)
    } else if word_eq(t, seq!['P', 'A', 'G', 'E', 'U', 'P']) {
        Some(Key::PageUp)
    } else if word_eq(t, seq!['P', 'A', 'G', 'E', 'D', 'O', 'W', 'N']) {
        Some(Key::PageDown)
    } else if word_eq(t, seq!['A', 'R', 'R', 'O', 'W', 'U', 'P']) || word_eq(t, seq!['U', 'P']) {
        Some(Key::ArrowUp)
    } else if word_eq(t, seq!['A', 'R', 'R', 'O', 'W', 'D', 'O', 'W', 'N']) || word_eq(
        t,
        seq!['D', 'O', 'W', 'N'],
    ) {
        Some(Key::ArrowDown)
    } else if word_eq(t, seq!['A', 'R', 'R', 'O', 'W', 'L', 'E', 'F', 'T']) || word_eq(
        t,
        seq!['L', 'E', 'F', 'T'],
    ) {
        Some(Key::ArrowLeft)
    } else if word_eq(t, seq!['A', 'R', 'R', 'O', 'W', 'R', 'I', 'G', 'H', 'T']) || word_eq(
        t,
        seq!['R', 'I', 'G', 'H', 'T'],
    ) {
        Some(Key::ArrowRight)
    } else {
        None
    }
}

/// The key that token `t` names: one character (a letter in either case),
/// a function key, or a key name in either case.
pub open spec fn key_of(t: Seq<char>) -> Option<Key> {
    if t.len() == 1 && 'a' <= t[0] <= 'z' {
        Some(Key::Char((t[0] as u32 - 32) as u8))
    } else if t.len() == 1 && is_key_char(t[0]) {
        Some(Key::Char(t[0] as u8))
    } else if function_of(t) is Some {
        Some(Key::Function(function_of(t)->0))
    } else {
        named_key_of(t)
    }
}

/// Whether `k` is a key in canonical form.
pub open spec fn valid_key(k: Key) -> bool {
    match k {
        Key::Char(c) => is_key_char(c as char),
        Key::Function(n) => 1 <= n <= 24,
        _ => true,
    }
}

/// The canonical text of a key.
pub open spec fn key_text(k: Key) -> Seq<char> {
    match k {
        Key::Char(c) => seq![c as char],
        Key::Function(n) => if n < 10 {
            seq!['F', (n + 48) as char]
        } else {
            seq!['F', (n / 10 + 48) as char, (n % 10 + 48) as char]
        },
        Key::Space => seq!['S', 'p', 'a', 'c', 'e'],
        Key::Enter => seq!['E', 'n', 't', 'e', 'r'],
        Key::Tab => seq!['T', 'a', 'b'],
        Key::Escape => seq!['E', 's', 'c', 'a', 'p', 'e'],
        Key::Backspace => seq!['B', 'a', 'c', 'k', 's', 'p', 'a', 'c', 'e'],
        Key::Delete => seq!['D', 'e', 'l', 'e', 't', 'e'],
        Key::Insert => seq!['I', 'n', 's', 'e', 'r', 't'],
        Key::Home => seq!['H', 'o', 'm', 'e'],
        Key::End => seq!['E', 'n', 'd'],
        Key::PageUp => seq!['P', 'a', 'g', 'e', 'U', 'p'],
        Key::PageDown => seq!['P', 'a', 'g', 'e', 'D', 'o', 'w', 'n'],
        Key::ArrowUp => seq!['A', 'r', 'r', 'o', 'w', 'U', 'p'],
        Key::ArrowDown => seq!['A', 'r', 'r', 'o', 'w', 'D', 'o', 'w', 'n'],
        Key::ArrowLeft => seq!['A', 'r', 'r', 'o', 'w', 'L', 'e', 'f', 't'],
        Key::ArrowRight => seq!['A', 'r', 'r', 'o', 'w', 'R', 'i', 'g', 'h', 't'],
    }
}

fn fold_case_exec(c: char) -> (r: u32)
    ensures
        r == fold_case(c),
{
    if 'a' <= c && c <= 'z' {
        c as u32 - 32
    } else {
        c as u32
    }
}

/// Whether token `t` spells word `w`, ignoring case.
pub(crate) fn matches_word(t: &Vec<char>, w: &Vec<char>) -> (r: bool)
    ensures
        r == word_eq(t@, w@),
{
    if t.len() != w.len() {
        return false;
    }
    let mut i: usize = 0;
    while i < t.len()
        invariant
            t@.len() == w@.len(),
            i <= t@.len(),
            forall|j: int| 0 <= j < i ==> eq_ci(#[trigger] t@[j], w@[j]),
        decreases t.len() - i,
    {
        let c = t[i];
        let u = w[i];
        if fold_case_exec(c) != u as u32 {
            return false;
        }
        i = i + 1;
    }
    true
}

fn is_punct_exec(c: char) -> (r: bool)
    ensures
        r == is_punct(c),
{
    c == '`' || c == '-' || c == '=' || c == '[' || c == ']' || c == '\\' || c == ';' || c == '\''
        || c == ',' || c == '.' || c == '/'
}

fn classify_function(t: &Vec<char>) -> (r: Option<u8>)
    ensures
        r == function_of(t@),
{
    if t.len() < 2 || fold_case_exec(t[0]) != 'F' as u32 {
        return None;
    }
    if t.len() == 2 && '1' <= t[1] && t[1] <= '9' {
        Some((t[1] as u32 - 48) as u8)
    } else if t.len() == 3 && '1' <= t[1] && t[1] <= '2' && '0'
        <= t[2] && t[2] <= '9' {
        let n: u32 = 10 * (t[1] as u32 - 48) + (t[2] as u32 - 48);
        if n <= 24 {
            Some(n as u8)
        } else {
            None
        }
    } else {
        None
    }
}

fn classify_named(t: &Vec<char>) -> (r: Option<Key>)
    ensures
        r == named_key_of(t@),
{
    if matches_word(t, &vec!['S', 'P', 'A', 'C', 'E']) {
        Some(Key::Space)
    } else if matches_word(t, &vec!['E', 'N', 'T', 'E', 'R']) {
        Some(Key::Enter)
    } else if matches_word(t, &vec!['T', 'A', 'B']) {
        Some(Key::Tab)
    } else if matches_word(t, &vec!['E', 'S', 'C', 'A', 'P', 'E']) || matches_word(
        t,
        &vec!['E', 'S', 'C'],
    ) {
        Some(Key::Escape)
    } else if matches_word(t, &vec!['B', 'A', 'C', 'K', 'S', 'P', 'A', 'C', 'E']) {
        Some(Key::Backspace)
    } else if matches_word(t, &vec!['D', 'E', 'L', 'E', 'T', 'E']) {
        Some(Key::Delete)
    } else if matches_word(t, &vec!['I', 'N', 'S', 'E', 'R', 'T']) {
        Some(Key::Insert)
    } else if matches_word(t, &vec!['H', 'O', 'M', 'E']) {
        Some(Key::Home)
    } else if matches_word(t, &vec!['E', 'N', 'D']) {
        Some(Key::End)
    } else if matches_word(t, &vec!['P', 'A', 'G', 'E', 'U', 'P']) {
        Some(Key::PageUp)
    } else if matches_word(t, &vec!['P', 'A', 'G', 'E', 'D', 'O', 'W', 'N']) {
        Some(Key::PageDown)
    } else if matches_word(t, &vec!['A', 'R', 'R', 'O', 'W', 'U', 'P']) || matches_word(
        t,
        &vec!['U', 'P'],
    ) {
        Some(Key::ArrowUp)
    } else if matches_word(t, &vec!['A', 'R', 'R', 'O', 'W', 'D', 'O', 'W', 'N']) || matches_word(
        t,
        &vec!['D', 'O', 'W', 'N'],
    ) {
        Some(Key::ArrowDown)
    } else if matches_word(t, &vec!['A', 'R', 'R', 'O', 'W', 'L', 'E', 'F', 'T']) || matches_word(
        t,
        &vec!['L', 'E', 'F', 'T'],
    ) {
        Some(Key::ArrowLeft)
    } else if matches_word(t, &vec!['A', 'R', 'R', 'O', 'W', 'R', 'I', 'G', 'H', 'T'])
        || matches_word(t, &vec!['R', 'I', 'G', 'H', 'T']) {
        Some(Key::ArrowRight)
    } else {
        None
    }
}

/// The key that token `t` names, if any.
pub fn classify_key(t: &Vec<char>) -> (r: Option<Key>)
    ensures
        r == key_of(t@),
{
    if t.len() == 1 && 'a' <= t[0] && t[0] <= 'z' {
        return Some(Key::Char((t[0] as u32 - 32) as u8));
    }
    if t.len() == 1 && (('A' <= t[0] && t[0] <= 'Z') || ('0' <= t[0] && t[0] <= '9')
        || is_punct_exec(t[0])) {
        return Some(Key::Char(t[0] as u8));
    }
    match classify_function(t) {
        Some(n) => Some(Key::Function(n)),
        None => classify_named(t),
    }
}

/// Relies on String::push: appends one character.
#[verifier::external_body]
pub(crate) fn push_char(s: &mut String, c: char)
    ensures
        final(s)@ == old(s)@.push(c),
{
    s.push(c)
}

/// Appends the canonical text of `k`.
pub fn write_key(out: &mut String, k: Key)
    ensures
        final(out)@ == old(out)@ + key_text(k),
{
    match k {
        Key::Char(c) => {
            push_char(out, c as char);
        },
        Key::Function(n) => {
            push_char(out, 'F');
            if n < 10 {
                push_char(out, (n + 48) as char);
            } else {
                push_char(out, (n / 10 + 48) as char);
                push_char(out, (n % 10 + 48) as char);
            }
        },
        Key::Space => {
            proof {
                reveal_strlit("Space");
            }
            out.append("Space");
        },
        Key::Enter => {
            proof {
                reveal_strlit("Enter");
            }
            out.append("Enter");
        },
        Key::Tab => {
            proof {
                reveal_strlit("Tab");
            }
            out.append("Tab");
        },
        Key::Escape => {
            proof {
                reveal_strlit("Escape");
            }
            out.append("Escape");
        },
        Key::Backspace => {
            proof {
                reveal_strlit("Backspace");
            }
            out.append("Backspace");
        },
        Key::Delete => {
            proof {
                reveal_strlit("Delete");
            }
            out.append("Delete");
        },
        Key::Insert => {
            proof {
                reveal_strlit("Insert");
            }
            out.append("Insert");
        },
        Key::Home => {
            proof {
                reveal_strlit("Home");
            }
            out.append("Home");
        },
        Key::End => {
            proof {
                reveal_strlit("End");
            }
            out.append("End");
        },
        Key::PageUp => {
            proof {
                reveal_strlit("PageUp");
            }
            out.append("PageUp");
        },
        Key::PageDown => {
            proof {
                reveal_strlit("PageDown");
            }
            out.append("PageDown");
        },
        Key::ArrowUp => {
            proof {
                reveal_strlit("ArrowUp");
            }
            out.append("ArrowUp");
        },
        Key::ArrowDown => {
            proof {
                reveal_strlit("ArrowDown");
            }
            out.append("ArrowDown");
        },
        Key::ArrowLeft => {
            proof {
                reveal_strlit("ArrowLeft");
            }
            out.append("ArrowLeft");
        },
        Key::ArrowRight => {
            proof {
                reveal_strlit("ArrowRight");
            }
            out.append("ArrowRight");
        },
    }
    assert(final(out)@ =~= old(out)@ + key_text(k));
}

/// Whether `w` holds neither `+` nor a space.
pub open spec fn plain_word(w: Seq<char>) -> bool {
    forall|i: int| 0 <= i < w.len() ==> #[trigger] w[i] != '+' && w[i] != ' '
}

/// Reading the canonical text of a key gives the key back.
pub proof fn lemma_key_round_trip(k: Key)
    requires
        valid_key(k),
    ensures
        key_of(key_text(k)) == Some(k),
        plain_word(key_text(k)),
        key_text(k).len() > 0,
{
    let t = key_text(k);
    assert(t[0] == t[0] && t[1] == t[1] && t[2] == t[2] && t[3] == t[3] && t[4] == t[4]);
    assert(t[5] == t[5] && t[6] == t[6] && t[7] == t[7] && t[8] == t[8] && t[9] == t[9]);
    match k {
        Key::Function(n) => {
            if n >= 10 {
                assert(10 * ((n / 10 + 48) as char as u32 - 48) + ((n % 10 + 48) as char as u32 - 48) == n);
            }
        },
        _ => {},
    }
}

} // verus!
