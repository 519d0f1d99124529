//! Parsing of global-hotkey descriptions such as `Alt+Space`: parts
//! separated by `+`, each trimmed and lowercased, every part either a
//! modifier or the key itself.

use vstd::prelude::*;
use vstd::string::StringSliceAdditionalSpecFns;

verus! {

/// The modifier keys a shortcut may hold down.
#[derive(Clone, Copy, Debug, PartialEq, Eq, Structural)]
pub struct Modifiers {
    pub alt: bool,
    pub ctrl: bool,
    pub shift: bool,
    pub meta: bool,
}

impl Modifiers {
    pub fn none() -> (r: Modifiers)
        ensures
            !r.alt && !r.ctrl && !r.shift && !r.meta,
    {
        Modifiers { alt: false, ctrl: false, shift: false, meta: false }
    }
}

/// The key a shortcut triggers on.
#[derive(Clone, Copy, Debug, PartialEq, Eq, Structural)]
pub enum KeyCode {
    Space,
    Enter,
    Tab,
    Escape,
    Backspace,
    Delete,
    ArrowUp,
    ArrowDown,
    ArrowLeft,
    ArrowRight,
    Home,
    End,
    PageUp,
    PageDown,
    /// A function key: `Function(n)` stands for F`n`, 1 through 12.
    Function(u8),
    /// A letter key, as its lowercase ASCII byte.
    Letter(u8),
    /// A digit key, as its ASCII byte.
    Digit(u8),
}

/// One parsed shortcut: its modifiers and its key.
#[derive(Clone, Copy, Debug, PartialEq, Eq, Structural)]
pub struct Shortcut {
    pub modifiers: Modifiers,
    pub code: KeyCode,
}

/// Why a shortcut description was rejected.
#[derive(Clone, Copy, Debug, PartialEq, Eq, Structural)]
pub enum ShortcutError {
    /// A part is neither a modifier nor a known key.
    UnknownKey,
    /// Only modifiers were given.
    NoKey,
}

/// The index of the first `+`, or the length where there is none.
pub open spec fn spec_find_plus(s: Seq<u8>) -> int
    decreases s.len(),
{
    if s.len() == 0 {
        0
    } else if s[0] == 0x2b {
        0
    } else {
        1 + spec_find_plus(s.drop_first())
    }
}

/// The byte string split on `+`: always at least one part, and one
/// more part than separators.
pub open spec fn spec_split_plus(s: Seq<u8>) -> Seq<Seq<u8>>
    decreases s.len(),
    via spec_split_plus_decreases
{
    let i = spec_find_plus(s);
    if i == s.len() {
        seq![s]
    } else {
        seq![s.take(i)] + spec_split_plus(s.skip(i + 1))
    }
}

#[via_fn]
proof fn spec_split_plus_decreases(s: Seq<u8>) {
    lemma_find_plus_bounds(s);
}

proof fn lemma_find_plus_bounds(s: Seq<u8>)
    ensures
        0 <= spec_find_plus(s) <= s.len(),
        forall|j: int| 0 <= j < spec_find_plus(s) ==> s[j] != 0x2b,
        spec_find_plus(s) < s.len() ==> s[spec_find_plus(s)] == 0x2b,
    decreases s.len(),
{
    if s.len() > 0 && s[0] != 0x2b {
        lemma_find_plus_bounds(s.drop_first());
        let f = spec_find_plus(s);
        assert(f == 1 + spec_find_plus(s.drop_first()));
        assert forall|j: int| 0 <= j < f implies s[j] != 0x2b by {
            if j > 0 {
                assert(s.drop_first()[j - 1] == s[j]);
            }
        }
        if f < s.len() {
            assert(s.drop_first()[f - 1] == s[f]);
        }
    }
}

proof fn lemma_split_plus_len(s: Seq<u8>)
    ensures
        spec_split_plus(s).len() >= 1,
    decreases s.len(),
{
    lemma_find_plus_bounds(s);
    let i = spec_find_plus(s);
    if i != s.len() {
        lemma_split_plus_len(s.skip(i + 1));
    }
}

proof fn lemma_find_plus_snoc(s: Seq<u8>, b: u8)
    ensures
        spec_find_plus(s) < s.len() ==> spec_find_plus(s.push(b)) == spec_find_plus(s),
        spec_find_plus(s) == s.len() ==> spec_find_plus(s.push(b)) == (if b == 0x2b {
            s.len() as int
        } else {
            s.len() as int + 1
        }),
    decreases s.len(),
{
    lemma_find_plus_bounds(s);
    lemma_find_plus_bounds(s.push(b));
    if s.len() == 0 {
        assert(s.push(b)[0] == b);
        if b != 0x2b {
            assert(s.push(b).drop_first() =~= Seq::<u8>::empty());
        }
    } else {
        assert(s.push(b)[0] == s[0]);
        if s[0] != 0x2b {
            assert(s.push(b).drop_first() =~= s.drop_first().push(b));
            lemma_find_plus_snoc(s.drop_first(), b);
        }
    }
}

proof fn lemma_split_plus_snoc(s: Seq<u8>, b: u8)
    ensures
        b == 0x2b ==> spec_split_plus(s.push(b)) == spec_split_plus(s).push(Seq::empty()),
        b != 0x2b ==> spec_split_plus(s.push(b)) == spec_split_plus(s).update(
            spec_split_plus(s).len() - 1,
            spec_split_plus(s).last().push(b),
        ),
    decreases s.len(),
{
    lemma_find_plus_bounds(s);
    lemma_find_plus_snoc(s, b);
    lemma_split_plus_len(s);
    let i = spec_find_plus(s);
    if i == s.len() {
        if b == 0x2b {
            assert(spec_find_plus(s.push(b)) == i);
            assert(spec_split_plus(s.push(b)) == seq![s.push(b).take(i)] + spec_split_plus(
                s.push(b).skip(i + 1),
            ));
            assert(s.push(b).take(i) =~= s);
            assert(s.push(b).skip(i + 1) =~= Seq::<u8>::empty());
            assert(spec_find_plus(Seq::<u8>::empty()) == 0);
            assert(spec_split_plus(Seq::<u8>::empty()) == seq![Seq::<u8>::empty()]);
            assert(spec_split_plus(s.push(b)) =~~= spec_split_plus(s).push(Seq::empty()));
        } else {
            assert(spec_find_plus(s.push(b)) == s.len() + 1);
            assert(spec_split_plus(s.push(b)) =~~= seq![s.push(b)]);
            assert(spec_split_plus(s.push(b)) =~~= spec_split_plus(s).update(
                spec_split_plus(s).len() - 1,
                spec_split_plus(s).last().push(b),
            ));
        }
    } else {
        assert(spec_find_plus(s.push(b)) == i);
        assert(spec_split_plus(s.push(b)) == seq![s.push(b).take(i)] + spec_split_plus(
            s.push(b).skip(i + 1),
        ));
        assert(s.push(b).take(i) =~= s.take(i));
        assert(s.push(b).skip(i + 1) =~= s.skip(i + 1).push(b));
        lemma_split_plus_snoc(s.skip(i + 1), b);
        lemma_split_plus_len(s.skip(i + 1));
        if b == 0x2b {
            assert(spec_split_plus(s.push(b)) =~~= spec_split_plus(s).push(Seq::empty()));
        } else {
            assert(spec_split_plus(s.push(b)) =~~= spec_split_plus(s).update(
                spec_split_plus(s).len() - 1,
                spec_split_plus(s).last().push(b),
            ));
        }
    }
}

/// Whether a byte is ASCII whitespace.
pub open spec fn spec_is_space(b: u8) -> bool {
    b == 0x20 || (0x09 <= b && b <= 0x0d)
}

/// A byte string without its leading whitespace.
pub open spec fn spec_skip_leading_spaces(s: Seq<u8>) -> Seq<u8>
    decreases s.len(),
{
    if s.len() == 0 || !spec_is_space(s[0]) {
        s
    } else {
        spec_skip_leading_spaces(s.drop_first())
    }
}

/// A byte string without its trailing whitespace.
pub open spec fn spec_drop_trailing_spaces(s: Seq<u8>) -> Seq<u8>
    decreases s.len(),
{
    if s.len() == 0 || !spec_is_space(s[s.len() - 1]) {
        s
    } else {
        spec_drop_trailing_spaces(s.drop_last())
    }
}

/// A byte string trimmed of ASCII whitespace on both ends.
pub open spec fn spec_trim_bytes(s: Seq<u8>) -> Seq<u8> {
    spec_drop_trailing_spaces(spec_skip_leading_spaces(s))
}

/// A byte string with every ASCII uppercase letter lowered.
pub open spec fn spec_lower_bytes(s: Seq<u8>) -> Seq<u8> {
    s.map_values(
        |b: u8|
            if 0x41 <= b && b <= 0x5a {
                (b + 0x20) as u8
            } else {
                b
            },
    )
}

/// One part of a shortcut description, trimmed and lowercased.
pub open spec fn spec_normalize_part(s: Seq<u8>) -> Seq<u8> {
    spec_lower_bytes(spec_trim_bytes(s))
}

proof fn lemma_skip_leading_spaces(s: Seq<u8>, a: int)
    requires
        0 <= a <= s.len(),
        forall|j: int| 0 <= j < a ==> spec_is_space(s[j]),
        a < s.len() ==> !spec_is_space(s[a]),
    ensures
        spec_skip_leading_spaces(s) == s.skip(a),
    decreases s.len(),
{
    if s.len() == 0 {
        assert(spec_skip_leading_spaces(s) =~= s.skip(a));
    } else if a == 0 {
        assert(s.skip(0) =~= s);
    } else {
        assert(spec_is_space(s[0]));
        assert(s.drop_first() =~= s.skip(1));
        lemma_skip_leading_spaces(s.drop_first(), a - 1);
        assert(s.drop_first().skip(a - 1) =~= s.skip(a));
    }
}

proof fn lemma_drop_trailing_spaces(s: Seq<u8>, e: int)
    requires
        0 <= e <= s.len(),
        forall|j: int| e <= j < s.len() ==> spec_is_space(s[j]),
        e > 0 ==> !spec_is_space(s[e - 1]),
    ensures
        spec_drop_trailing_spaces(s) == s.take(e),
    decreases s.len(),
{
    if e == s.len() {
        if s.len() == 0 || !spec_is_space(s[s.len() - 1]) {
            assert(s.take(e) =~= s);
        } else {
            assert(!spec_is_space(s[e - 1]));
        }
    } else {
        assert(spec_is_space(s[s.len() - 1]));
        lemma_drop_trailing_spaces(s.drop_last(), e);
        assert(s.drop_last().take(e) =~= s.take(e));
    }
}

/// The named keys, the function keys, and single letters and digits.
#[verifier::opaque]
pub open spec fn spec_key_of(p: Seq<u8>) -> Option<KeyCode> {
    if p == ("space").spec_bytes() {
        Some(KeyCode::Space)
    } else if p == ("enter").spec_bytes() || p == ("return").spec_bytes() {
        Some(KeyCode::Enter)
    } else if p == ("tab").spec_bytes() {
        Some(KeyCode::Tab)
    } else if p == ("escape").spec_bytes() || p == ("esc").spec_bytes() {
        Some(KeyCode::Escape)
    } else if p == ("backspace").spec_bytes() {
        Some(KeyCode::Backspace)
    } else if p == ("delete").spec_bytes() {
        Some(KeyCode::Delete)
    } else if p == ("up").spec_bytes() {
        Some(KeyCode::ArrowUp)
    } else if p == ("down").spec_bytes() {
        Some(KeyCode::ArrowDown)
    } else if p == ("left").spec_bytes() {
        Some(KeyCode::ArrowLeft)
    } else if p == ("right").spec_bytes() {
        Some(KeyCode::ArrowRight)
    } else if p == ("home").spec_bytes() {
        Some(KeyCode::Home)
    } else if p == ("end").spec_bytes() {
        Some(KeyCode::End)
    } else if p == ("pageup").spec_bytes() {
        Some(KeyCode::PageUp)
    } else if p == ("pagedown").spec_bytes() {
        Some(KeyCode::PageDown)
    } else if p == ("f1").spec_bytes() {
        Some(KeyCode::Function(1))
    } else if p == ("f2").spec_bytes() {
        Some(KeyCode::Function(2))
    } else if p == ("f3").spec_bytes() {
        Some(KeyCode::Function(3))
    } else if p == ("f4").spec_bytes() {
        Some(KeyCode::Function(4))
    } else if p == ("f5").spec_bytes() {
        Some(KeyCode::Function(5))
    } else if p == ("f6").spec_bytes() {
        Some(KeyCode::Function(6))
    } else if p == ("f7").spec_bytes() {
        Some(KeyCode::Function(7))
    } else if p == ("f8").spec_bytes() {
        Some(KeyCode::Function(8))
    } else if p == ("f9").spec_bytes() {
        Some(KeyCode::Function(9))
    } else if p == ("f10").spec_bytes() {
        Some(KeyCode::Function(10))
    } else if p == ("f11").spec_bytes() {
        Some(KeyCode::Function(11))
    } else if p == ("f12").spec_bytes() {
        Some(KeyCode::Function(12))
    } else if p.len() == 1 && 0x61 <= p[0] && p[0] <= 0x7a {
        Some(KeyCode::Letter(p[0]))
    } else if p.len() == 1 && 0x30 <= p[0] && p[0] <= 0x39 {
        Some(KeyCode::Digit(p[0]))
    } else {
        None
    }
}

/// What one normalized part adds to the shortcut being built.
#[verifier::opaque]
pub open spec fn spec_apply_part(
    state: (Modifiers, Option<KeyCode>),
    p: Seq<u8>,
) -> Option<(Modifiers, Option<KeyCode>)> {
    let (m, key) = state;
    if p == ("alt").spec_bytes() || p == ("option").spec_bytes() {
        Some((Modifiers { alt: true, ..m }, key))
    } else if p == ("ctrl").spec_bytes() || p == ("control").spec_bytes() {
        Some((Modifiers { ctrl: true, ..m }, key))
    } else if p == ("shift").spec_bytes() {
        Some((Modifiers { shift: true, ..m }, key))
    } else if p == ("super").spec_bytes() || p == ("meta").spec_bytes() || p == (
    "cmd").spec_bytes() || p == ("command").spec_bytes() || p == ("win").spec_bytes() {
        Some((Modifiers { meta: true, ..m }, key))
    } else {
        match spec_key_of(p) {
            Some(k) => Some((m, Some(k))),
            None => None,
        }
    }
}

/// Folds the parts left to right; `None` where any part is unknown.
pub open spec fn spec_fold_parts(
    parts: Seq<Seq<u8>>,
    state: (Modifiers, Option<KeyCode>),
) -> Option<(Modifiers, Option<KeyCode>)>
    decreases parts.len(),
{
    if parts.len() == 0 {
        Some(state)
    } else {
        match spec_apply_part(state, spec_normalize_part(parts[0])) {
            Some(next) => spec_fold_parts(parts.drop_first(), next),
            None => None,
        }
    }
}

/// What a shortcut description means: its parts split on `+`, each
/// trimmed and lowercased, folded into modifiers and a key. Unknown
/// parts are rejected, and so is a description that names no key.
pub open spec fn spec_parse_shortcut(bytes: Seq<u8>) -> Result<Shortcut, ShortcutError> {
    let init = (Modifiers { alt: false, ctrl: false, shift: false, meta: false }, Option::<
        KeyCode,
    >::None);
    match spec_fold_parts(spec_split_plus(bytes), init) {
        Option::None => Err(ShortcutError::UnknownKey),
        Option::Some((m, key)) => match key {
            Option::None => Err(ShortcutError::NoKey),
            Option::Some(code) => Ok(Shortcut { modifiers: m, code }),
        },
    }
}

/// Whether two byte strings hold the same bytes.
fn bytes_eq(a: &[u8], b: &[u8]) -> (r: bool)
    ensures
        r == (a@ == b@),
{
    if a.len() != b.len() {
        proof {
            assert(a@.len() != b@.len());
        }
        return false;
    }
    let mut i: usize = 0;
    while i < a.len()
        invariant
            a@.len() == b@.len(),
            i <= a@.len(),
            forall|j: int| 0 <= j < i ==> a@[j] == b@[j],
        decreases a@.len() - i,
    {
        if a[i] != b[i] {
            return false;
        }
        i = i + 1;
    }
    proof {
        assert(a@ =~= b@);
    }
    true
}

/// Splits a byte string on `+`.
fn split_plus(bytes: &[u8]) -> (r: Vec<Vec<u8>>)
    ensures
        r.deep_view() == spec_split_plus(bytes@),
{
    let mut parts: Vec<Vec<u8>> = Vec::new();
    let mut cur: Vec<u8> = Vec::new();
    let mut i: usize = 0;
    proof {
        assert(spec_split_plus(bytes@.take(0int)) =~~= parts.deep_view().push(cur@));
    }
    while i < bytes.len()
        invariant
            i <= bytes@.len(),
            spec_split_plus(bytes@.take(i as int)) == parts.deep_view().push(cur@),
        decreases bytes@.len() - i,
    {
        let b = bytes[i];
        proof {
            lemma_split_plus_snoc(bytes@.take(i as int), b);
            assert(bytes@.take(i as int).push(b) =~= bytes@.take(i as int + 1));
        }
        if b == 0x2b {
            let ghost dv = parts.deep_view();
            let ghost closed = cur@;
            parts.push(cur);
            cur = Vec::new();
            proof {
                assert(parts.deep_view() =~~= dv.push(closed));
                assert(spec_split_plus(bytes@.take(i as int + 1)) =~~= parts.deep_view().push(
                    cur@,
                ));
            }
        } else {
            cur.push(b);
            proof {
                assert(spec_split_plus(bytes@.take(i as int + 1)) =~~= parts.deep_view().push(
                    cur@,
                ));
            }
        }
        i = i + 1;
    }
    proof {
        assert(bytes@.take(bytes@.len() as int) =~= bytes@);
    }
    let ghost dv = parts.deep_view();
    let ghost last = cur@;
    parts.push(cur);
    proof {
        assert(parts.deep_view() =~~= dv.push(last));
    }
    parts
}

/// Trims ASCII whitespace and lowercases ASCII letters.
fn normalize_part(part: &[u8]) -> (r: Vec<u8>)
    ensures
        r@ == spec_normalize_part(part@),
{
    let mut start: usize = 0;
    while start < part.len() && (part[start] == 0x20 || (0x09 <= part[start] && part[start]
        <= 0x0d))
        invariant
            start <= part@.len(),
            forall|j: int| 0 <= j < start ==> spec_is_space(part@[j]),
        decreases part@.len() - start,
    {
        start = start + 1;
    }
    let mut end: usize = part.len();
    while end > start && (part[end - 1] == 0x20 || (0x09 <= part[end - 1] && part[end - 1]
        <= 0x0d))
        invariant
            start <= end <= part@.len(),
            forall|j: int| 0 <= j < start ==> spec_is_space(part@[j]),
            forall|j: int| end <= j < part@.len() ==> spec_is_space(part@[j]),
        decreases end,
    {
        end = end - 1;
    }
    proof {
        lemma_skip_leading_spaces(part@, start as int);
        lemma_drop_trailing_spaces(part@.skip(start as int), end - start as int);
        assert(part@.skip(start as int).take(end - start as int) =~= part@.subrange(
            start as int,
            end as int,
        ));
    }
    let trimmed = vstd::slice::slice_subrange(part, start, end);
    let mut out: Vec<u8> = Vec::new();
    let mut i: usize = 0;
    while i < trimmed.len()
        invariant
            i <= trimmed@.len(),
            out@ == spec_lower_bytes(trimmed@.take(i as int)),
        decreases trimmed@.len() - i,
    {
        let b = trimmed[i];
        if 0x41 <= b && b <= 0x5a {
            out.push(b + 0x20);
        } else {
            out.push(b);
        }
        proof {
            assert(out@ =~= spec_lower_bytes(trimmed@.take(i as int + 1)));
        }
        i = i + 1;
    }
    proof {
        assert(trimmed@.take(trimmed@.len() as int) =~= trimmed@);
        assert(out@ =~= spec_normalize_part(part@));
    }
    out
}

/// What one part does to the shortcut being built.
fn apply_part(p: &[u8], m: Modifiers, key: Option<KeyCode>) -> (r: Option<
    (Modifiers, Option<KeyCode>),
>)
    ensures
        r == spec_apply_part((m, key), p@),
{
    proof {
        reveal(spec_apply_part);
    }
    if bytes_eq(p, "alt".as_bytes()) || bytes_eq(p, "option".as_bytes()) {
        Some((Modifiers { alt: true, ..m }, key))
    } else if bytes_eq(p, "ctrl".as_bytes()) || bytes_eq(p, "control".as_bytes()) {
        Some((Modifiers { ctrl: true, ..m }, key))
    } else if bytes_eq(p, "shift".as_bytes()) {
        Some((Modifiers { shift: true, ..m }, key))
    } else if bytes_eq(p, "super".as_bytes()) || bytes_eq(p, "meta".as_bytes()) || bytes_eq(
        p,
        "cmd".as_bytes(),
    ) || bytes_eq(p, "command".as_bytes()) || bytes_eq(p, "win".as_bytes()) {
        Some((Modifiers { meta: true, ..m }, key))
    } else {
        match key_of_part(p) {
            Some(k) => Some((m, Some(k))),
            None => None,
        }
    }
}

fn key_of_part(p: &[u8]) -> (r: Option<KeyCode>)
    ensures
        r == spec_key_of(p@),
{
    proof {
        reveal(spec_key_of);
    }
    if bytes_eq(p, "space".as_bytes()) {
        Some(KeyCode::Space)
    } else if bytes_eq(p, "enter".as_bytes()) || bytes_eq(p, "return".as_bytes()) {
        Some(KeyCode::Enter)
    } else if bytes_eq(p, "tab".as_bytes()) {
        Some(KeyCode::Tab)
    } else if bytes_eq(p, "escape".as_bytes()) || bytes_eq(p, "esc".as_bytes()) {
        Some(KeyCode::Escape)
    } else if bytes_eq(p, "backspace".as_bytes()) {
        Some(KeyCode::Backspace)
    } else if bytes_eq(p, "delete".as_bytes()) {
        Some(KeyCode::Delete)
    } else if bytes_eq(p, "up".as_bytes()) {
        Some(KeyCode::ArrowUp)
    } else if bytes_eq(p, "down".as_bytes()) {
        Some(KeyCode::ArrowDown)
    } else if bytes_eq(p, "left".as_bytes()) {
        Some(KeyCode::ArrowLeft)
    } else if bytes_eq(p, "right".as_bytes()) {
        Some(KeyCode::ArrowRight)
    } else if bytes_eq(p, "home".as_bytes()) {
        Some(KeyCode::Home)
    } else if bytes_eq(p, "end".as_bytes()) {
        Some(KeyCode::End)
    } else if bytes_eq(p, "pageup".as_bytes()) {
        Some(KeyCode::PageUp)
    } else if bytes_eq(p, "pagedown".as_bytes()) {
        Some(KeyCode::PageDown)
    } else if bytes_eq(p, "f1".as_bytes()) {
        Some(KeyCode::Function(1))
    } else if bytes_eq(p, "f2".as_bytes()) {
        Some(KeyCode::Function(2))
    } else if bytes_eq(p, "f3".as_bytes()) {
        Some(KeyCode::Function(3))
    } else if bytes_eq(p, "f4".as_bytes()) {
        Some(KeyCode::Function(4))
    } else if bytes_eq(p, "f5".as_bytes()) {
        Some(KeyCode::Function(5))
    } else if bytes_eq(p, "f6".as_bytes()) {
        Some(KeyCode::Function(6))
    } else if bytes_eq(p, "f7".as_bytes()) {
        Some(KeyCode::Function(7))
    } else if bytes_eq(p, "f8".as_bytes()) {
        Some(KeyCode::Function(8))
    } else if bytes_eq(p, "f9".as_bytes()) {
        Some(KeyCode::Function(9))
    } else if bytes_eq(p, "f10".as_bytes()) {
        Some(KeyCode::Function(10))
    } else if bytes_eq(p, "f11".as_bytes()) {
        Some(KeyCode::Function(11))
    } else if bytes_eq(p, "f12".as_bytes()) {
        Some(KeyCode::Function(12))
    } else if p.len() == 1 && 0x61 <= p[0] && p[0] <= 0x7a {
        Some(KeyCode::Letter(p[0]))
    } else if p.len() == 1 && 0x30 <= p[0] && p[0] <= 0x39 {
        Some(KeyCode::Digit(p[0]))
    } else {
        None
    }
}

/// Parses a shortcut description: parts split on `+`, trimmed and
/// lowercased; modifiers accumulate, the last key-part wins; a part
/// that is neither is rejected, as is a description without a key.
pub fn parse_shortcut(shortcut_str: &str) -> (r: Result<Shortcut, ShortcutError>)
    ensures
        r == spec_parse_shortcut(shortcut_str.spec_bytes()),
{
    let bytes = shortcut_str.as_bytes();
    let parts = split_plus(bytes);
    let ghost all = parts.deep_view();
    let ghost init = (
        Modifiers { alt: false, ctrl: false, shift: false, meta: false },
        Option::<KeyCode>::None,
    );
    let mut modifiers = Modifiers { alt: false, ctrl: false, shift: false, meta: false };
    let mut key: Option<KeyCode> = None;
    let mut i: usize = 0;
    proof {
        assert(all.skip(0int) =~~= all);
    }
    while i < parts.len()
        invariant
            i <= all.len(),
            all.len() == parts@.len(),
            all == parts.deep_view(),
            all == spec_split_plus(shortcut_str.spec_bytes()),
            init == (Modifiers { alt: false, ctrl: false, shift: false, meta: false }, Option::<
                KeyCode,
            >::None),
            spec_fold_parts(all, init) == spec_fold_parts(all.skip(i as int), (modifiers, key)),
        decreases all.len() - i,
    {
        let normalized = normalize_part(parts[i].as_slice());
        let ghost st = (modifiers, key);
        let ghost np = spec_normalize_part(all[i as int]);
        proof {
            assert(all.skip(i as int).drop_first() =~~= all.skip(i as int + 1));
            assert(all.skip(i as int)[0] == all[i as int]);
            assert(parts@[i as int].deep_view() =~= parts@[i as int]@);
            assert(normalized@ == np);
        }
        let applied = apply_part(normalized.as_slice(), modifiers, key);
        match applied {
            Some((m, k)) => {
                modifiers = m;
                key = k;
                proof {
                    assert(spec_fold_parts(all.skip(i as int), st) == spec_fold_parts(
                        all.skip(i as int + 1),
                        (modifiers, key),
                    ));
                }
            },
            None => {
                proof {
                    assert(spec_apply_part(st, spec_normalize_part(all.skip(i as int)[0]))
                        is None);
                    assert(spec_fold_parts(all.skip(i as int), st) is None);
                    assert(spec_fold_parts(all, init) is None);
                }
                return Err(ShortcutError::UnknownKey);
            },
        }
        i = i + 1;
    }
    proof {
        assert(all.skip(all.len() as int) =~~= Seq::<Seq<u8>>::empty());
    }
    match key {
        Some(code) => Ok(Shortcut { modifiers, code }),
        None => Err(ShortcutError::NoKey),
    }
}

} // verus!
