//! Global scan hotkeys: validation, canonical text and parsing.
use crate::text::{
    ascii_lower,
    ascii_upper, decimal, has_outer_white_space, has_outer_ws, is_ascii_digit, is_ascii_lower,
    is_ascii_upper, is_white_space, lemma_decimal_digits, lower_seq, parse_u8_digits, parse_u8_spec,
    push_char, push_decimal, to_ascii_lowercase, to_ascii_uppercase, upper_seq,
};
use vstd::prelude::*;

verus! {

/// Supported non-modifier keys for a QRForge global hotkey.
#[derive(Clone, Copy, Debug, PartialEq, Eq, Structural)]
pub enum HotkeyKey {
    /// An ASCII letter stored uppercase.
    Letter(char),
    /// An ASCII digit.
    Digit(char),
    /// A function key from F1 through F24.
    Function(u8),
}

/// A validated and canonically ordered global hotkey.
#[derive(Clone, Copy, Debug, PartialEq, Eq, Structural)]
pub struct Hotkey {
    control: bool,
    alt: bool,
    shift: bool,
    super_key: bool,
    key: HotkeyKey,
}

/// Hotkey validation failure.
#[derive(Clone, Debug, PartialEq, Eq)]
pub enum HotkeyParseError {
    /// The representation is empty, padded, or otherwise malformed.
    InvalidSyntax,
    /// A modifier appears more than once.
    DuplicateModifier,
    /// More than one non-modifier key was supplied.
    MultipleKeys,
    /// No non-modifier key was supplied.
    KeyRequired,
    /// At least one modifier is required to avoid capturing ordinary typing.
    ModifierRequired,
    /// The requested key is not in the supported portable subset.
    UnsupportedKey(String),
}

/// What a hotkey parse failure says, with the unsupported text as characters.
pub enum ParseFailure {
    InvalidSyntax,
    DuplicateModifier,
    MultipleKeys,
    KeyRequired,
    ModifierRequired,
    UnsupportedKey(Seq<char>),
}

impl View for HotkeyParseError {
    type V = ParseFailure;

    open spec fn view(&self) -> ParseFailure {
        match self {
            HotkeyParseError::InvalidSyntax => ParseFailure::InvalidSyntax,
            HotkeyParseError::DuplicateModifier => ParseFailure::DuplicateModifier,
            HotkeyParseError::MultipleKeys => ParseFailure::MultipleKeys,
            HotkeyParseError::KeyRequired => ParseFailure::KeyRequired,
            HotkeyParseError::ModifierRequired => ParseFailure::ModifierRequired,
            HotkeyParseError::UnsupportedKey(text) => ParseFailure::UnsupportedKey(text@),
        }
    }
}

/// Parse outcome in terms of views.
pub open spec fn parse_outcome(r: Result<Hotkey, HotkeyParseError>) -> Result<Hotkey, ParseFailure> {
    match r {
        Ok(h) => Ok(h),
        Err(e) => Err(e@),
    }
}

impl Hotkey {
    pub closed spec fn has_control(self) -> bool {
        self.control
    }

    pub closed spec fn has_alt(self) -> bool {
        self.alt
    }

    pub closed spec fn has_shift(self) -> bool {
        self.shift
    }

    pub closed spec fn has_super(self) -> bool {
        self.super_key
    }

    pub closed spec fn key_of(self) -> HotkeyKey {
        self.key
    }

    /// The hotkey with exactly these modifiers and key.
    pub closed spec fn from_parts(
        control: bool,
        alt: bool,
        shift: bool,
        super_key: bool,
        key: HotkeyKey,
    ) -> Hotkey {
        Hotkey { control, alt, shift, super_key, key }
    }

    pub broadcast proof fn lemma_from_parts(
        control: bool,
        alt: bool,
        shift: bool,
        super_key: bool,
        key: HotkeyKey,
    )
        ensures
            #![trigger Hotkey::from_parts(control, alt, shift, super_key, key)]
            Hotkey::from_parts(control, alt, shift, super_key, key).has_control() == control,
            Hotkey::from_parts(control, alt, shift, super_key, key).has_alt() == alt,
            Hotkey::from_parts(control, alt, shift, super_key, key).has_shift() == shift,
            Hotkey::from_parts(control, alt, shift, super_key, key).has_super() == super_key,
            Hotkey::from_parts(control, alt, shift, super_key, key).key_of() == key,
    {
    }

    pub proof fn lemma_parts_determine(a: Hotkey, b: Hotkey)
        requires
            a.has_control() == b.has_control(),
            a.has_alt() == b.has_alt(),
            a.has_shift() == b.has_shift(),
            a.has_super() == b.has_super(),
            a.key_of() == b.key_of(),
        ensures
            a == b,
    {
    }

    /// At least one modifier is required.
    pub open spec fn has_modifier(self) -> bool {
        self.has_control() || self.has_alt() || self.has_shift() || self.has_super()
    }

    /// The key belongs to the supported portable subset.
    pub open spec fn is_well_formed(self) -> bool {
        self.has_modifier() && key_valid(self.key_of())
    }

    /// Creates a validated hotkey. At least one modifier is required.
    pub fn new(control: bool, alt: bool, shift: bool, super_key: bool, key: HotkeyKey) -> (r: Result<
        Self,
        HotkeyParseError,
    >)
        ensures
            (control || alt || shift || super_key) ==> r == Ok::<Hotkey, HotkeyParseError>(
                Hotkey::from_parts(control, alt, shift, super_key, key),
            ),
            !(control || alt || shift || super_key) ==> r == Err::<Hotkey, HotkeyParseError>(
                HotkeyParseError::ModifierRequired,
            ),
    {
        if !(control || alt || shift || super_key) {
            return Err(HotkeyParseError::ModifierRequired);
        }
        Ok(Self { control, alt, shift, super_key, key })
    }

    /// Returns whether Control is required.
    pub fn control(&self) -> (r: bool)
        ensures
            r == self.has_control(),
    {
        self.control
    }

    /// Returns whether Alt is required.
    pub fn alt(&self) -> (r: bool)
        ensures
            r == self.has_alt(),
    {
        self.alt
    }

    /// Returns whether Shift is required.
    pub fn shift(&self) -> (r: bool)
        ensures
            r == self.has_shift(),
    {
        self.shift
    }

    /// Returns whether the platform Super/Windows key is required.
    pub fn super_key(&self) -> (r: bool)
        ensures
            r == self.has_super(),
    {
        self.super_key
    }

    /// Returns the non-modifier key.
    pub fn key(&self) -> (r: &HotkeyKey)
        ensures
            *r == self.key_of(),
    {
        &self.key
    }

    /// Canonical text, such as `Ctrl+Shift+Q`.
    pub fn to_string(&self) -> (r: String)
        ensures
            r@ == hotkey_text(*self),
    {
        let mut s = String::new();
        if self.control {
            s.append("Ctrl+");
        }
        if self.alt {
            s.append("Alt+");
        }
        if self.shift {
            s.append("Shift+");
        }
        if self.super_key {
            s.append("Super+");
        }
        let k = key_to_string(&self.key);
        s.append(k.as_str());
        proof {
            reveal_strlit("Ctrl+");
            reveal_strlit("Alt+");
            reveal_strlit("Shift+");
            reveal_strlit("Super+");
            assert("Ctrl+"@ =~= name_ctrl() + plus());
            assert("Alt+"@ =~= name_alt() + plus());
            assert("Shift+"@ =~= name_shift() + plus());
            assert("Super+"@ =~= name_super() + plus());
            let e = Seq::<char>::empty();
            assert(s@ =~= hotkey_text(*self)) by {
                assert(e + piece(self.control, name_ctrl()) =~= piece(self.control, name_ctrl()));
            }
        }
        s
    }
}

impl Default for Hotkey {
    /// Ctrl+Shift+Q.
    fn default() -> (r: Self)
        ensures
            r == default_hotkey(),
    {
        Hotkey { control: true, alt: false, shift: true, super_key: false, key: HotkeyKey::Letter('Q') }
    }
}

/// The built-in scan hotkey, Ctrl+Shift+Q.
pub open spec fn default_hotkey() -> Hotkey {
    Hotkey::from_parts(true, false, true, false, HotkeyKey::Letter('Q'))
}

impl std::str::FromStr for Hotkey {
    type Err = HotkeyParseError;

    fn from_str(value: &str) -> (r: Result<Self, Self::Err>)
        ensures
            parse_outcome(r) == parse_hotkey_spec(value@),
            r matches Ok(h) ==> h.is_well_formed(),
    {
        parse_hotkey(value)
    }
}

pub open spec fn key_valid(k: HotkeyKey) -> bool {
    match k {
        HotkeyKey::Letter(c) => is_ascii_upper(c),
        HotkeyKey::Digit(c) => is_ascii_digit(c),
        HotkeyKey::Function(n) => 1 <= n && n <= 24,
    }
}

pub open spec fn key_text(k: HotkeyKey) -> Seq<char> {
    match k {
        HotkeyKey::Letter(c) => seq![c],
        HotkeyKey::Digit(c) => seq![c],
        HotkeyKey::Function(n) => seq!['F'] + decimal(n as nat),
    }
}

pub open spec fn name_ctrl() -> Seq<char> {
    seq!['C', 't', 'r', 'l']
}

pub open spec fn name_alt() -> Seq<char> {
    seq!['A', 'l', 't']
}

pub open spec fn name_shift() -> Seq<char> {
    seq!['S', 'h', 'i', 'f', 't']
}

pub open spec fn name_super() -> Seq<char> {
    seq!['S', 'u', 'p', 'e', 'r']
}

pub open spec fn plus() -> Seq<char> {
    seq!['+']
}

pub open spec fn piece(on: bool, name: Seq<char>) -> Seq<char> {
    if on {
        name + plus()
    } else {
        Seq::empty()
    }
}

/// Canonical text: present modifiers in the order Ctrl, Alt, Shift, Super, then the key, joined by `+`.
pub open spec fn hotkey_text(h: Hotkey) -> Seq<char> {
    piece(h.has_control(), name_ctrl()) + piece(h.has_alt(), name_alt()) + piece(
        h.has_shift(),
        name_shift(),
    ) + piece(h.has_super(), name_super()) + key_text(h.key_of())
}

fn key_to_string(k: &HotkeyKey) -> (r: String)
    ensures
        r@ == key_text(*k),
{
    match k {
        HotkeyKey::Letter(c) => {
            let mut s = String::new();
            push_char(&mut s, *c);
            assert(s@ =~= seq![*c]);
            s
        },
        HotkeyKey::Digit(c) => {
            let mut s = String::new();
            push_char(&mut s, *c);
            assert(s@ =~= seq![*c]);
            s
        },
        HotkeyKey::Function(n) => {
            let mut s = String::new();
            push_char(&mut s, 'F');
            push_decimal(&mut s, *n as u64);
            assert(s@ =~= seq!['F'] + decimal(*n as nat));
            s
        },
    }
}

// ---------------------------------------------------------------------------
// Parsing
/// Splits text on every `+`, keeping empty pieces, like `str::split('+')`.
pub open spec fn split_plus(s: Seq<char>) -> Seq<Seq<char>>
    decreases s.len(),
{
    if s.len() == 0 {
        seq![Seq::<char>::empty()]
    } else {
        let p = split_plus(s.drop_last());
        if s.last() == '+' {
            p.push(Seq::<char>::empty())
        } else {
            p.update(p.len() - 1, p.last().push(s.last()))
        }
    }
}

/// Modifier slot named by a lowercased piece: 0 Control, 1 Alt, 2 Shift, 3 Super.
pub open spec fn modifier_slot(lower: Seq<char>) -> Option<int> {
    if lower == seq!['c', 't', 'r', 'l'] || lower == seq!['c', 'o', 'n', 't', 'r', 'o', 'l'] {
        Some(0)
    } else if lower == seq!['a', 'l', 't'] {
        Some(1)
    } else if lower == seq!['s', 'h', 'i', 'f', 't'] {
        Some(2)
    } else if lower == seq!['s', 'u', 'p', 'e', 'r'] || lower == seq!['w', 'i', 'n'] || lower
        == seq!['m', 'e', 't', 'a'] {
        Some(3)
    } else {
        None
    }
}

/// Key named by a piece, compared case-insensitively.
pub open spec fn parse_key_spec(part: Seq<char>) -> Option<HotkeyKey> {
    let up = upper_seq(part);
    if up.len() == 1 && (is_ascii_upper(up[0]) || is_ascii_lower(up[0])) {
        Some(HotkeyKey::Letter(up[0]))
    } else if up.len() == 1 && is_ascii_digit(up[0]) {
        Some(HotkeyKey::Digit(up[0]))
    } else if up.len() >= 1 && up[0] == 'F' && parse_u8_spec(up.drop_first()) is Some && 1
        <= parse_u8_spec(up.drop_first())->0 && parse_u8_spec(up.drop_first())->0 <= 24 {
        Some(HotkeyKey::Function(parse_u8_spec(up.drop_first())->0))
    } else {
        None
    }
}

/// Modifier flags and key collected so far.
pub type ParseState = (bool, bool, bool, bool, Option<HotkeyKey>);

pub open spec fn set_slot(st: ParseState, slot: int) -> Result<ParseState, ParseFailure> {
    let (c, a, s, w, k) = st;
    if slot == 0 {
        if c {
            Err(ParseFailure::DuplicateModifier)
        } else {
            Ok((true, a, s, w, k))
        }
    } else if slot == 1 {
        if a {
            Err(ParseFailure::DuplicateModifier)
        } else {
            Ok((c, true, s, w, k))
        }
    } else if slot == 2 {
        if s {
            Err(ParseFailure::DuplicateModifier)
        } else {
            Ok((c, a, true, w, k))
        }
    } else {
        if w {
            Err(ParseFailure::DuplicateModifier)
        } else {
            Ok((c, a, s, true, k))
        }
    }
}

/// Reads one `+`-separated piece.
pub open spec fn parse_step(acc: Result<ParseState, ParseFailure>, part: Seq<char>) -> Result<
    ParseState,
    ParseFailure,
> {
    match acc {
        Err(e) => Err(e),
        Ok(st) => match modifier_slot(lower_seq(part)) {
            Some(slot) => set_slot(st, slot),
            None => if st.4 is Some {
                Err(ParseFailure::MultipleKeys)
            } else {
                match parse_key_spec(part) {
                    None => Err(ParseFailure::UnsupportedKey(part)),
                    Some(key) => Ok((st.0, st.1, st.2, st.3, Some(key))),
                }
            },
        },
    }
}

pub open spec fn initial_state() -> Result<ParseState, ParseFailure> {
    Ok((false, false, false, false, None))
}

pub open spec fn parse_parts(parts: Seq<Seq<char>>) -> Result<ParseState, ParseFailure>
    decreases parts.len(),
{
    if parts.len() == 0 {
        initial_state()
    } else {
        parse_step(parse_parts(parts.drop_last()), parts.last())
    }
}

/// What parsing hotkey text gives.
pub open spec fn parse_hotkey_spec(v: Seq<char>) -> Result<Hotkey, ParseFailure> {
    if v.len() == 0 || has_outer_ws(v) {
        Err(ParseFailure::InvalidSyntax)
    } else {
        match parse_parts(split_plus(v)) {
            Err(e) => Err(e),
            Ok((c, a, s, w, k)) => match k {
                None => Err(ParseFailure::KeyRequired),
                Some(key) => if !(c || a || s || w) {
                    Err(ParseFailure::ModifierRequired)
                } else {
                    Ok(Hotkey::from_parts(c, a, s, w, key))
                },
            },
        }
    }
}

pub proof fn lemma_split_nonempty(s: Seq<char>)
    ensures
        split_plus(s).len() >= 1,
    decreases s.len(),
{
    if s.len() > 0 {
        lemma_split_nonempty(s.drop_last());
    }
}

proof fn lemma_parse_err_stays(parts: Seq<Seq<char>>, k: int, e: ParseFailure)
    requires
        0 <= k <= parts.len(),
        parse_parts(parts.subrange(0, k)) == Err::<ParseState, ParseFailure>(e),
    ensures
        parse_parts(parts) == Err::<ParseState, ParseFailure>(e),
    decreases parts.len() - k,
{
    if k == parts.len() {
        assert(parts.subrange(0, k) =~= parts);
    } else {
        let q = parts.subrange(0, k + 1);
        assert(q.drop_last() =~= parts.subrange(0, k));
        lemma_parse_err_stays(parts, k + 1, e);
    }
}

fn split_plus_exec(s: &str) -> (r: Vec<String>)
    ensures
        r.len() == split_plus(s@).len(),
        forall|i: int| 0 <= i < r.len() ==> (#[trigger] r[i])@ == split_plus(s@)[i],
{
    let n = s.unicode_len();
    let mut parts: Vec<String> = Vec::new();
    let mut cur = String::new();
    let mut i: usize = 0;
    proof {
        assert(s@.subrange(0, 0) =~= Seq::<char>::empty());
    }
    while i < n
        invariant
            n == s@.len(),
            i <= n,
            split_plus(s@.subrange(0, i as int)).len() == parts.len() + 1,
            forall|j: int|
                0 <= j < parts.len() ==> (#[trigger] parts[j])@ == split_plus(
                    s@.subrange(0, i as int),
                )[j],
            cur@ == split_plus(s@.subrange(0, i as int)).last(),
        decreases n - i,
    {
        let c = s.get_char(i);
        let ghost prev = split_plus(s@.subrange(0, i as int));
        proof {
            let q = s@.subrange(0, i + 1);
            assert(q.drop_last() =~= s@.subrange(0, i as int));
            assert(q.last() == c);
        }
        if c == '+' {
            let done = cur;
            parts.push(done);
            cur = String::new();
            proof {
                let now = split_plus(s@.subrange(0, i + 1));
                assert(now == prev.push(Seq::<char>::empty()));
                assert(cur@ =~= now.last());
            }
        } else {
            push_char(&mut cur, c);
        }
        i = i + 1;
    }
    assert(s@.subrange(0, n as int) =~= s@);
    parts.push(cur);
    parts
}

fn eq_text(a: &String, b: &str) -> (r: bool)
    ensures
        r == (a@ == b@),
{
    let other = String::from_str(b);
    *a == other
}

fn modifier_slot_exec(lower: &String) -> (r: Option<u8>)
    ensures
        r matches Some(k) ==> modifier_slot(lower@) == Some(k as int),
        r is None ==> modifier_slot(lower@) is None,
{
    proof {
        reveal_strlit("ctrl");
        reveal_strlit("control");
        reveal_strlit("alt");
        reveal_strlit("shift");
        reveal_strlit("super");
        reveal_strlit("win");
        reveal_strlit("meta");
    }
    assert("ctrl"@ =~= seq!['c', 't', 'r', 'l']);
    assert("control"@ =~= seq!['c', 'o', 'n', 't', 'r', 'o', 'l']);
    assert("alt"@ =~= seq!['a', 'l', 't']);
    assert("shift"@ =~= seq!['s', 'h', 'i', 'f', 't']);
    assert("super"@ =~= seq!['s', 'u', 'p', 'e', 'r']);
    assert("win"@ =~= seq!['w', 'i', 'n']);
    assert("meta"@ =~= seq!['m', 'e', 't', 'a']);
    if eq_text(lower, "ctrl") || eq_text(lower, "control") {
        Some(0)
    } else if eq_text(lower, "alt") {
        Some(1)
    } else if eq_text(lower, "shift") {
        Some(2)
    } else if eq_text(lower, "super") || eq_text(lower, "win") || eq_text(lower, "meta") {
        Some(3)
    } else {
        None
    }
}

/// Reads a key name such as `q`, `7` or `F12`.
fn parse_key(value: &str) -> (r: Result<HotkeyKey, HotkeyParseError>)
    ensures
        r matches Ok(k) ==> parse_key_spec(value@) == Some(k),
        r matches Err(e) ==> parse_key_spec(value@) is None && e@ == ParseFailure::UnsupportedKey(
            value@,
        ),
{
    let upper = to_ascii_uppercase(value);
    let n = upper.unicode_len();
    if n == 1 {
        let c = upper.as_str().get_char(0);
        if ('A' <= c && c <= 'Z') || ('a' <= c && c <= 'z') {
            return Ok(HotkeyKey::Letter(c));
        }
        if '0' <= c && c <= '9' {
            return Ok(HotkeyKey::Digit(c));
        }
    }
    if n >= 1 {
        let first = upper.as_str().get_char(0);
        if first == 'F' {
            let rest = upper.as_str().substring_char(1, n);
            assert(rest@ =~= upper@.drop_first());
            if let Some(number) = parse_u8_digits(rest) {
                if 1 <= number && number <= 24 {
                    return Ok(HotkeyKey::Function(number));
                }
            }
        }
    }
    Err(HotkeyParseError::UnsupportedKey(String::from_str(value)))
}

/// Parses hotkey text such as `shift+control+q`; modifiers are case-insensitive and
/// may come in any order.
pub fn parse_hotkey(value: &str) -> (r: Result<Hotkey, HotkeyParseError>)
    ensures
        parse_outcome(r) == parse_hotkey_spec(value@),
        r matches Ok(h) ==> h.is_well_formed(),
{
    let n = value.unicode_len();
    if n == 0 || has_outer_white_space(value) {
        return Err(HotkeyParseError::InvalidSyntax);
    }
    let parts = split_plus_exec(value);
    let ghost all = split_plus(value@);
    let mut control = false;
    let mut alt = false;
    let mut shift = false;
    let mut super_key = false;
    let mut key: Option<HotkeyKey> = None;
    let mut k: usize = 0;
    proof {
        assert(all.subrange(0, 0) =~= Seq::<Seq<char>>::empty());
    }
    while k < parts.len()
        invariant
            parts.len() == all.len(),
            all == split_plus(value@),
            value@.len() > 0 && !has_outer_ws(value@),
            forall|i: int| 0 <= i < parts.len() ==> (#[trigger] parts[i])@ == all[i],
            k <= parts.len(),
            parse_parts(all.subrange(0, k as int)) == Ok::<ParseState, ParseFailure>(
                (control, alt, shift, super_key, key),
            ),
            key matches Some(kk) ==> key_valid(kk),
        decreases parts.len() - k,
    {
        let part = &parts[k];
        proof {
            let q = all.subrange(0, k + 1);
            assert(q.drop_last() =~= all.subrange(0, k as int));
            assert(q.last() == all[k as int]);
        }
        let lower = to_ascii_lowercase(part.as_str());
        match modifier_slot_exec(&lower) {
            Some(slot) => {
                if slot == 0 {
                    if control {
                        proof {
                            lemma_parse_err_stays(all, k + 1, ParseFailure::DuplicateModifier);
                        }
                        return Err(HotkeyParseError::DuplicateModifier);
                    }
                    control = true;
                } else if slot == 1 {
                    if alt {
                        proof {
                            lemma_parse_err_stays(all, k + 1, ParseFailure::DuplicateModifier);
                        }
                        return Err(HotkeyParseError::DuplicateModifier);
                    }
                    alt = true;
                } else if slot == 2 {
                    if shift {
                        proof {
                            lemma_parse_err_stays(all, k + 1, ParseFailure::DuplicateModifier);
                        }
                        return Err(HotkeyParseError::DuplicateModifier);
                    }
                    shift = true;
                } else {
                    if super_key {
                        proof {
                            lemma_parse_err_stays(all, k + 1, ParseFailure::DuplicateModifier);
                        }
                        return Err(HotkeyParseError::DuplicateModifier);
                    }
                    super_key = true;
                }
            },
            None => {
                if key.is_some() {
                    proof {
                        lemma_parse_err_stays(all, k + 1, ParseFailure::MultipleKeys);
                    }
                    return Err(HotkeyParseError::MultipleKeys);
                }
                match parse_key(part.as_str()) {
                    Ok(parsed) => {
                        proof {
                            lemma_parse_key_valid(part@);
                        }
                        key = Some(parsed);
                    },
                    Err(e) => {
                        proof {
                            lemma_parse_err_stays(all, k + 1, e@);
                        }
                        return Err(e);
                    },
                }
            },
        }
        k = k + 1;
    }
    proof {
        assert(all.subrange(0, parts.len() as int) =~= all);
    }
    match key {
        None => Err(HotkeyParseError::KeyRequired),
        Some(found) => Hotkey::new(control, alt, shift, super_key, found),
    }
}

pub proof fn lemma_parse_key_valid(part: Seq<char>)
    ensures
        parse_key_spec(part) matches Some(k) ==> key_valid(k),
{
    let up = upper_seq(part);
    if up.len() == 1 {
        assert(up[0] == ascii_upper(part[0]));
    }
}

// ---------------------------------------------------------------------------
// Round trip
proof fn lemma_split_append_word(x: Seq<char>, w: Seq<char>)
    requires
        forall|i: int| 0 <= i < w.len() ==> w[i] != '+',
    ensures
        split_plus(x + w) == split_plus(x).update(
            split_plus(x).len() - 1,
            split_plus(x).last() + w,
        ),
    decreases w.len(),
{
    lemma_split_nonempty(x);
    if w.len() == 0 {
        assert(x + w =~= x);
        assert(split_plus(x).last() + w =~= split_plus(x).last());
        assert(split_plus(x).update(split_plus(x).len() - 1, split_plus(x).last())
            =~= split_plus(x));
    } else {
        let w0 = w.drop_last();
        lemma_split_append_word(x, w0);
        assert((x + w).drop_last() =~= x + w0);
        assert((x + w).last() == w.last());
        let px = split_plus(x);
        let l = px.len() - 1;
        let p = split_plus(x + w0);
        assert(p == px.update(l, px.last() + w0));
        assert(p.len() == px.len());
        assert(p.last() == px.last() + w0);
        assert(split_plus(x + w) == p.update(p.len() - 1, p.last().push(w.last())));
        assert((px.last() + w0).push(w.last()) =~= px.last() + w);
        assert(split_plus(x + w) =~= px.update(l, px.last() + w));
    }
}

proof fn lemma_split_add_piece(t: Seq<char>, parts: Seq<Seq<char>>, on: bool, name: Seq<char>)
    requires
        split_plus(t) == parts.push(Seq::<char>::empty()),
        forall|i: int| 0 <= i < name.len() ==> name[i] != '+',
    ensures
        split_plus(t + piece(on, name)) == (if on {
            parts.push(name)
        } else {
            parts
        }).push(Seq::<char>::empty()),
{
    if on {
        lemma_split_append_word(t, name);
        let tn = t + name;
        assert(t + piece(on, name) =~= tn.push('+'));
        assert((tn.push('+')).drop_last() =~= tn);
        assert(Seq::<char>::empty() + name =~= name);
        assert(split_plus(tn) =~= parts.push(name));
    } else {
        assert(t + piece(on, name) =~= t);
    }
}

proof fn lemma_step_modifier(st: ParseState, part: Seq<char>, slot: int)
    requires
        modifier_slot(lower_seq(part)) == Some(slot),
    ensures
        parse_step(Ok(st), part) == set_slot(st, slot),
{
}

/// The text of every well-formed hotkey parses back to that hotkey.
pub proof fn lemma_hotkey_text_round_trip(h: Hotkey)
    requires
        h.is_well_formed(),
    ensures
        parse_hotkey_spec(hotkey_text(h)) == Ok::<Hotkey, ParseFailure>(h),
{
    broadcast use Hotkey::lemma_from_parts;

    let c = h.has_control();
    let a = h.has_alt();
    let s = h.has_shift();
    let w = h.has_super();
    let key = h.key_of();
    let kt = key_text(key);
    lemma_key_text(key);
    let e = Seq::<char>::empty();
    let empty_parts = Seq::<Seq<char>>::empty();
    // Split.
    let t0 = e;
    assert(split_plus(t0) == empty_parts.push(e)) by {
        assert(split_plus(t0) =~= seq![e]);
        assert(empty_parts.push(e) =~= seq![e]);
    }
    let p1 = if c {
        empty_parts.push(name_ctrl())
    } else {
        empty_parts
    };
    lemma_split_add_piece(t0, empty_parts, c, name_ctrl());
    let t1 = t0 + piece(c, name_ctrl());
    let p2 = if a {
        p1.push(name_alt())
    } else {
        p1
    };
    lemma_split_add_piece(t1, p1, a, name_alt());
    let t2 = t1 + piece(a, name_alt());
    let p3 = if s {
        p2.push(name_shift())
    } else {
        p2
    };
    lemma_split_add_piece(t2, p2, s, name_shift());
    let t3 = t2 + piece(s, name_shift());
    let p4 = if w {
        p3.push(name_super())
    } else {
        p3
    };
    lemma_split_add_piece(t3, p3, w, name_super());
    let t4 = t3 + piece(w, name_super());
    lemma_split_append_word(t4, kt);
    let text = hotkey_text(h);
    assert(t0 + piece(c, name_ctrl()) =~= piece(c, name_ctrl()));
    assert(text =~= t4 + kt);
    assert(split_plus(text) =~= p4.push(kt));
    // Parse the modifiers.
    lemma_lower_names();
    let s0: ParseState = (false, false, false, false, None);
    let s1: ParseState = (c, false, false, false, None);
    let s2: ParseState = (c, a, false, false, None);
    let s3: ParseState = (c, a, s, false, None);
    let s4: ParseState = (c, a, s, w, None);
    assert(parse_parts(empty_parts) == Ok::<ParseState, ParseFailure>(s0));
    assert(parse_parts(p1) == Ok::<ParseState, ParseFailure>(s1)) by {
        if c {
            assert(p1.drop_last() =~= empty_parts);
            lemma_step_modifier(s0, name_ctrl(), 0);
        }
    }
    assert(parse_parts(p2) == Ok::<ParseState, ParseFailure>(s2)) by {
        if a {
            assert(p2.drop_last() =~= p1);
            lemma_step_modifier(s1, name_alt(), 1);
        }
    }
    assert(parse_parts(p3) == Ok::<ParseState, ParseFailure>(s3)) by {
        if s {
            assert(p3.drop_last() =~= p2);
            lemma_step_modifier(s2, name_shift(), 2);
        }
    }
    assert(parse_parts(p4) == Ok::<ParseState, ParseFailure>(s4)) by {
        if w {
            assert(p4.drop_last() =~= p3);
            lemma_step_modifier(s3, name_super(), 3);
        }
    }
    // Parse the key.
    assert(p4.push(kt).drop_last() =~= p4);
    assert(parse_parts(p4.push(kt)) == Ok::<ParseState, ParseFailure>((c, a, s, w, Some(key))));
    // Outer shape.
    assert(text.len() > 0);
    assert(!has_outer_ws(text)) by {
        assert(text[text.len() - 1] == kt[kt.len() - 1]);
        if c {
            assert(text[0] == 'C');
        } else if a {
            assert(text[0] == 'A');
        } else {
            assert(text[0] == 'S');
        }
    }
    Hotkey::lemma_parts_determine(Hotkey::from_parts(c, a, s, w, key), h);
}

proof fn lemma_lowers_to_letter(c: char)
    requires
        is_ascii_lower(ascii_lower(c)),
    ensures
        c != '+',
        !is_white_space(c),
{
}

/// Each modifier name means one fixed modifier, in any letter case: `ctrl` and `control`
/// mean Control, `alt` means Alt, `shift` means Shift, and `super`, `win` and `meta` mean
/// the Super key. A name, `+` and a key parse to that one modifier with that key.
pub proof fn lemma_modifier_names(m: Seq<char>, key: HotkeyKey)
    requires
        key_valid(key),
        ({
            let low = lower_seq(m);
            ||| low == seq!['c', 't', 'r', 'l']
            ||| low == seq!['c', 'o', 'n', 't', 'r', 'o', 'l']
            ||| low == seq!['a', 'l', 't']
            ||| low == seq!['s', 'h', 'i', 'f', 't']
            ||| low == seq!['s', 'u', 'p', 'e', 'r']
            ||| low == seq!['w', 'i', 'n']
            ||| low == seq!['m', 'e', 't', 'a']
        }),
    ensures
        ({
            let low = lower_seq(m);
            &&& parse_hotkey_spec(m + seq!['+'] + key_text(key)) is Ok
            &&& parse_hotkey_spec(m + seq!['+'] + key_text(key))->Ok_0.has_control() == (low == seq![
                'c',
                't',
                'r',
                'l',
            ] || low == seq!['c', 'o', 'n', 't', 'r', 'o', 'l'])
            &&& parse_hotkey_spec(m + seq!['+'] + key_text(key))->Ok_0.has_alt() == (low == seq![
                'a',
                'l',
                't',
            ])
            &&& parse_hotkey_spec(m + seq!['+'] + key_text(key))->Ok_0.has_shift() == (low == seq![
                's',
                'h',
                'i',
                'f',
                't',
            ])
            &&& parse_hotkey_spec(m + seq!['+'] + key_text(key))->Ok_0.has_super() == (low == seq![
                's',
                'u',
                'p',
                'e',
                'r',
            ] || low == seq!['w', 'i', 'n'] || low == seq!['m', 'e', 't', 'a'])
            &&& parse_hotkey_spec(m + seq!['+'] + key_text(key))->Ok_0.key_of() == key
        }),
{
    broadcast use Hotkey::lemma_from_parts;

    let low = lower_seq(m);
    let kt = key_text(key);
    lemma_key_text(key);
    assert(m.len() == low.len());
    assert forall|i: int| 0 <= i < m.len() implies m[i] != '+' && !is_white_space(m[i]) by {
        assert(low[i] == ascii_lower(m[i]));
        lemma_lowers_to_letter(m[i]);
    }
    let e = Seq::<char>::empty();
    assert(split_plus(e) =~= seq![e]);
    lemma_split_append_word(e, m);
    assert(e + m =~= m);
    assert(split_plus(m) =~= seq![m]);
    let t1 = m.push('+');
    assert(t1.drop_last() =~= m);
    assert(split_plus(t1) =~= seq![m, e]);
    lemma_split_append_word(t1, kt);
    let text = m + seq!['+'] + kt;
    assert(text =~= t1 + kt);
    assert(e + kt =~= kt);
    assert(split_plus(text) =~= seq![m, kt]);
    let parts = seq![m, kt];
    assert(parts.drop_last() =~= seq![m]);
    assert(seq![m].drop_last() =~= Seq::<Seq<char>>::empty());
    assert(seq![m].last() == m);
    assert(parts.last() == kt);
    let slot: int = if low == seq!['c', 't', 'r', 'l'] || low == seq!['c', 'o', 'n', 't', 'r', 'o', 'l'] {
        0
    } else if low == seq!['a', 'l', 't'] {
        1
    } else if low == seq!['s', 'h', 'i', 'f', 't'] {
        2
    } else {
        3
    };
    assert(modifier_slot(low) == Some(slot));
    let st: ParseState = (slot == 0, slot == 1, slot == 2, slot == 3, None);
    let s0: ParseState = (false, false, false, false, None);
    assert(parse_parts(Seq::<Seq<char>>::empty()) == Ok::<ParseState, ParseFailure>(s0));
    lemma_step_modifier(s0, m, slot);
    assert(set_slot(s0, slot) == Ok::<ParseState, ParseFailure>(st));
    assert(parse_parts(seq![m]) == Ok::<ParseState, ParseFailure>(st));
    assert(parse_parts(parts) == Ok::<ParseState, ParseFailure>((slot == 0, slot == 1, slot == 2, slot == 3, Some(key))));
    assert(text.len() > 0);
    assert(text[0] == m[0]);
    assert(text[text.len() - 1] == kt[kt.len() - 1]);
    assert(!has_outer_ws(text));
    assert(seq!['c', 't', 'r', 'l'] != seq!['s', 'u', 'p', 'e', 'r']);
}

/// The modifier named, as the same number as in `lemma_modifier_names`: 0 Control,
/// 1 Alt, 2 Shift, 3 Super; `None` for other text.
pub open spec fn named_modifier(low: Seq<char>) -> Option<int> {
    if low == seq!['c', 't', 'r', 'l'] || low == seq!['c', 'o', 'n', 't', 'r', 'o', 'l'] {
        Some(0)
    } else if low == seq!['a', 'l', 't'] {
        Some(1)
    } else if low == seq!['s', 'h', 'i', 'f', 't'] {
        Some(2)
    } else if low == seq!['s', 'u', 'p', 'e', 'r'] || low == seq!['w', 'i', 'n'] || low == seq![
        'm',
        'e',
        't',
        'a',
    ] {
        Some(3)
    } else {
        None
    }
}

proof fn lemma_name_chars(m: Seq<char>)
    requires
        named_modifier(lower_seq(m)) is Some,
    ensures
        m.len() > 0,
        forall|i: int| 0 <= i < m.len() ==> m[i] != '+' && !is_white_space(#[trigger] m[i]),
{
    let low = lower_seq(m);
    assert(m.len() == low.len());
    assert forall|i: int| 0 <= i < m.len() implies m[i] != '+' && !is_white_space(#[trigger] m[i]) by {
        assert(low[i] == ascii_lower(m[i]));
        lemma_lowers_to_letter(m[i]);
    }
}

/// Naming one modifier twice, under the same or another of its names, is refused as a
/// duplicate.
pub proof fn lemma_duplicate_modifier_refused(m1: Seq<char>, m2: Seq<char>, key: HotkeyKey)
    requires
        key_valid(key),
        named_modifier(lower_seq(m1)) is Some,
        named_modifier(lower_seq(m1)) == named_modifier(lower_seq(m2)),
    ensures
        parse_hotkey_spec(m1 + seq!['+'] + m2 + seq!['+'] + key_text(key)) == Err::<
            Hotkey,
            ParseFailure,
        >(ParseFailure::DuplicateModifier),
{
    let kt = key_text(key);
    lemma_key_text(key);
    lemma_name_chars(m1);
    lemma_name_chars(m2);
    let e = Seq::<char>::empty();
    assert(split_plus(e) =~= seq![e]);
    lemma_split_append_word(e, m1);
    assert(e + m1 =~= m1);
    let t1 = m1.push('+');
    assert(t1.drop_last() =~= m1);
    assert(split_plus(t1) =~= seq![m1, e]);
    lemma_split_append_word(t1, m2);
    assert(e + m2 =~= m2);
    let t2 = (t1 + m2).push('+');
    assert(t2.drop_last() =~= t1 + m2);
    assert(split_plus(t1 + m2) =~= seq![m1, m2]);
    assert(split_plus(t2) =~= seq![m1, m2, e]);
    lemma_split_append_word(t2, kt);
    assert(e + kt =~= kt);
    let text = m1 + seq!['+'] + m2 + seq!['+'] + kt;
    assert(text =~= t2 + kt);
    let parts = seq![m1, m2, kt];
    assert(split_plus(text) =~= parts);
    assert(text[0] == m1[0]);
    assert(text[text.len() - 1] == kt[kt.len() - 1]);
    let slot = named_modifier(lower_seq(m1))->0;
    assert(modifier_slot(lower_seq(m1)) == Some(slot));
    assert(modifier_slot(lower_seq(m2)) == Some(slot));
    let s0: ParseState = (false, false, false, false, None);
    let st: ParseState = (slot == 0, slot == 1, slot == 2, slot == 3, None);
    assert(parse_parts(Seq::<Seq<char>>::empty()) == Ok::<ParseState, ParseFailure>(s0));
    lemma_step_modifier(s0, m1, slot);
    assert(seq![m1].drop_last() =~= Seq::<Seq<char>>::empty());
    assert(parse_parts(seq![m1]) == Ok::<ParseState, ParseFailure>(st));
    lemma_step_modifier(st, m2, slot);
    assert(seq![m1, m2].drop_last() =~= seq![m1]);
    assert(parse_parts(seq![m1, m2]) == Err::<ParseState, ParseFailure>(ParseFailure::DuplicateModifier));
    assert(parts.drop_last() =~= seq![m1, m2]);
    assert(parse_parts(parts) == Err::<ParseState, ParseFailure>(ParseFailure::DuplicateModifier));
}

/// A key alone, with no modifier, is refused: a modifier is required.
pub proof fn lemma_key_alone_needs_modifier(key: HotkeyKey)
    requires
        key_valid(key),
    ensures
        parse_hotkey_spec(key_text(key)) == Err::<Hotkey, ParseFailure>(ParseFailure::ModifierRequired),
{
    let kt = key_text(key);
    lemma_key_text(key);
    let e = Seq::<char>::empty();
    assert(split_plus(e) =~= seq![e]);
    lemma_split_append_word(e, kt);
    assert(e + kt =~= kt);
    assert(split_plus(kt) =~= seq![kt]);
    assert(seq![kt].drop_last() =~= Seq::<Seq<char>>::empty());
    assert(parse_parts(Seq::<Seq<char>>::empty()) == initial_state());
    assert(parse_parts(seq![kt]) == Ok::<ParseState, ParseFailure>((false, false, false, false, Some(key))));
    assert(!is_white_space(kt[0])) by {
        match key {
            HotkeyKey::Function(n) => {},
            _ => {},
        }
    }
}

proof fn lemma_lower_names()
    ensures
        modifier_slot(lower_seq(name_ctrl())) == Some(0int),
        modifier_slot(lower_seq(name_alt())) == Some(1int),
        modifier_slot(lower_seq(name_shift())) == Some(2int),
        modifier_slot(lower_seq(name_super())) == Some(3int),
{
    assert(lower_seq(name_ctrl()) =~= seq!['c', 't', 'r', 'l']);
    assert(lower_seq(name_alt()) =~= seq!['a', 'l', 't']);
    assert(lower_seq(name_shift()) =~= seq!['s', 'h', 'i', 'f', 't']);
    assert(lower_seq(name_super()) =~= seq!['s', 'u', 'p', 'e', 'r']);
}

proof fn lemma_key_text(k: HotkeyKey)
    requires
        key_valid(k),
    ensures
        key_text(k).len() > 0,
        forall|i: int| 0 <= i < key_text(k).len() ==> key_text(k)[i] != '+',
        !is_white_space(key_text(k)[key_text(k).len() - 1]),
        modifier_slot(lower_seq(key_text(k))) is None,
        parse_key_spec(key_text(k)) == Some(k),
{
    let t = key_text(k);
    match k {
        HotkeyKey::Letter(ch) => {
            assert(upper_seq(t) =~= seq![ch]);
            assert(lower_seq(t).len() == 1);
        },
        HotkeyKey::Digit(ch) => {
            assert(upper_seq(t) =~= seq![ch]);
            assert(lower_seq(t).len() == 1);
        },
        HotkeyKey::Function(n) => {
            lemma_decimal_digits(n as nat);
            let d = decimal(n as nat);
            assert(t.len() == d.len() + 1);
            assert(forall|i: int| 0 <= i < d.len() ==> #[trigger] t[i + 1] == d[i]);
            assert forall|i: int| 0 <= i < t.len() implies t[i] != '+' by {
                if i > 0 {
                    assert(t[i] == d[i - 1]);
                    assert(is_ascii_digit(d[i - 1]));
                }
            }
            assert(is_ascii_digit(d[d.len() - 1]));
            let up = upper_seq(t);
            assert(up =~= t) by {
                assert forall|i: int| 0 <= i < t.len() implies up[i] == t[i] by {
                    if i > 0 {
                        assert(t[i] == d[i - 1]);
                        assert(is_ascii_digit(d[i - 1]));
                    }
                }
            }
            assert(up.drop_first() =~= d);
            assert(lower_seq(t)[0] == 'f');
            assert(n < 25);
        },
    }
}

} // verus!
